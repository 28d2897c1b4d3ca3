//! The key-to-path registry: an in-memory index from opaque keys to the
//! paths under which uploaded files were stored.

use vstd::hash_map::StringHashMap;
use vstd::prelude::*;

verus! {

/// What a lookup of `key` in a registry whose contents are `m` gives.
pub open spec fn lookup(m: Map<Seq<char>, Seq<char>>, key: Seq<char>) -> Option<Seq<char>> {
    if m.contains_key(key) {
        Some(m[key])
    } else {
        None
    }
}

/// The contents of a registry that held `m` after the inserts `ops`, in order.
pub open spec fn apply_inserts(
    m: Map<Seq<char>, Seq<char>>,
    ops: Seq<(Seq<char>, Seq<char>)>,
) -> Map<Seq<char>, Seq<char>>
    decreases ops.len(),
{
    if ops.len() == 0 {
        m
    } else {
        apply_inserts(m, ops.drop_last()).insert(ops.last().0, ops.last().1)
    }
}

/// A key that no insert of a fresh registry named is absent from it.
pub proof fn lemma_never_inserted_absent(ops: Seq<(Seq<char>, Seq<char>)>, key: Seq<char>)
    requires
        forall|i: int| 0 <= i < ops.len() ==> #[trigger] ops[i].0 != key,
    ensures
        lookup(apply_inserts(Map::empty(), ops), key) is None,
    decreases ops.len(),
{
    if ops.len() > 0 {
        let rest = ops.drop_last();
        assert forall|i: int| 0 <= i < rest.len() implies #[trigger] rest[i].0 != key by {
            assert(rest[i] == ops[i]);
        }
        lemma_never_inserted_absent(rest, key);
        assert(ops[ops.len() - 1].0 != key);
    }
}

/// After an insert of `(key, path)`, a lookup of `key` gives `path` until
/// another insert names `key`; inserts of other keys leave it alone.
pub proof fn lemma_latest_insert_visible(
    m: Map<Seq<char>, Seq<char>>,
    key: Seq<char>,
    path: Seq<char>,
    later: Seq<(Seq<char>, Seq<char>)>,
)
    requires
        forall|i: int| 0 <= i < later.len() ==> #[trigger] later[i].0 != key,
    ensures
        lookup(apply_inserts(m.insert(key, path), later), key) == Some(path),
    decreases later.len(),
{
    if later.len() > 0 {
        let rest = later.drop_last();
        assert forall|i: int| 0 <= i < rest.len() implies #[trigger] rest[i].0 != key by {
            assert(rest[i] == later[i]);
        }
        lemma_latest_insert_visible(m, key, path, rest);
        assert(later[later.len() - 1].0 != key);
    }
}

/// Inserts of pairwise distinct keys, in whatever order they complete, leave
/// each key mapped to the path that its own insert gave.
pub proof fn lemma_distinct_inserts_independent(
    m: Map<Seq<char>, Seq<char>>,
    ops: Seq<(Seq<char>, Seq<char>)>,
)
    requires
        forall|i: int, j: int|
            0 <= i < ops.len() && 0 <= j < ops.len() && i != j ==> #[trigger] ops[i].0
                != #[trigger] ops[j].0,
    ensures
        forall|i: int|
            0 <= i < ops.len() ==> lookup(apply_inserts(m, ops), #[trigger] ops[i].0) == Some(
                ops[i].1,
            ),
    decreases ops.len(),
{
    if ops.len() > 0 {
        let rest = ops.drop_last();
        let n = ops.len() - 1;
        assert forall|i: int, j: int|
            0 <= i < rest.len() && 0 <= j < rest.len() && i != j implies #[trigger] rest[i].0
                != #[trigger] rest[j].0 by {
            assert(rest[i] == ops[i] && rest[j] == ops[j]);
        }
        lemma_distinct_inserts_independent(m, rest);
        assert forall|i: int| 0 <= i < ops.len() implies lookup(
            apply_inserts(m, ops),
            #[trigger] ops[i].0,
        ) == Some(ops[i].1) by {
            if i < n {
                assert(rest[i] == ops[i]);
                assert(ops[i].0 != ops[n].0);
            }
        }
    }
}

/// The view of an optional path.
pub open spec fn path_view(p: Option<String>) -> Option<Seq<char>> {
    match p {
        Some(s) => Some(s@),
        None => None,
    }
}

/// A registry mapping keys to the paths of stored files.
///
/// Entries are only ever added or overwritten, never removed.
pub struct DeployedMerchandise {
    db: StringHashMap<String>,
}

impl View for DeployedMerchandise {
    type V = Map<Seq<char>, Seq<char>>;

    closed spec fn view(&self) -> Map<Seq<char>, Seq<char>> {
        self.db@.map_values(|p: String| p@)
    }
}

impl DeployedMerchandise {
    /// An empty registry.
    pub fn new() -> (r: Self)
        ensures
            r@ == Map::<Seq<char>, Seq<char>>::empty(),
    {
        let r = DeployedMerchandise { db: StringHashMap::new() };
        assert(r@ =~= Map::<Seq<char>, Seq<char>>::empty());
        r
    }

    /// Maps `key` to `value`, replacing any earlier mapping of `key`.
    pub fn insert(&mut self, key: String, value: String)
        ensures
            final(self)@ == old(self)@.insert(key@, value@),
    {
        self.db.insert(key, value);
        assert(self@ =~= old(self)@.insert(key@, value@));
    }

    /// The path that `key` currently maps to, if any.
    pub fn get(&self, key: &String) -> (r: Option<String>)
        ensures
            path_view(r) == lookup(self@, key@),
    {
        match self.db.get(key.as_str()) {
            Some(p) => Some(p.clone()),
            None => None,
        }
    }
}

impl Default for DeployedMerchandise {
    fn default() -> (r: Self)
        ensures
            r@ == Map::<Seq<char>, Seq<char>>::empty(),
    {
        Self::new()
    }
}

} // verus!
