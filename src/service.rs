//! The decisions that the upload and download handlers make around the
//! registry. Reading requests, touching the disk and sending responses are
//! left to the caller, which hands the outcomes in as plain values.

use crate::database::{apply_inserts, lookup, DeployedMerchandise};
use vstd::prelude::*;

verus! {

/// The directory under which uploaded files are stored.
pub const UPLOAD_DIR: &'static str = "uploads";

/// Why a request failed.
#[derive(Clone, Copy, Debug, PartialEq, Eq, Structural)]
pub enum RequestError {
    /// The request lacks the key, the file or its name.
    MissingParameter,
    /// No upload was registered under the key.
    UnknownKey,
    /// The registered path has no final file-name component.
    UnnamedPath,
    /// The key is registered but its file is missing or unreadable.
    StoredFileMissing,
    /// The file to store could not be created.
    CreateFailed,
    /// The file to store could not be written in full.
    WriteFailed,
}

impl RequestError {
    /// The HTTP status code that reports this failure.
    pub fn status(&self) -> (r: u16)
        ensures
            r == status_of(*self),
    {
        match self {
            RequestError::MissingParameter => 400,
            RequestError::UnknownKey => 404,
            RequestError::UnnamedPath => 500,
            RequestError::StoredFileMissing => 500,
            RequestError::CreateFailed => 400,
            RequestError::WriteFailed => 500,
        }
    }
}

/// The HTTP status code of each failure: client errors for malformed
/// requests and unknown keys, server errors where the index and the disk
/// disagree or the disk fails.
pub open spec fn status_of(e: RequestError) -> u16 {
    match e {
        RequestError::MissingParameter => 400,
        RequestError::UnknownKey => 404,
        RequestError::UnnamedPath => 500,
        RequestError::StoredFileMissing => 500,
        RequestError::CreateFailed => 400,
        RequestError::WriteFailed => 500,
    }
}

/// How the attempt to store an upload's bytes on disk ended.
#[derive(Clone, Copy, Debug, PartialEq, Eq, Structural)]
pub enum StoreOutcome {
    /// The bytes were written and flushed.
    Stored,
    /// The file could not be created.
    CreateFailed,
    /// Writing or flushing the file failed.
    WriteFailed,
}

/// A registered file that a download is to send.
pub struct DownloadTarget {
    pub path: String,
    pub file_name: String,
}

/// What a successful download sends: the `Content-Disposition` header's
/// value and the file's bytes.
pub struct Download {
    pub content_disposition: String,
    pub body: Vec<u8>,
}

/// The final component of a path, as std's `Path::file_name` gives it.
pub uninterp spec fn file_name_of(path: Seq<char>) -> Option<Seq<char>>;

/// Relies on std's `Path::file_name`: the final component of `path`, if it
/// has one that is a file name; a component of a `str` is valid UTF-8.
#[verifier::external_body]
fn path_file_name(path: &str) -> (r: Option<String>)
    ensures
        match r {
            Some(n) => file_name_of(path@) == Some(n@),
            None => file_name_of(path@) is None,
        },
{
    match std::path::Path::new(path).file_name() {
        Some(n) => n.to_str().map(String::from),
        None => None,
    }
}

/// A key as uuid's simple format writes it: 32 lowercase hex digits.
pub open spec fn is_simple_key(k: Seq<char>) -> bool {
    &&& k.len() == 32
    &&& forall|i: int|
        0 <= i < k.len() ==> ('0' <= #[trigger] k[i] <= '9' || 'a' <= k[i] <= 'f')
}

/// Relies on uuid's `Uuid::new_v4` and its `simple` formatter: a random
/// identifier, written as 32 lowercase hex digits.
#[verifier::external_body]
fn new_key() -> (r: String)
    ensures
        is_simple_key(r@),
{
    uuid::Uuid::new_v4().simple().to_string()
}

/// The view of an optional key.
pub open spec fn key_view(key: Option<&String>) -> Option<Seq<char>> {
    match key {
        Some(k) => Some(k@),
        None => None,
    }
}

/// What resolving a download of `key` against a registry holding `m` gives:
/// the registered path and its file name, or the failure.
pub open spec fn resolve(m: Map<Seq<char>, Seq<char>>, key: Option<Seq<char>>) -> Result<
    (Seq<char>, Seq<char>),
    RequestError,
> {
    match key {
        None => Err(RequestError::MissingParameter),
        Some(k) => match lookup(m, k) {
            None => Err(RequestError::UnknownKey),
            Some(p) => match file_name_of(p) {
                None => Err(RequestError::UnnamedPath),
                Some(n) => Ok((p, n)),
            },
        },
    }
}

/// The view of a resolved download.
pub open spec fn target_view(r: Result<DownloadTarget, RequestError>) -> Result<
    (Seq<char>, Seq<char>),
    RequestError,
> {
    match r {
        Ok(t) => Ok((t.path@, t.file_name@)),
        Err(e) => Err(e),
    }
}

/// The `Content-Disposition` value that sends a file as an attachment.
pub open spec fn disposition_of(file_name: Seq<char>) -> Seq<char> {
    "attachment; filename="@ + file_name
}

/// The path under which an upload named `file_name` is stored.
pub open spec fn upload_path_of(file_name: Seq<char>) -> Seq<char> {
    UPLOAD_DIR@ + "/"@ + file_name
}

/// Finds the file that a download of `key` is to send. Nothing on disk is
/// touched: a missing key and an unknown key fail before any read.
pub fn prepare_download(db: &DeployedMerchandise, key: Option<&String>) -> (r: Result<
    DownloadTarget,
    RequestError,
>)
    ensures
        target_view(r) == resolve(db@, key_view(key)),
{
    let k = match key {
        Some(k) => k,
        None => {
            return Err(RequestError::MissingParameter);
        },
    };
    let path = match db.get(k) {
        Some(p) => p,
        None => {
            return Err(RequestError::UnknownKey);
        },
    };
    match path_file_name(path.as_str()) {
        Some(file_name) => Ok(DownloadTarget { path, file_name }),
        None => Err(RequestError::UnnamedPath),
    }
}

/// The `Content-Disposition` value that sends `file_name` as an attachment.
pub fn content_disposition(file_name: &str) -> (r: String)
    ensures
        r@ == disposition_of(file_name@),
{
    let mut r = String::from_str("attachment; filename=");
    r.append(file_name);
    r
}

/// The response to a download of `target`, given the bytes read from its
/// path, or `None` where the file was missing or unreadable.
pub fn respond_download(target: &DownloadTarget, contents: Option<Vec<u8>>) -> (r: Result<
    Download,
    RequestError,
>)
    ensures
        match contents {
            None => r == Err::<Download, RequestError>(RequestError::StoredFileMissing),
            Some(b) => r matches Ok(d) && d.body@ == b@ && d.content_disposition@
                == disposition_of(target.file_name@),
        },
{
    match contents {
        Some(body) => {
            let content_disposition = content_disposition(target.file_name.as_str());
            Ok(Download { content_disposition, body })
        },
        None => Err(RequestError::StoredFileMissing),
    }
}

/// The path under which to store an upload, given the name it came with.
pub fn prepare_upload(file_name: Option<&str>) -> (r: Result<String, RequestError>)
    ensures
        match file_name {
            None => r == Err::<String, RequestError>(RequestError::MissingParameter),
            Some(n) => r matches Ok(p) && p@ == upload_path_of(n@),
        },
{
    match file_name {
        Some(n) => {
            let mut p = String::from_str(UPLOAD_DIR);
            p.append("/");
            p.append(n);
            Ok(p)
        },
        None => Err(RequestError::MissingParameter),
    }
}

/// Registers an upload under `key` once its bytes are on disk at `path`.
/// Where storing failed nothing is registered.
pub fn complete_upload(
    db: &mut DeployedMerchandise,
    key: String,
    path: String,
    outcome: StoreOutcome,
) -> (r: Result<String, RequestError>)
    ensures
        match outcome {
            StoreOutcome::Stored => r matches Ok(k) && k@ == key@ && final(db)@ == old(db)@.insert(
                key@,
                path@,
            ),
            StoreOutcome::CreateFailed => r == Err::<String, RequestError>(
                RequestError::CreateFailed,
            ) && final(db)@ == old(db)@,
            StoreOutcome::WriteFailed => r == Err::<String, RequestError>(RequestError::WriteFailed)
                && final(db)@ == old(db)@,
        },
{
    match outcome {
        StoreOutcome::Stored => {
            db.insert(key.clone(), path);
            Ok(key)
        },
        StoreOutcome::CreateFailed => Err(RequestError::CreateFailed),
        StoreOutcome::WriteFailed => Err(RequestError::WriteFailed),
    }
}

/// Registers an upload stored at `path` under a freshly generated key, which
/// it returns. Where storing failed no key is made and nothing is registered.
pub fn register_upload(db: &mut DeployedMerchandise, path: String, outcome: StoreOutcome) -> (r:
    Result<String, RequestError>)
    ensures
        match outcome {
            StoreOutcome::Stored => r matches Ok(k) && is_simple_key(k@) && final(db)@ == old(
                db,
            )@.insert(k@, path@),
            StoreOutcome::CreateFailed => r == Err::<String, RequestError>(
                RequestError::CreateFailed,
            ) && final(db)@ == old(db)@,
            StoreOutcome::WriteFailed => r == Err::<String, RequestError>(RequestError::WriteFailed)
                && final(db)@ == old(db)@,
        },
{
    match outcome {
        StoreOutcome::Stored => {
            let key = new_key();
            complete_upload(db, key, path, outcome)
        },
        StoreOutcome::CreateFailed => Err(RequestError::CreateFailed),
        StoreOutcome::WriteFailed => Err(RequestError::WriteFailed),
    }
}

/// An upload registered under `key` at `path` resolves, for a download of
/// `key`, to that same path until another upload takes the key; uploads
/// under other keys, concurrent ones included, leave it alone.
pub proof fn lemma_upload_resolves_to_own_path(
    m: Map<Seq<char>, Seq<char>>,
    key: Seq<char>,
    path: Seq<char>,
    later: Seq<(Seq<char>, Seq<char>)>,
)
    requires
        forall|i: int| 0 <= i < later.len() ==> #[trigger] later[i].0 != key,
    ensures
        resolve(apply_inserts(m.insert(key, path), later), Some(key)) == match file_name_of(path) {
            None => Err(RequestError::UnnamedPath),
            Some(n) => Ok((path, n)),
        },
{
    crate::database::lemma_latest_insert_visible(m, key, path, later);
}

} // verus!
