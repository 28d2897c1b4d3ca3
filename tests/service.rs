use merch_store::database::DeployedMerchandise;
use merch_store::service::{
    complete_upload, content_disposition, prepare_download, prepare_upload, register_upload,
    respond_download, DownloadTarget, RequestError, StoreOutcome, UPLOAD_DIR,
};

fn s(x: &str) -> String {
    x.to_string()
}

#[test]
fn download_without_key_is_bad_request() {
    let db = DeployedMerchandise::new();
    let r = prepare_download(&db, None);
    assert!(matches!(r, Err(RequestError::MissingParameter)));
    assert_eq!(RequestError::MissingParameter.status(), 400);
}

#[test]
fn download_of_unissued_key_is_not_found() {
    let mut db = DeployedMerchandise::new();
    db.insert(s("known"), s("uploads/a.txt"));
    let key = s("never-issued");
    let r = prepare_download(&db, Some(&key));
    assert!(matches!(r, Err(RequestError::UnknownKey)));
    assert_eq!(RequestError::UnknownKey.status(), 404);
}

#[test]
fn download_resolves_registered_path_and_name() {
    let mut db = DeployedMerchandise::new();
    db.insert(s("k"), s("uploads/report.pdf"));
    let key = s("k");
    let t = prepare_download(&db, Some(&key)).ok().unwrap();
    assert_eq!(t.path, "uploads/report.pdf");
    assert_eq!(t.file_name, "report.pdf");
}

#[test]
fn download_of_path_without_file_name_is_server_error() {
    let mut db = DeployedMerchandise::new();
    db.insert(s("k"), s("uploads/.."));
    let key = s("k");
    let r = prepare_download(&db, Some(&key));
    assert!(matches!(r, Err(RequestError::UnnamedPath)));
    assert_eq!(RequestError::UnnamedPath.status(), 500);
}

#[test]
fn disposition_names_the_file() {
    assert_eq!(content_disposition("a.txt"), "attachment; filename=a.txt");
    assert_eq!(content_disposition(""), "attachment; filename=");
}

#[test]
fn download_sends_bytes_unchanged() {
    let t = DownloadTarget { path: s("uploads/b.bin"), file_name: s("b.bin") };
    let bytes: Vec<u8> = vec![0, 1, 2, 255, 10, 13];
    let d = respond_download(&t, Some(bytes.clone())).ok().unwrap();
    assert_eq!(d.body, bytes);
    assert_eq!(d.content_disposition, "attachment; filename=b.bin");
}

#[test]
fn empty_file_downloads_as_empty_body() {
    let t = DownloadTarget { path: s("uploads/empty"), file_name: s("empty") };
    let d = respond_download(&t, Some(Vec::new())).ok().unwrap();
    assert!(d.body.is_empty());
}

#[test]
fn registered_but_missing_file_is_distinct_error() {
    let t = DownloadTarget { path: s("uploads/gone"), file_name: s("gone") };
    let r = respond_download(&t, None);
    assert!(matches!(r, Err(RequestError::StoredFileMissing)));
    assert_eq!(RequestError::StoredFileMissing.status(), 500);
}

#[test]
fn upload_path_joins_directory_and_name() {
    assert_eq!(UPLOAD_DIR, "uploads");
    assert_eq!(prepare_upload(Some("a.txt")), Ok(s("uploads/a.txt")));
    assert_eq!(prepare_upload(None), Err(RequestError::MissingParameter));
}

#[test]
fn failed_store_registers_nothing() {
    let mut db = DeployedMerchandise::new();
    let r = complete_upload(&mut db, s("k"), s("uploads/x"), StoreOutcome::CreateFailed);
    assert_eq!(r, Err(RequestError::CreateFailed));
    assert_eq!(RequestError::CreateFailed.status(), 400);
    let r = complete_upload(&mut db, s("k"), s("uploads/x"), StoreOutcome::WriteFailed);
    assert_eq!(r, Err(RequestError::WriteFailed));
    assert_eq!(RequestError::WriteFailed.status(), 500);
    assert_eq!(db.get(&s("k")), None);
    let r = register_upload(&mut db, s("uploads/y"), StoreOutcome::WriteFailed);
    assert_eq!(r, Err(RequestError::WriteFailed));
}

#[test]
fn stored_upload_is_registered_under_given_key() {
    let mut db = DeployedMerchandise::new();
    let r = complete_upload(&mut db, s("k"), s("uploads/x"), StoreOutcome::Stored);
    assert_eq!(r, Ok(s("k")));
    assert_eq!(db.get(&s("k")), Some(s("uploads/x")));
}

#[test]
fn generated_keys_are_simple_uuids() {
    let mut db = DeployedMerchandise::new();
    let k = register_upload(&mut db, s("uploads/x"), StoreOutcome::Stored).unwrap();
    assert_eq!(k.len(), 32);
    assert!(k.chars().all(|c| c.is_ascii_digit() || ('a'..='f').contains(&c)));
    assert_eq!(db.get(&k), Some(s("uploads/x")));
}

#[test]
fn upload_then_download_round_trip() {
    let mut db = DeployedMerchandise::new();
    let path = prepare_upload(Some("data.bin")).unwrap();
    let key = register_upload(&mut db, path.clone(), StoreOutcome::Stored).unwrap();
    let t = prepare_download(&db, Some(&key)).ok().unwrap();
    assert_eq!(t.path, path);
    assert_eq!(t.file_name, "data.bin");
    let payload: Vec<u8> = (0..=255u8).collect();
    let d = respond_download(&t, Some(payload.clone())).ok().unwrap();
    assert_eq!(d.body.len(), 256);
    assert_eq!(d.body, payload);
}

#[test]
fn two_uploads_keep_their_own_paths() {
    let mut db = DeployedMerchandise::new();
    let p1 = prepare_upload(Some("one.txt")).unwrap();
    let p2 = prepare_upload(Some("two.txt")).unwrap();
    let k1 = register_upload(&mut db, p1.clone(), StoreOutcome::Stored).unwrap();
    let k2 = register_upload(&mut db, p2.clone(), StoreOutcome::Stored).unwrap();
    assert_ne!(k1, k2);
    let t1 = prepare_download(&db, Some(&k1)).ok().unwrap();
    let t2 = prepare_download(&db, Some(&k2)).ok().unwrap();
    assert_eq!(t1.path, p1);
    assert_eq!(t2.path, p2);
    assert_eq!(t1.file_name, "one.txt");
    assert_eq!(t2.file_name, "two.txt");
}
