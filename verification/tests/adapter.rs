use dist_file_system::adapter::{
    delete_file, delete_status, finish_upload, get_file, plan_upload, retrieve_response,
    upload_file, UploadRequest,
};
use dist_file_system::error::FileSystemError;
use dist_file_system::id::FileId;
use dist_file_system::storage::LocalStorage;
use dist_file_system::store::BlobStore;

fn field(name: &str, data: &[u8]) -> UploadRequest {
    UploadRequest::FirstField {
        name: name.to_string(),
        data: data.to_vec(),
    }
}

#[test]
fn upload_then_retrieve() {
    let mut store = BlobStore::new();
    let d = upload_file(&mut store, field("file", b"hello")).unwrap();
    assert_eq!(d.name, "file");
    assert_eq!(d.size, 5);
    assert!(!d.created_at.is_empty());
    let r = get_file(&store, d.id);
    assert_eq!(r.status, 200);
    assert_eq!(r.body, b"hello".to_vec());
}

#[test]
fn retrieve_unknown_id_is_404() {
    let store = BlobStore::new();
    let r = get_file(&store, FileId(0x123456789abcdef0123456789abcdef0));
    assert_eq!(r.status, 404);
    assert!(r.body.is_empty());
}

#[test]
fn delete_then_retrieve_is_404() {
    let mut store = BlobStore::new();
    let d = upload_file(&mut store, field("file", b"hello")).unwrap();
    assert_eq!(delete_file(&mut store, d.id), 204);
    assert_eq!(get_file(&store, d.id).status, 404);
}

#[test]
fn delete_unknown_id_is_404() {
    let mut store = BlobStore::new();
    assert_eq!(delete_file(&mut store, FileId(99)), 404);
}

#[test]
fn upload_without_fields_is_400() {
    let mut store = BlobStore::new();
    assert_eq!(upload_file(&mut store, UploadRequest::Empty).err(), Some(400));
}

#[test]
fn upload_with_broken_body_is_400() {
    let mut store = BlobStore::new();
    assert_eq!(upload_file(&mut store, UploadRequest::Malformed).err(), Some(400));
}

#[test]
fn uploads_yield_distinct_ids() {
    let mut store = BlobStore::new();
    let mut ids: Vec<FileId> = Vec::new();
    for i in 0..20u8 {
        let d = upload_file(&mut store, field("file", &[i])).unwrap();
        ids.push(d.id);
    }
    for i in 0..ids.len() {
        for j in 0..i {
            assert_ne!(ids[i], ids[j]);
        }
    }
}

#[test]
fn fresh_ids_carry_the_version_marker() {
    let mut store = BlobStore::new();
    let d = upload_file(&mut store, field("file", b"x")).unwrap();
    let s = d.id.to_canonical_string();
    assert_eq!(s.as_bytes()[14], b'4');
}

#[test]
fn two_uploads_stay_independent() {
    let mut store = BlobStore::new();
    let first = upload_file(&mut store, field("a", b"payload one")).unwrap();
    let second = upload_file(&mut store, field("b", b"payload two")).unwrap();
    assert_ne!(first.id, second.id);
    assert_eq!(get_file(&store, first.id).body, b"payload one".to_vec());
    assert_eq!(get_file(&store, second.id).body, b"payload two".to_vec());
}

#[test]
fn retrieve_io_failure_is_500() {
    let r = retrieve_response(Err(FileSystemError::Io));
    assert_eq!(r.status, 500);
    assert!(r.body.is_empty());
}

#[test]
fn retrieve_invalid_data_is_500() {
    assert_eq!(retrieve_response(Err(FileSystemError::InvalidFileData)).status, 500);
}

#[test]
fn delete_io_failure_is_500() {
    assert_eq!(delete_status(Err(FileSystemError::Io)), 500);
}

#[test]
fn planned_upload_paths_and_finish() {
    let storage = LocalStorage::new("./files");
    let (plan, bytes) = plan_upload(&storage, field("file", b"hello")).unwrap();
    assert_eq!(bytes, b"hello".to_vec());
    assert_eq!(plan.size, 5);
    assert_eq!(plan.name, "file");
    let expected = format!("./files/{}", plan.id.to_canonical_string());
    assert_eq!(plan.path, expected);
    assert_eq!(plan.temp_path, format!("{expected}.tmp"));
    let d = finish_upload(plan, Ok(())).unwrap();
    assert_eq!(d.size, 5);
    assert_eq!(d.name, "file");
    assert!(!d.created_at.is_empty());
}

#[test]
fn planned_upload_rejects_empty_request() {
    let storage = LocalStorage::new("./files");
    assert!(matches!(
        plan_upload(&storage, UploadRequest::Empty),
        Err(400)
    ));
}

#[test]
fn planned_upload_write_failure_is_500() {
    let storage = LocalStorage::new("./files");
    let (plan, _bytes) = plan_upload(&storage, field("file", b"hello")).unwrap();
    assert_eq!(
        finish_upload(plan, Err(FileSystemError::Io)).err(),
        Some(500)
    );
}

#[test]
fn file_path_is_base_slash_id() {
    let storage = LocalStorage::new("/tmp/blobs");
    let id = FileId(0x550e8400e29b41d4a716446655440000u128);
    assert_eq!(
        storage.file_path(&id).as_str(),
        "/tmp/blobs/550e8400-e29b-41d4-a716-446655440000"
    );
}
