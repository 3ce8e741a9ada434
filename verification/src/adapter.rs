use vstd::prelude::*;

use crate::error::FileSystemError;
use crate::id::{canonical_form, fresh_file_id, FileId};
use crate::storage::LocalStorage;
use crate::store::{delete_effect, lookup, store_effect, BlobStore};

verus! {

broadcast use vstd::string::group_string_axioms;

/// What an upload request's multipart body yielded: its first field with
/// the field's declared name and full byte content, no field at all, or
/// framing that could not be read (a broken body, or a field without a
/// name).
pub enum UploadRequest {
    FirstField { name: String, data: Vec<u8> },
    Empty,
    Malformed,
}

/// The response of a successful upload: the fresh identifier the blob
/// was stored under, the multipart field's declared name, the byte
/// count, and the upload instant. Built once per upload and never
/// persisted.
pub struct UploadDescriptor {
    pub id: FileId,
    pub name: String,
    pub size: u64,
    pub created_at: String,
}

/// An accepted upload, ready to be written: the fresh identifier, the
/// path the blob belongs at, a temporary path beside it (the bytes are
/// written there first and then renamed into place, so a concurrent
/// reader never observes a partially written blob), the field's declared
/// name and the byte count.
pub struct UploadPlan {
    pub id: FileId,
    pub path: String,
    pub temp_path: String,
    pub name: String,
    pub size: u64,
}

/// A retrieval response: a status code and the raw bytes of the body.
pub struct HttpResponse {
    pub status: u16,
    pub body: Vec<u8>,
}

/// Relies on `chrono::Utc::now` for the current instant and on
/// `chrono::DateTime::to_rfc3339` for its RFC 3339 textual form, which
/// is never empty. The result depends on the wall clock, so no more is
/// promised of it.
#[verifier::external_body]
fn current_timestamp() -> (r: String)
    ensures
        r@.len() > 0,
{
    chrono::Utc::now().to_rfc3339()
}

/// The upload operation over a blob store: the first multipart field's
/// content is stored under a fresh identifier and described in the
/// response; a request with no field, or with an unreadable body, is
/// rejected as a client error and leaves the store untouched.
pub fn upload_file(store: &mut BlobStore, request: UploadRequest) -> (r: Result<
    UploadDescriptor,
    u16,
>)
    ensures
        request matches UploadRequest::FirstField { name, data } ==> (r matches Ok(d)
            && d.name@ == name@ && d.size as nat == data@.len() && d.created_at@.len() > 0
            && final(store)@ == store_effect(old(store)@, d.id@, data@)),
        !(request is FirstField) ==> r == Err::<UploadDescriptor, u16>(400u16) && final(store)@
            == old(store)@,
{
    match request {
        UploadRequest::FirstField { name, data } => {
            let id = fresh_file_id();
            let size: u64 = data.len() as u64;
            store.store_file(id, data);
            let created_at = current_timestamp();
            Ok(UploadDescriptor { id, name, size, created_at })
        },
        _ => Err(400),
    }
}

/// The retrieve operation's outcome-to-response mapping: found content
/// is the body of a 200 response, a missing blob gives an empty 404
/// response, any other storage failure an empty 500 response.
pub fn retrieve_response(outcome: Result<Vec<u8>, FileSystemError>) -> (r: HttpResponse)
    ensures
        outcome matches Ok(bytes) ==> r.status == 200 && r.body@ == bytes@,
        outcome matches Err(e) ==> r.status == (if e == FileSystemError::FileNotFound {
            404u16
        } else {
            500u16
        }) && r.body@.len() == 0,
{
    match outcome {
        Ok(bytes) => HttpResponse { status: 200, body: bytes },
        Err(e) => HttpResponse {
            status: if e == FileSystemError::FileNotFound {
                404
            } else {
                500
            },
            body: Vec::new(),
        },
    }
}

/// The delete operation's outcome-to-status mapping: success gives 204,
/// a missing blob 404, any other storage failure 500.
pub fn delete_status(outcome: Result<(), FileSystemError>) -> (r: u16)
    ensures
        outcome is Ok ==> r == 204,
        outcome matches Err(e) ==> r == (if e == FileSystemError::FileNotFound {
            404u16
        } else {
            500u16
        }),
{
    match outcome {
        Ok(_) => 204,
        Err(e) => if e == FileSystemError::FileNotFound {
            404
        } else {
            500
        },
    }
}

/// The retrieve operation over a blob store: the blob stored under the
/// identifier is the body of a 200 response; an identifier that holds no
/// blob gives an empty 404 response.
pub fn get_file(store: &BlobStore, id: FileId) -> (r: HttpResponse)
    ensures
        lookup(store@, id@) matches Some(bytes) ==> r.status == 200 && r.body@ == bytes,
        lookup(store@, id@) is None ==> r.status == 404 && r.body@.len() == 0,
{
    retrieve_response(store.get_file(id))
}

/// The delete operation over a blob store: deleting an identifier that
/// holds a blob removes exactly that blob and gives 204; one that holds
/// none changes nothing and gives 404.
pub fn delete_file(store: &mut BlobStore, id: FileId) -> (r: u16)
    ensures
        lookup(old(store)@, id@) is Some ==> r == 204 && final(store)@ == delete_effect(
            old(store)@,
            id@,
        ),
        lookup(old(store)@, id@) is None ==> r == 404 && final(store)@ == old(store)@,
{
    delete_status(store.delete_file(id))
}

/// The upload operation's accepting half for a path-addressed store:
/// the first multipart field is given a fresh identifier and the path it
/// belongs at, and its bytes are handed back to be written there; a
/// request with no field, or with an unreadable body, is rejected as a
/// client error.
pub fn plan_upload(storage: &LocalStorage, request: UploadRequest) -> (r: Result<
    (UploadPlan, Vec<u8>),
    u16,
>)
    ensures
        request matches UploadRequest::FirstField { name, data } ==> (r matches Ok((plan, bytes))
            && plan.name@ == name@ && bytes@ == data@ && plan.size as nat == data@.len()
            && plan.path@ == storage@ + seq!['/'] + canonical_form(plan.id@) && plan.temp_path@
            == plan.path@ + seq!['.', 't', 'm', 'p']),
        !(request is FirstField) ==> r == Err::<(UploadPlan, Vec<u8>), u16>(400u16),
{
    match request {
        UploadRequest::FirstField { name, data } => {
            let id = fresh_file_id();
            let path = storage.file_path(&id);
            let mut temp_path = path.clone();
            temp_path.append(".tmp");
            proof {
                reveal_strlit(".tmp");
                assert(temp_path@ =~= path@ + seq!['.', 't', 'm', 'p']);
            }
            let size: u64 = data.len() as u64;
            Ok((UploadPlan { id, path, temp_path, name, size }, data))
        },
        _ => Err(400),
    }
}

/// The upload operation's finishing half: once the planned write has
/// been attempted, a successful write is described in the response and
/// any write failure is reported as a server error.
pub fn finish_upload(plan: UploadPlan, outcome: Result<(), FileSystemError>) -> (r: Result<
    UploadDescriptor,
    u16,
>)
    ensures
        outcome is Ok ==> (r matches Ok(d) && d.id == plan.id && d.name@ == plan.name@ && d.size
            == plan.size && d.created_at@.len() > 0),
        outcome is Err ==> r == Err::<UploadDescriptor, u16>(500u16),
{
    match outcome {
        Ok(_) => {
            let created_at = current_timestamp();
            Ok(UploadDescriptor { id: plan.id, name: plan.name, size: plan.size, created_at })
        },
        Err(_) => Err(500),
    }
}

} // verus!
