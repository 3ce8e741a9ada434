use std::collections::HashMap;
use vstd::prelude::*;

use crate::error::FileSystemError;
use crate::id::FileId;

verus! {

broadcast use vstd::std_specs::hash::group_hash_axioms;

/// What a store holds after `bytes` are stored under `id`: the blob
/// under `id` is created or fully overwritten, every other blob is kept.
pub open spec fn store_effect(dir: Map<u128, Seq<u8>>, id: u128, bytes: Seq<u8>) -> Map<
    u128,
    Seq<u8>,
> {
    dir.insert(id, bytes)
}

/// What retrieving `id` from a store finds: the blob stored under `id`,
/// or nothing if no blob exists for it.
pub open spec fn lookup(dir: Map<u128, Seq<u8>>, id: u128) -> Option<Seq<u8>> {
    if dir.contains_key(id) {
        Some(dir[id])
    } else {
        None
    }
}

/// What a store holds after `id` is deleted: no blob under `id`, every
/// other blob kept.
pub open spec fn delete_effect(dir: Map<u128, Seq<u8>>, id: u128) -> Map<u128, Seq<u8>> {
    dir.remove(id)
}

/// The storage engine: a map from 128-bit identifiers to byte blobs.
///
/// Its view is that map; `store_file`, `get_file` and `delete_file` are
/// specified against it through `store_effect`, `lookup` and
/// `delete_effect`.
pub struct BlobStore {
    files: HashMap<u128, Vec<u8>>,
}

impl View for BlobStore {
    type V = Map<u128, Seq<u8>>;

    closed spec fn view(&self) -> Map<u128, Seq<u8>> {
        Map::new(|k: u128| self.files@.contains_key(k), |k: u128| self.files@[k]@)
    }
}

impl BlobStore {
    /// An empty store: no identifier holds a blob.
    pub fn new() -> (r: Self)
        ensures
            r@ == Map::<u128, Seq<u8>>::empty(),
    {
        let r = BlobStore { files: HashMap::new() };
        proof {
            assert(r@ =~= Map::<u128, Seq<u8>>::empty());
        }
        r
    }

    /// Stores `bytes` under `id`, creating or fully overwriting the
    /// blob; succeeds for any identifier and any byte length.
    pub fn store_file(&mut self, id: FileId, bytes: Vec<u8>)
        ensures
            final(self)@ == store_effect(old(self)@, id@, bytes@),
    {
        self.files.insert(id.0, bytes);
        proof {
            assert(self@ =~= store_effect(old(self)@, id@, bytes@));
        }
    }

    /// Returns the complete content of the blob stored under `id`, or
    /// `FileNotFound` exactly when no blob exists for `id`.
    pub fn get_file(&self, id: FileId) -> (r: Result<Vec<u8>, FileSystemError>)
        ensures
            r is Ok <==> lookup(self@, id@) is Some,
            r matches Ok(bytes) ==> lookup(self@, id@) == Some(bytes@),
            r is Err ==> r == Result::<Vec<u8>, FileSystemError>::Err(
                FileSystemError::FileNotFound,
            ),
    {
        match self.files.get(&id.0) {
            Some(bytes) => Ok(vstd::slice::slice_to_vec(bytes.as_slice())),
            None => Err(FileSystemError::FileNotFound),
        }
    }

    /// Removes the blob stored under `id` and keeps every other blob;
    /// fails with `FileNotFound`, changing nothing, exactly when no blob
    /// exists for `id`.
    pub fn delete_file(&mut self, id: FileId) -> (r: Result<(), FileSystemError>)
        ensures
            r is Ok <==> lookup(old(self)@, id@) is Some,
            final(self)@ == delete_effect(old(self)@, id@),
            r is Err ==> r == Result::<(), FileSystemError>::Err(FileSystemError::FileNotFound)
                && final(self)@ == old(self)@,
    {
        let found = self.files.remove(&id.0);
        proof {
            assert(self@ =~= delete_effect(old(self)@, id@));
            if lookup(old(self)@, id@) is None {
                assert(self@ =~= old(self)@);
            }
        }
        match found {
            Some(_) => Ok(()),
            None => Err(FileSystemError::FileNotFound),
        }
    }
}

/// Round trip: storing bytes under an identifier and then retrieving
/// that identifier finds exactly those bytes, whatever the store held
/// before and for any byte sequence, the empty one included.
pub proof fn lemma_store_then_retrieve(dir: Map<u128, Seq<u8>>, id: u128, bytes: Seq<u8>)
    ensures
        lookup(store_effect(dir, id, bytes), id) == Some(bytes),
{
}

/// Delete then retrieve: after a delete of an identifier, retrieving it
/// finds nothing, whatever the store held before.
pub proof fn lemma_delete_then_retrieve(dir: Map<u128, Seq<u8>>, id: u128)
    ensures
        lookup(delete_effect(dir, id), id) is None,
{
}

/// Unknown-identifier safety: on an identifier that holds no blob,
/// retrieving finds nothing and deleting leaves the store exactly as it
/// was.
pub proof fn lemma_unknown_id_safe(dir: Map<u128, Seq<u8>>, id: u128)
    requires
        !dir.contains_key(id),
    ensures
        lookup(dir, id) is None,
        delete_effect(dir, id) == dir,
{
    assert(delete_effect(dir, id) =~= dir);
}

/// Independence: storing under or deleting one identifier never changes
/// what any other identifier retrieves.
pub proof fn lemma_distinct_ids_independent(
    dir: Map<u128, Seq<u8>>,
    id: u128,
    other: u128,
    bytes: Seq<u8>,
)
    requires
        id != other,
    ensures
        lookup(store_effect(dir, id, bytes), other) == lookup(dir, other),
        lookup(delete_effect(dir, id), other) == lookup(dir, other),
{
}

} // verus!
