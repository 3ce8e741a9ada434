use vstd::prelude::*;

use crate::id::{canonical_form, FileId};

verus! {

broadcast use vstd::string::group_string_axioms;

/// The on-disk layout of the store: a single base directory holding one
/// file per blob, named by the canonical string form of its identifier.
///
/// This handle carries only the immutable base path; it performs no
/// input or output itself. Its view is the base path's characters.
pub struct LocalStorage {
    base_path: String,
}

impl View for LocalStorage {
    type V = Seq<char>;

    closed spec fn view(&self) -> Seq<char> {
        self.base_path@
    }
}

impl LocalStorage {
    /// A handle rooted at the given base directory path.
    pub fn new(base_path: &str) -> (r: Self)
        ensures
            r@ == base_path@,
    {
        LocalStorage { base_path: String::from_str(base_path) }
    }

    /// The path of the blob addressed by `id`: the base path, a path
    /// separator, and the identifier's canonical string form.
    pub fn file_path(&self, id: &FileId) -> (r: String)
        ensures
            r@ == self@ + seq!['/'] + canonical_form(id@),
    {
        let mut r = self.base_path.clone();
        r.append("/");
        let name = id.to_canonical_string();
        r.append(name.as_str());
        proof {
            reveal_strlit("/");
            assert("/"@ =~= seq!['/']);
            assert(r@ =~= self@ + seq!['/'] + canonical_form(id@));
        }
        r
    }
}

} // verus!
