//! The record kept for a bound document: its filesystem path and the
//! fingerprint of the content most recently read from or written to that path.

use vstd::prelude::*;
use crate::fingerprint::get_hash;
use crate::fingerprint::sha3_of;

verus! {

/// A bound document: a path and the fingerprint of its last-persisted content.
pub struct Metadata {
    path: String,
    hash: [u8; 32],
}

/// Whether editor content `content` differs from what a record with persisted
/// fingerprint `hash` last saw on disk.
pub open spec fn dirty_against(hash: Seq<u8>, content: Seq<u8>) -> bool {
    hash != sha3_of(content)
}

impl Metadata {
    /// The bound path.
    pub closed spec fn path_spec(&self) -> Seq<char> {
        self.path@
    }

    /// The fingerprint of the last-persisted content.
    pub closed spec fn hash_spec(&self) -> Seq<u8> {
        self.hash@
    }

    /// Bind to a freshly opened or freshly saved file: the fingerprint is
    /// computed from the content that was just read or written.
    pub fn new(path: String, data: &[u8]) -> (r: Self)
        ensures
            r.path_spec() == path@,
            r.hash_spec() == sha3_of(data@),
    {
        Metadata { path, hash: get_hash(data) }
    }

    /// Whether `data` still matches the last-persisted content, i.e. the
    /// document is not dirty against `data`.
    pub fn is_same_as(&self, data: &[u8]) -> (r: bool)
        ensures
            r == !dirty_against(self.hash_spec(), data@),
    {
        let fresh = get_hash(data);
        bytes32_equal(&self.hash, &fresh)
    }

    /// The bound path, for display and as the target of a plain save.
    pub fn get_path(&self) -> (r: &String)
        ensures
            r@ == self.path_spec(),
    {
        &self.path
    }

    /// Record a successful save of `data` to the bound path: the fingerprint
    /// is recomputed; the path is unchanged.
    pub fn set_data(&mut self, data: &[u8])
        ensures
            final(self).path_spec() == old(self).path_spec(),
            final(self).hash_spec() == sha3_of(data@),
    {
        self.hash = get_hash(data);
    }
}

fn bytes32_equal(a: &[u8; 32], b: &[u8; 32]) -> (r: bool)
    ensures
        r == (a@ == b@),
{
    let mut i: usize = 0;
    while i < 32
        invariant
            i <= 32,
            forall|k: int| 0 <= k < i ==> a@[k] == b@[k],
        decreases 32 - i,
    {
        if a[i] != b[i] {
            return false;
        }
        i = i + 1;
    }
    proof {
        assert(a@ =~= b@);
    }
    true
}

/// A record bound to some content is clean against that very content, and
/// carries the path it was bound to.
pub proof fn lemma_bind_not_dirty(m: Metadata, path: Seq<char>, content: Seq<u8>)
    requires
        m.path_spec() == path,
        m.hash_spec() == sha3_of(content),
    ensures
        !dirty_against(m.hash_spec(), content),
        m.path_spec() == path,
{
}

/// After a save of `content` is recorded, the record is clean against
/// `content` and its path is what it was before.
pub proof fn lemma_mark_saved_clean(before: Metadata, after: Metadata, content: Seq<u8>)
    requires
        after.path_spec() == before.path_spec(),
        after.hash_spec() == sha3_of(content),
    ensures
        !dirty_against(after.hash_spec(), content),
        after.path_spec() == before.path_spec(),
{
}

} // verus!
