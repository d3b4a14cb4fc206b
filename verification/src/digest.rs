//! Content digests: opaque, fixed-size, comparable identifiers for content
//! blobs and file trees.

use vstd::prelude::*;

verus! {

/// An opaque content digest: a fixed 32-byte fingerprint together with the
/// byte length of the content it identifies.  Two identical contents always
/// yield the same digest; the digest itself is never inspected by this
/// crate beyond comparison.
#[derive(Clone, Copy, Debug)]
pub struct Digest {
    pub fingerprint: [u8; 32],
    pub size_bytes: usize,
}

impl Digest {
    pub fn new(fingerprint: [u8; 32], size_bytes: usize) -> (r: Digest)
        ensures
            r.fingerprint@ == fingerprint@,
            r.size_bytes == size_bytes,
    {
        Digest { fingerprint, size_bytes }
    }

    /// The digest of empty content.
    pub fn empty() -> (r: Digest)
        ensures
            r.fingerprint@ == Seq::new(32, |i: int| 0u8),
            r.size_bytes == 0,
    {
        let fingerprint = [0u8; 32];
        proof {
            assert(fingerprint@ =~= Seq::new(32, |i: int| 0u8));
        }
        Digest { fingerprint, size_bytes: 0 }
    }
}

impl PartialEq for Digest {
    fn eq(&self, other: &Digest) -> (r: bool) {
        let mut i: usize = 0;
        let mut same: bool = true;
        while i < 32
            invariant
                i <= 32,
                same == (forall|j: int| 0 <= j < i ==> self.fingerprint@[j] == other.fingerprint@[j]),
            decreases 32 - i,
        {
            if self.fingerprint[i] != other.fingerprint[i] {
                same = false;
            }
            i = i + 1;
        }
        if same {
            proof {
                if self.fingerprint@ != other.fingerprint@ {
                    assert(self.fingerprint@.len() == 32);
                    assert(self.fingerprint@ =~= other.fingerprint@);
                }
            }
            self.size_bytes == other.size_bytes
        } else {
            false
        }
    }
}

impl Eq for Digest {}

impl vstd::std_specs::cmp::PartialEqSpecImpl for Digest {
    open spec fn obeys_eq_spec() -> bool {
        true
    }

    open spec fn eq_spec(&self, other: &Digest) -> bool {
        self.fingerprint@ == other.fingerprint@ && self.size_bytes == other.size_bytes
    }
}

} // verus!
