//! Authorization of requests by a shared secret.
use vstd::prelude::*;

verus! {

/// `presented` is a credential and equals `secret` byte for byte.
pub open spec fn credential_ok(presented: Option<Seq<u8>>, secret: Seq<u8>) -> bool {
    presented == Some(secret)
}

/// Compares the presented credential, if any, with the configured secret
/// by exact match.
pub fn credential_matches(presented: Option<&[u8]>, secret: &[u8]) -> (r: bool)
    ensures
        r == credential_ok(
            match presented {
                Some(p) => Some(p@),
                None => None,
            },
            secret@,
        ),
{
    let p = match presented {
        Some(p) => p,
        None => return false,
    };
    if p.len() != secret.len() {
        return false;
    }
    let mut i: usize = 0;
    while i < p.len()
        invariant
            presented == Some(p),
            p@.len() == secret@.len(),
            i <= p@.len(),
            forall|j: int| 0 <= j < i ==> p@[j] == secret@[j],
        decreases p@.len() - i,
    {
        if p[i] != secret[i] {
            assert(p@[i as int] != secret@[i as int]);
            return false;
        }
        i = i + 1;
    }
    assert(p@ =~= secret@);
    true
}

} // verus!
