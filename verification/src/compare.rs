use vstd::prelude::*;

verus! {

/// Byte-slice equality in constant time with respect to the contents.
///
/// The loop always walks the whole of both slices and folds every difference
/// into one accumulator, so the running time depends only on the lengths,
/// never on where the first differing byte sits. The keyed-hash verification
/// path compares digests with this function to avoid a timing side channel.
pub fn ct_bytes_eq(a: &[u8], b: &[u8]) -> (r: bool)
    ensures
        r == (a@ == b@),
{
    if a.len() != b.len() {
        return false;
    }
    let n = a.len();
    let mut diff: u8 = 0;
    let mut i: usize = 0;
    while i < n
        invariant
            n == a@.len(),
            a@.len() == b@.len(),
            i <= n,
            (diff == 0) <==> (forall|j: int| 0 <= j < i ==> a@[j] == b@[j]),
        decreases n - i,
    {
        let ai = a[i];
        let bi = b[i];
        proof {
            let d = diff;
            assert(((d | (ai ^ bi)) == 0) <==> (d == 0 && ai == bi)) by (bit_vector);
        }
        diff = diff | (ai ^ bi);
        i += 1;
    }
    proof {
        if diff == 0 {
            assert(a@ =~= b@);
        } else {
            assert(!(forall|j: int| 0 <= j < n ==> a@[j] == b@[j]));
        }
    }
    diff == 0
}

/// String equality, character by character.
pub(crate) fn str_eq(a: &str, b: &str) -> (r: bool)
    ensures
        r == (a@ == b@),
{
    let an = a.unicode_len();
    if an != b.unicode_len() {
        return false;
    }
    let mut i: usize = 0;
    while i < an
        invariant
            an as nat == a@.len(),
            a@.len() == b@.len(),
            i <= an,
            forall|j: int| 0 <= j < i ==> a@[j] == b@[j],
        decreases an - i,
    {
        if a.get_char(i) != b.get_char(i) {
            return false;
        }
        i += 1;
    }
    proof {
        assert(a@ =~= b@);
    }
    true
}

} // verus!
