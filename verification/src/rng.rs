use vstd::prelude::*;

verus! {

/// Relies on `rand::rngs::OsRng` with `RngCore::try_fill_bytes`: fills the
/// buffer from the operating system's cryptographically secure generator, or
/// reports that entropy is unavailable. The bytes depend on that generator,
/// so only the length is promised.
#[verifier::external_body]
pub(crate) fn os_random_bytes(len: usize) -> (r: Option<Vec<u8>>)
    ensures
        r matches Some(v) ==> v@.len() == len as nat,
{
    let mut buf = vec![0u8; len];
    match rand::RngCore::try_fill_bytes(&mut rand::rngs::OsRng, &mut buf) {
        Ok(()) => Some(buf),
        Err(_) => None,
    }
}

/// Relies on `rand::Rng::gen_range` over `rand::thread_rng`: a value drawn
/// from the half-open range below `n`; which value comes back depends on the
/// generator, so only the bound is promised.
#[verifier::external_body]
pub(crate) fn rand_below(n: usize) -> (r: usize)
    requires
        n > 0,
    ensures
        r < n,
{
    rand::Rng::gen_range(&mut rand::thread_rng(), 0..n)
}

/// Relies on `rand::seq::SliceRandom::shuffle` over `rand::thread_rng`: the
/// elements are reordered in place, so the multiset of them is unchanged;
/// the order depends on the generator, so nothing more is promised.
#[verifier::external_body]
pub(crate) fn shuffle_chars(v: &mut Vec<char>)
    ensures
        final(v)@.to_multiset() == old(v)@.to_multiset(),
        final(v)@.len() == old(v)@.len(),
{
    rand::seq::SliceRandom::shuffle(v.as_mut_slice(), &mut rand::thread_rng());
}

} // verus!
