//! The one source of randomness: question draws and derived-corpus score
//! weights both sample through it.

use vstd::prelude::*;

verus! {

/// Relies on rand::Rng::gen_range over the half-open range `0..n`: the
/// sample always lies below `n`, and the call panics only when the range
/// is empty, which the precondition rules out.  Nothing more is assumed:
/// two calls on the same bound may differ.
#[verifier::external_body]
pub(crate) fn random_below(n: usize) -> (r: usize)
    requires
        1 <= n,
    ensures
        r < n,
{
    rand::Rng::gen_range(&mut rand::thread_rng(), 0..n)
}

} // verus!
