//! Random bytes from the operating system.

use rand::rngs::OsRng;
use rand::RngCore;
use vstd::prelude::*;

verus! {

/// Overwrites `buffer` with bytes from the operating system's secure random
/// source, by `rand::rngs::OsRng::fill_bytes`.
///
/// Nothing is claimed of the bytes written: they differ from call to call.
/// `fill_bytes` stops the process if the operating system cannot supply
/// random bytes.
#[verifier::external_body]
pub(crate) fn fill_random<const N: usize>(buffer: &mut [u8; N]) {
    OsRng.fill_bytes(buffer)
}

} // verus!
