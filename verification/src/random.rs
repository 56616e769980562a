//! The one place where chance enters the game.

use rand::Rng;
use vstd::prelude::*;

verus! {

/// A random coordinate from `low` up to, and without, `high`.
///
/// Trusted: the body calls `rand::Rng::gen_range` on the generator that
/// `rand::thread_rng` hands out, with the half-open range `low..high`. The
/// contract claims of it only what holds of every draw: the number lies in
/// the range. `gen_range` panics on an empty range, which the precondition
/// rules out. Nothing is claimed about which number of the range comes back.
/// The generator is seeded by the operating system when a thread first asks
/// for it, and panics there if the system has no entropy to give.
#[verifier::external_body]
pub(crate) fn random_in(low: u16, high: u16) -> (drawn: u16)
    requires
        low < high,
    ensures
        low <= drawn < high,
{
    rand::thread_rng().gen_range(low..high)
}

} // verus!
