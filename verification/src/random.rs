//! The source of chance: the random number generator of the `rand` crate that
//! belongs to the current thread.
//!
//! Nothing is known here of the numbers that come out of it. What is made of
//! them is decided by functions that take the number as an argument and are
//! exact for every value of it.

use vstd::prelude::*;

use rand::rngs::ThreadRng;

verus! {

/// `rand::rngs::ThreadRng`, the handle to the generator of the current
/// thread. Its inside is not looked at.
#[verifier::external_type_specification]
#[verifier::external_body]
pub struct ExThreadRng(rand::rngs::ThreadRng);

/// `rand::thread_rng`, which hands out the handle to the generator of the
/// current thread.
///
/// Trusted, with nothing stated of the handle. The first call on a thread
/// seeds the generator from the operating system and does not return if the
/// system has no randomness to give.
pub assume_specification[ rand::thread_rng ]() -> (rng: rand::rngs::ThreadRng);

/// Draws 64 random bits with `rand::RngCore::next_u64`.
///
/// Trusted, with nothing stated of the number: each call may give any value.
#[verifier::external_body]
pub(crate) fn next_u64(rng: &mut ThreadRng) -> (value: u64) {
    rand::RngCore::next_u64(rng)
}

/// Picks one item of a slice at random with `rand::seq::SliceRandom::choose`.
///
/// Trusted: of an empty slice nothing is picked, and what is picked of
/// another is one of its items. Which one it is may differ from call to call.
#[verifier::external_body]
pub(crate) fn pick_one<'a, T>(items: &'a [T], rng: &mut ThreadRng) -> (picked: Option<&'a T>)
    ensures
        match picked {
            Some(item) => items@.contains(*item),
            None => items@.len() == 0,
        },
{
    rand::seq::SliceRandom::choose(items, rng)
}

} // verus!
