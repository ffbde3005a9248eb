//! The injected source of randomness for puzzle selection.

use vstd::prelude::*;

verus! {

/// Relies on rand::random: a word drawn from the thread-local generator.
/// Nothing can be promised of its value.
#[verifier::external_body]
pub fn random_word() -> usize {
    rand::random::<u64>() as usize
}

} // verus!
