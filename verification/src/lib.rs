pub mod console;
pub mod laws;
pub mod manual;
pub mod network;
pub mod rng;
pub mod state;
pub mod text;

use vstd::prelude::*;

verus! {

/// The caret blinks with a half-second period: it is visible during the
/// even-numbered half-second intervals of elapsed time (in milliseconds).
pub fn caret_visible(time_ms: u64) -> (r: bool)
    ensures
        r == (((time_ms / 500) % 2) == 0),
{
    (time_ms / 500) % 2 == 0
}

} // verus!
