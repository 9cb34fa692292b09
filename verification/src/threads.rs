//! Thread-budget distribution between the input and output codecs.
//!
//! A single requested total is split once per run. With a total of 1 no
//! extra per-codec threads are requested (each codec runs in its default
//! single-threaded mode, written here as a zero on both sides). With a
//! total of 2 or more the input side takes the floor of the half and the
//! output side the rest, so an odd total gives the output side the extra
//! thread: compression is typically the bottleneck.

use vstd::prelude::*;

verus! {

/// Per-codec thread counts for one run. A zero means the codec's
/// default single-threaded mode, not a request for zero threads.
#[derive(Clone, Copy, Debug, PartialEq, Eq, Structural)]
pub struct ThreadBudget {
    /// Extra threads for the input (decompression) codec.
    pub input: usize,
    /// Extra threads for the output (compression) codec.
    pub output: usize,
}

/// Split a requested total thread count between the two codecs.
pub fn thread_split(total: usize) -> (b: ThreadBudget)
    ensures
        total < 2 ==> b.input == 0 && b.output == 0,
        total >= 2 ==> b.input == total as int / 2 && b.output == total - total as int / 2,
        total >= 2 ==> b.input + b.output == total && b.input <= b.output <= b.input + 1,
{
    if total >= 2 {
        ThreadBudget { input: total / 2, output: total - total / 2 }
    } else {
        ThreadBudget { input: 0, output: 0 }
    }
}

} // verus!
