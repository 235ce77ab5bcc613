//! A grid-controlled monophonic step sequencer: a small tactile button
//! array drives a viewport over a larger logical sequence grid, edits
//! travel over a single-consumer message queue, and a hard-real-time
//! render plane turns the shared clock's position into sample-accurate
//! trigger pulses and a one-volt-per-octave pitch signal.

pub mod clock;
pub mod control;
pub mod grid;
pub mod message;
pub mod notebuf;
pub mod render;
pub mod scale;
pub mod tracker;

use vstd::prelude::*;

verus! {

/// Maximum number of steps in the sequencer, in sixteenths.
pub const MAX_STEPS: usize = 128;

/// Initial number of steps in the sequencer, in sixteenths.
pub const INITIAL_STEPS: usize = 32;

/// Restrict `input` to the closed interval `[min, max]`.
pub fn clamp(input: isize, min: isize, max: isize) -> (r: isize)
    requires
        min <= max,
    ensures
        r == if input < min {
            min
        } else if input > max {
            max
        } else {
            input
        },
        min <= r <= max,
{
    if input < min {
        min
    } else if input > max {
        max
    } else {
        input
    }
}

} // verus!
