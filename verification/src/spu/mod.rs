//! Audio subsystem types shared by its channels.

use vstd::prelude::*;

pub mod ram_wave;

verus! {

/// Amplitude of one audio sample.
pub type Sample = u8;

/// Play mode of a channel's length counter.
#[derive(Clone, Copy, Debug, PartialEq, Eq, Structural)]
pub enum Mode {
    /// Play until stopped
    Continuous,
    /// Play while a tick budget lasts, then stop
    Counter,
}

} // verus!
