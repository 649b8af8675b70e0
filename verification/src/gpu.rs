//! Bus-visible state of the video subsystem.
//!
//! The pixel-generation pipeline itself lies outside this core: it derives the
//! scanline timing from the ticks counted here and publishes its current line
//! through [`Gpu::set_line`]. The bus dispatcher serves reads of the scanline
//! register from this mirror, never from stored register cells.

use vstd::prelude::*;

verus! {

/// The video-subsystem state that the bus can observe.
pub struct GpuView {
    /// Scanline currently being generated, as published by the pixel pipeline
    pub line: u8,
    /// Ticks elapsed since power-on or the last reset
    pub ticks: u64,
}

/// Handle on the video subsystem owned by the bus dispatcher.
pub struct Gpu {
    line: u8,
    ticks: u64,
}

impl View for Gpu {
    type V = GpuView;

    closed spec fn view(&self) -> GpuView {
        GpuView { line: self.line, ticks: self.ticks }
    }
}

/// A tick counter advances by one and wraps at the top of its range.
pub open spec fn tick_next(t: u64) -> u64 {
    if t == u64::MAX {
        0
    } else {
        (t + 1) as u64
    }
}

impl Gpu {
    /// Power-on state: first scanline, no ticks elapsed.
    pub fn new() -> (r: Gpu)
        ensures
            r@ == (GpuView { line: 0, ticks: 0 }),
    {
        Gpu { line: 0, ticks: 0 }
    }

    /// Return to the power-on state.
    pub fn reset(&mut self)
        ensures
            final(self)@ == (GpuView { line: 0, ticks: 0 }),
    {
        self.line = 0;
        self.ticks = 0;
    }

    /// One hardware tick has elapsed. The published scanline only changes
    /// when the pixel pipeline calls [`Gpu::set_line`].
    pub fn step(&mut self)
        ensures
            final(self)@ == (GpuView { ticks: tick_next(old(self)@.ticks), ..old(self)@ }),
    {
        if self.ticks == u64::MAX {
            self.ticks = 0;
        } else {
            self.ticks = self.ticks + 1;
        }
    }

    /// The scanline currently being generated.
    pub fn get_line(&self) -> (r: u8)
        ensures
            r == self@.line,
    {
        self.line
    }

    /// Called by the pixel pipeline when its scanline advances.
    pub fn set_line(&mut self, line: u8)
        ensures
            final(self)@ == (GpuView { line, ..old(self)@ }),
    {
        self.line = line;
    }
}

} // verus!
