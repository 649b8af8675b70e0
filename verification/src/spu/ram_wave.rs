//! Wave-table audio channel: generates a sound from 32 samples stored in a
//! programmable table, advancing through them at a configurable frequency
//! and attenuating the output on demand.

use vstd::prelude::*;

use crate::spu::{Mode, Sample};

verus! {

/// Fault raised by a configuration call whose value lies outside the
/// hardware-valid range. The simulation driver is expected to halt on it.
#[derive(Clone, Copy, Debug, PartialEq, Eq, Structural)]
pub enum WaveError {
    /// The frequency divider only has 11 bits
    DividerOutOfRange,
}

/// The wave data can be divided before being sent out.
#[derive(Clone, Copy, Debug, PartialEq, Eq, Structural)]
pub enum OutputLevel {
    /// Channel is muted
    Mute,
    /// Output wave data without division
    Full,
    /// Output wave data halved
    Halved,
    /// Output wave data divided by four
    Quartered,
}

/// Mathematical state of the wave channel.
pub struct WaveView {
    /// True if the channel is generating samples
    pub running: bool,
    /// True if the channel's output gate is open
    pub enabled: bool,
    /// Tick budget left in counter mode
    pub remaining: u32,
    /// Attenuation applied to the raw table samples
    pub output_level: OutputLevel,
    /// Frequency divider value, 11 bits
    pub divider: u16,
    /// Period countdown until the next sample-index advance
    pub counter: u16,
    /// Play mode (continuous or counter)
    pub mode: Mode,
    /// The 32-entry programmable sample table
    pub samples: Seq<Sample>,
    /// Currently played sample slot
    pub index: u8,
}

/// The divider fits in 11 bits, the index stays inside the table, the table
/// holds its 32 entries.
pub open spec fn wave_wf(w: WaveView) -> bool {
    &&& w.divider < 0x800
    &&& w.index < 32
    &&& w.samples.len() == 32
}

/// One hardware tick of the channel. A stopped channel does nothing. In
/// counter mode an exhausted budget stops the channel at once, before the
/// period counter is touched; otherwise the budget is consumed by one. A
/// period counter at zero reloads to `2 * (0x800 - divider)` - the exact
/// doubling-and-inversion the hardware performs - and advances the sample
/// index by one, wrapping after the last slot; the tick then consumes one
/// count of the period.
pub open spec fn step_spec(w: WaveView) -> WaveView {
    if !w.running {
        w
    } else if w.mode == Mode::Counter && w.remaining == 0 {
        WaveView { running: false, ..w }
    } else {
        let w1 = if w.mode == Mode::Counter {
            WaveView { remaining: (w.remaining - 1) as u32, ..w }
        } else {
            w
        };
        let w2 = if w1.counter == 0 {
            WaveView {
                counter: (2 * (0x800 - w1.divider)) as u16,
                index: (((w1.index + 1) % 32) as u8),
                ..w1
            }
        } else {
            w1
        };
        WaveView { counter: (w2.counter - 1) as u16, ..w2 }
    }
}

/// The channel's state after `n` ticks.
pub open spec fn steps(w: WaveView, n: nat) -> WaveView
    decreases n,
{
    if n == 0 {
        w
    } else {
        step_spec(steps(w, (n - 1) as nat))
    }
}

/// Attenuation: mute, unchanged, halved or quartered, truncating.
pub open spec fn process_spec(level: OutputLevel, s: Sample) -> Sample {
    match level {
        OutputLevel::Mute => 0,
        OutputLevel::Full => s,
        OutputLevel::Halved => (s / 2) as u8,
        OutputLevel::Quartered => (s / 4) as u8,
    }
}

/// What the channel emits: silence unless both running and enabled, else
/// the attenuated sample of the current table slot.
pub open spec fn sample_spec(w: WaveView) -> Sample {
    if !w.running || !w.enabled {
        0
    } else {
        process_spec(w.output_level, w.samples[w.index as int])
    }
}

/// The output level a 2-bit register field selects.
pub open spec fn level_of_field(field: u8) -> OutputLevel {
    if field == 0 {
        OutputLevel::Mute
    } else if field == 1 {
        OutputLevel::Full
    } else if field == 2 {
        OutputLevel::Halved
    } else {
        OutputLevel::Quartered
    }
}

/// Audio channel generating a sound from samples stored in RAM.
pub struct RamWave {
    /// True if the channel is generating samples
    running: bool,
    /// True if the channel is enabled
    enabled: bool,
    /// Counter for counter mode
    remaining: u32,
    /// RAM wave data processing
    output_level: OutputLevel,
    /// Frequency divider value
    divider: u16,
    /// Period counter, used to select the desired output frequency
    counter: u16,
    /// Play mode (continuous or counter)
    mode: Mode,
    /// Custom sample RAM, 32 samples
    samples: Vec<Sample>,
    /// Currently played sample
    index: u8,
}

impl View for RamWave {
    type V = WaveView;

    closed spec fn view(&self) -> WaveView {
        WaveView {
            running: self.running,
            enabled: self.enabled,
            remaining: self.remaining,
            output_level: self.output_level,
            divider: self.divider,
            counter: self.counter,
            mode: self.mode,
            samples: self.samples@,
            index: self.index,
        }
    }
}

impl RamWave {
    /// The channel's state stays within the hardware ranges.
    pub open spec fn wf(&self) -> bool {
        wave_wf(self@)
    }

    /// Power-on state: stopped, gated off, muted, zeroed table.
    pub fn new() -> (r: RamWave)
        ensures
            r.wf(),
            r@.running == false,
            r@.enabled == false,
            r@.remaining == 0,
            r@.output_level == OutputLevel::Mute,
            r@.divider == 0,
            r@.counter == 0,
            r@.mode == Mode::Continuous,
            forall|i: int| 0 <= i < 32 ==> r@.samples[i] == 0u8,
            r@.index == 0,
    {
        let mut samples: Vec<Sample> = Vec::new();
        let mut i: usize = 0;
        while i < 32
            invariant
                i <= 32,
                samples@.len() == i,
                forall|j: int| 0 <= j < i ==> samples@[j] == 0u8,
            decreases 32 - i,
        {
            samples.push(0);
            i = i + 1;
        }
        RamWave {
            running: false,
            enabled: false,
            remaining: 0,
            output_level: OutputLevel::from_field(0),
            divider: 0,
            counter: 0,
            mode: Mode::Continuous,
            samples,
            index: 0,
        }
    }

    /// One tick of the channel's clock.
    pub fn step(&mut self)
        requires
            old(self).wf(),
        ensures
            final(self).wf(),
            final(self)@ == step_spec(old(self)@),
    {
        if !self.running {
            return;
        }

        if self.mode == Mode::Counter {
            if self.remaining == 0 {
                self.running = false;
                return;
            }

            self.remaining = self.remaining - 1;
        }

        if self.counter == 0 {
            // Reset the period counter. This weird equation is simply how
            // the hardware does it, no tricks here.
            self.counter = 2 * (0x800 - self.divider);

            // Move on to the next sample
            self.index = (self.index + 1) % 32;
        }

        self.counter = self.counter - 1;
    }

    /// The amplitude the channel currently emits: silence unless running
    /// and enabled, else the current table sample after attenuation.
    pub fn sample(&self) -> (r: Sample)
        requires
            self.wf(),
        ensures
            r == sample_spec(self@),
            !self@.running || !self@.enabled ==> r == 0,
    {
        if !self.running || !self.enabled {
            return 0;
        }

        let sample = self.ram_sample(self.index);
        self.output_level.process(sample)
    }

    /// Raw table sample stored in slot `index`.
    pub fn ram_sample(&self, index: u8) -> (s: Sample)
        requires
            self.wf(),
            index < 32,
        ensures
            s == self@.samples[index as int],
    {
        self.samples[index as usize]
    }

    /// Store `s` in table slot `index`.
    pub fn set_ram_sample(&mut self, index: u8, s: Sample)
        requires
            old(self).wf(),
            index < 32,
        ensures
            final(self).wf(),
            final(self)@ == (WaveView {
                samples: old(self)@.samples.update(index as int, s),
                ..old(self)@
            }),
    {
        self.samples[index as usize] = s;
    }

    /// Start generating samples. The output gate is left untouched: a
    /// channel started while disabled runs silently until enabled.
    pub fn start(&mut self)
        ensures
            final(self)@ == (WaveView { running: true, ..old(self)@ }),
    {
        self.running = true;
    }

    /// Current frequency divider value.
    pub fn divider(&self) -> (r: u16)
        ensures
            r == self@.divider,
    {
        self.divider
    }

    /// Configure the frequency divider; a value that does not fit the
    /// divider's 11 bits is a fault and changes nothing.
    pub fn set_divider(&mut self, divider: u16) -> (r: Result<(), WaveError>)
        ensures
            divider < 0x800 ==> r == Ok::<(), WaveError>(())
                && final(self)@ == (WaveView { divider, ..old(self)@ }),
            divider >= 0x800 ==> r == Err::<(), WaveError>(WaveError::DividerOutOfRange)
                && *final(self) == *old(self),
    {
        if divider >= 0x800 {
            return Err(WaveError::DividerOutOfRange);
        }

        self.divider = divider;
        Ok(())
    }

    /// Select the play mode.
    pub fn set_mode(&mut self, mode: Mode)
        ensures
            final(self)@ == (WaveView { mode, ..old(self)@ }),
    {
        self.mode = mode;
    }

    /// Load the length counter: a register value of `len` buys
    /// `(0x100 - len) * 0x4000` ticks, the exact granularity of the
    /// hardware length counter.
    pub fn set_length(&mut self, len: u8)
        ensures
            final(self)@ == (WaveView {
                remaining: ((0x100 - len) * 0x4000) as u32,
                ..old(self)@
            }),
    {
        let len: u32 = len as u32;

        self.remaining = (0x100 - len) * 0x4000;
    }

    /// Open or close the output gate, independent of `running`.
    pub fn set_enabled(&mut self, enabled: bool)
        ensures
            final(self)@ == (WaveView { enabled, ..old(self)@ }),
    {
        self.enabled = enabled;
    }

    /// Select the attenuation applied to the raw table samples.
    pub fn set_output_level(&mut self, level: OutputLevel)
        ensures
            final(self)@ == (WaveView { output_level: level, ..old(self)@ }),
    {
        self.output_level = level;
    }

    /// True if the channel is generating samples.
    pub fn running(&self) -> (r: bool)
        ensures
            r == self@.running,
    {
        self.running
    }

    /// Tick budget left in counter mode.
    pub fn remaining(&self) -> (r: u32)
        ensures
            r == self@.remaining,
    {
        self.remaining
    }

    /// Current period countdown value.
    pub fn counter(&self) -> (r: u16)
        ensures
            r == self@.counter,
    {
        self.counter
    }

    /// Slot of the sample currently played.
    pub fn index(&self) -> (r: u8)
        ensures
            r == self@.index,
    {
        self.index
    }
}

impl OutputLevel {
    /// Output level selected by a 2-bit register field.
    pub fn from_field(field: u8) -> (r: OutputLevel)
        requires
            field < 4,
        ensures
            r == level_of_field(field),
    {
        if field == 0 {
            OutputLevel::Mute
        } else if field == 1 {
            OutputLevel::Full
        } else if field == 2 {
            OutputLevel::Halved
        } else {
            OutputLevel::Quartered
        }
    }

    /// Apply the attenuation to a raw sample, truncating.
    fn process(self, sample: Sample) -> (r: Sample)
        ensures
            r == process_spec(self, sample),
    {
        match self {
            OutputLevel::Mute => 0,
            OutputLevel::Full => sample,
            OutputLevel::Halved => sample / 2,
            OutputLevel::Quartered => sample / 4,
        }
    }
}

/// On a running tick that reloads the period counter the sample index
/// advances by exactly one, wrapping from the last slot back to the first;
/// on a running tick without a reload it does not move.
pub proof fn lemma_index_advances_per_reload(w: WaveView)
    requires
        wave_wf(w),
        w.running,
        !(w.mode == Mode::Counter && w.remaining == 0),
    ensures
        w.counter == 0 ==> step_spec(w).index == (w.index + 1) % 32,
        w.counter == 0 && w.index == 31 ==> step_spec(w).index == 0,
        w.counter != 0 ==> step_spec(w).index == w.index,
{
}

/// Storing a sample in a table slot and reading that slot back yields the
/// stored value, and every other slot is untouched.
pub proof fn lemma_sample_table_round_trip(w: WaveView, i: u8, s: Sample)
    requires
        wave_wf(w),
        i < 32,
    ensures
        ({
            let w2 = WaveView { samples: w.samples.update(i as int, s), ..w };
            wave_wf(w2) && w2.samples[i as int] == s && forall|j: int|
                0 <= j < 32 && j != i ==> w2.samples[j] == w.samples[j]
        }),
{
}

/// In counter mode a tick budget is consumed one tick at a time: as long as
/// the ticks taken do not exceed the budget the channel keeps running, and
/// only the budget, the period counter and the sample index move.
pub proof fn lemma_counter_budget(w: WaveView, n: nat)
    requires
        wave_wf(w),
        w.mode == Mode::Counter,
        w.running,
        n <= w.remaining,
    ensures
        wave_wf(steps(w, n)),
        steps(w, n).running,
        steps(w, n).mode == Mode::Counter,
        steps(w, n).remaining == w.remaining - n,
        steps(w, n).enabled == w.enabled,
        steps(w, n).output_level == w.output_level,
        steps(w, n).divider == w.divider,
        steps(w, n).samples == w.samples,
    decreases n,
{
    if n > 0 {
        lemma_counter_budget(w, (n - 1) as nat);
    }
}

/// Exhausting a counter-mode budget of `remaining` ticks does not stop the
/// channel; the tick after it stops the channel at once and touches nothing
/// else - in particular the period counter is not consumed on that tick.
pub proof fn lemma_counter_expiry(w: WaveView)
    requires
        wave_wf(w),
        w.mode == Mode::Counter,
        w.running,
        w.remaining > 0,
    ensures
        steps(w, w.remaining as nat).running,
        steps(w, w.remaining as nat).remaining == 0,
        step_spec(steps(w, w.remaining as nat)) == (WaveView {
            running: false,
            ..steps(w, w.remaining as nat)
        }),
{
    lemma_counter_budget(w, w.remaining as nat);
}

} // verus!
