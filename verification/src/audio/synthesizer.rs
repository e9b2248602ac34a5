//! Waveforms and the per-voice oscillator state.
use super::engine::{SharedFrequency, SharedVolumeMultiplier};
use super::single::ZERO;
use vstd::prelude::*;

pub use crate::WAVETABLE_SIZE;

verus! {

/// Position of the raw sample that a table of `WAVETABLE_SIZE` entries holds
/// for `index`: the table repeats, so the index is taken modulo its size.
pub fn wrap_index(index: usize) -> (r: usize)
    ensures
        r == index % WAVETABLE_SIZE,
        r < WAVETABLE_SIZE,
{
    index % WAVETABLE_SIZE
}

/// Position of the sample that follows `index` in the table. The last entry
/// is followed by the first, which closes the period.
pub fn next_index(index: usize) -> (r: usize)
    requires
        index < WAVETABLE_SIZE,
    ensures
        r == (index + 1) % (WAVETABLE_SIZE as int),
        r < WAVETABLE_SIZE,
        index + 1 < WAVETABLE_SIZE ==> r == index + 1,
        index + 1 == WAVETABLE_SIZE ==> r == 0,
{
    (index + 1) % WAVETABLE_SIZE
}

/// The built-in single-cycle waveforms. A waveform names its wavetable: the
/// table is the waveform's generating function sampled at `WAVETABLE_SIZE`
/// equally spaced points of one period.
#[derive(Debug, Clone, Copy, PartialEq, Eq, Structural)]
pub enum WaveForm {
    Sine,
    Triangle,
    Square,
    Saw,
}

impl Default for WaveForm {
    fn default() -> (r: Self)
        ensures
            r == WaveForm::Sine,
    {
        WaveForm::Sine
    }
}

/// What a voice holds, as a mathematical value.
pub struct OscillatorState {
    /// The sample rate the voice was made for, in samples per second.
    pub sample_rate: usize,
    /// The cell the voice reads its frequency from.
    pub frequency: SharedFrequency,
    /// The cell the voice reads its volume multiplier from.
    pub volume_multiplier: SharedVolumeMultiplier,
    /// The waveform whose table the voice plays.
    pub wavetable: WaveForm,
    /// The phase accumulator, in cycles, as a single-precision encoding.
    pub time: u32,
}

/// One voice: a phase accumulator over a wavetable, tuned and scaled through
/// two cells that it shares with whoever created them.
pub struct WaveTableOscillator {
    sample_rate: usize,
    frequency: SharedFrequency,
    volume_multiplier: SharedVolumeMultiplier,
    wavetable: WaveForm,
    time: u32,
}

impl View for WaveTableOscillator {
    type V = OscillatorState;

    closed spec fn view(&self) -> OscillatorState {
        OscillatorState {
            sample_rate: self.sample_rate,
            frequency: self.frequency,
            volume_multiplier: self.volume_multiplier,
            wavetable: self.wavetable,
            time: self.time,
        }
    }
}

impl WaveTableOscillator {
    /// A voice at phase zero that plays `wavetable` and reads the two cells.
    pub fn new(
        sample_rate: usize,
        frequency: SharedFrequency,
        volume_multiplier: SharedVolumeMultiplier,
        wavetable: WaveForm,
    ) -> (r: Self)
        ensures
            r@ == (OscillatorState {
                sample_rate,
                frequency,
                volume_multiplier,
                wavetable,
                time: ZERO,
            }),
    {
        Self { sample_rate, frequency, volume_multiplier, wavetable, time: ZERO }
    }

    /// Replaces the voice's table. The phase is kept, so the voice goes on at
    /// the same point of the period in the new shape.
    pub fn set_wavetable(&mut self, wavetable: WaveForm)
        ensures
            final(self)@ == (OscillatorState { wavetable, ..old(self)@ }),
    {
        self.wavetable = wavetable;
    }

    /// Stores the phase that a sample step arrived at. Nothing else changes.
    pub fn set_time(&mut self, time: u32)
        ensures
            final(self)@ == (OscillatorState { time, ..old(self)@ }),
    {
        self.time = time;
    }

    /// The sample rate the voice was made for, in samples per second.
    pub fn sample_rate(&self) -> (r: usize)
        ensures
            r == self@.sample_rate,
    {
        self.sample_rate
    }

    /// The cell the voice reads its frequency from.
    pub fn frequency(&self) -> (r: &SharedFrequency)
        ensures
            *r == self@.frequency,
    {
        &self.frequency
    }

    /// The cell the voice reads its volume multiplier from.
    pub fn volume_multiplier(&self) -> (r: &SharedVolumeMultiplier)
        ensures
            *r == self@.volume_multiplier,
    {
        &self.volume_multiplier
    }

    /// The waveform whose table the voice plays.
    pub fn wavetable(&self) -> (r: WaveForm)
        ensures
            r == self@.wavetable,
    {
        self.wavetable
    }

    /// The phase accumulator, in cycles, as a single-precision encoding.
    pub fn time(&self) -> (r: u32)
        ensures
            r == self@.time,
    {
        self.time
    }
}

} // verus!
