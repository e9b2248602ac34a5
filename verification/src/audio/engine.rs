//! The voice registry and the parameters shared with the control thread.
use super::model::{EngineState, DEFAULT_VOLUME};
use super::single::{clamp, clamped, is_less, is_nan, less, rank, NEG_INFINITY, ONE, ZERO};
use super::synthesizer::{OscillatorState, WaveForm, WaveTableOscillator};
use std::sync::atomic::{AtomicU32, Ordering};
use std::sync::Arc;
use vstd::prelude::*;
use vstd::rwlock::{RwLock, RwLockPredicate};

verus! {

/// A gain in the base-2 logarithmic domain, never above zero: zero is unity,
/// a negative value attenuates. Held as a single-precision encoding.
#[derive(Debug, Clone, Copy)]
pub struct Volume(u32);

impl View for Volume {
    type V = u32;

    closed spec fn view(&self) -> u32 {
        self.0
    }
}

impl Volume {
    #[verifier::type_invariant]
    spec fn not_positive(self) -> bool {
        !less(ZERO, self.0)
    }

    /// The gain `volume`, or unity where `volume` is above zero.
    pub fn new(volume: u32) -> (r: Self)
        ensures
            r@ == clamped(volume, NEG_INFINITY, ZERO),
            less(ZERO, volume) ==> r@ == ZERO,
            !less(ZERO, volume) ==> r@ == volume,
    {
        if is_less(ZERO, volume) {
            Volume(ZERO)
        } else {
            Volume(volume)
        }
    }

    /// The logarithmic gain. It is never above zero.
    pub fn get(&self) -> (r: u32)
        ensures
            r == self@,
            !less(ZERO, r),
    {
        proof {
            use_type_invariant(self);
        }
        self.0
    }
}

/// A gain is never above zero: a volume above zero becomes unity, any other
/// volume is its own gain.
pub proof fn lemma_gain_is_not_above_zero(volume: u32)
    ensures
        !less(ZERO, clamped(volume, NEG_INFINITY, ZERO)),
        less(ZERO, volume) ==> clamped(volume, NEG_INFINITY, ZERO) == ZERO,
        !less(ZERO, volume) ==> clamped(volume, NEG_INFINITY, ZERO) == volume,
{
}

/// The volume multiplier that a write of `volume_multiplier` leaves in a
/// cell: the value limited to the interval from zero to one.
pub open spec fn unit_clamped(volume_multiplier: u32) -> u32 {
    clamped(volume_multiplier, ZERO, ONE)
}

/// What a write leaves in a cell lies between zero and one, unless a NaN was
/// written: below zero becomes zero, above one becomes one, anything else is
/// kept, and writing what a cell holds again changes nothing.
pub proof fn lemma_unit_clamped(volume_multiplier: u32)
    ensures
        less(volume_multiplier, ZERO) ==> unit_clamped(volume_multiplier) == ZERO,
        less(ONE, volume_multiplier) ==> unit_clamped(volume_multiplier) == ONE,
        !less(volume_multiplier, ZERO) && !less(ONE, volume_multiplier) ==> unit_clamped(
            volume_multiplier,
        ) == volume_multiplier,
        !is_nan(volume_multiplier) ==> 0 <= rank(unit_clamped(volume_multiplier)) <= rank(ONE),
        unit_clamped(unit_clamped(volume_multiplier)) == unit_clamped(volume_multiplier),
{
}

/// A frequency in Hz that the control thread writes and a voice reads, without
/// either taking a lock that anything else holds. Cloning gives another handle
/// to the same cell; the storage lives as long as any handle.
pub struct SharedFrequency(Arc<AtomicU32>);

impl Clone for SharedFrequency {
    fn clone(&self) -> (r: Self)
        ensures
            r == *self,
    {
        SharedFrequency(self.0.clone())
    }
}

impl SharedFrequency {
    /// A new cell that holds `frequency`.
    pub fn new(frequency: u32) -> Self {
        SharedFrequency(Arc::new(AtomicU32::new(frequency)))
    }

    /// The value that was written last, by any handle.
    pub fn get(&self) -> u32 {
        self.0.load(Ordering::Relaxed)
    }

    /// Writes `frequency` as it is.
    pub fn set(&self, frequency: u32) {
        self.0.store(frequency, Ordering::Relaxed)
    }
}

/// What a volume-multiplier cell may hold at any time: the value it was made
/// with, or what a write left, which is never below zero nor above one.
pub struct UnitInterval {
    pub initial: u32,
}

impl RwLockPredicate<u32> for UnitInterval {
    open spec fn inv(self, v: u32) -> bool {
        v == self.initial || unit_clamped(v) == v
    }
}

/// A linear volume multiplier that the control thread writes and a voice
/// reads. Every write limits the value to the interval from zero to one.
/// Cloning gives another handle to the same cell. The cell has a lock of its
/// own, which is held for the one read or the one write only.
pub struct SharedVolumeMultiplier(Arc<RwLock<u32, UnitInterval>>);

impl Clone for SharedVolumeMultiplier {
    fn clone(&self) -> (r: Self)
        ensures
            r == *self,
    {
        SharedVolumeMultiplier(self.0.clone())
    }
}

impl SharedVolumeMultiplier {
    /// The value that the cell was made with. It is the only value beyond
    /// the unit interval that a read can bring.
    pub closed spec fn initial(&self) -> u32 {
        self.0.pred().initial
    }

    /// A new cell that holds `volume_multiplier` as it is.
    pub fn new(volume_multiplier: u32) -> (r: Self)
        ensures
            r.initial() == volume_multiplier,
    {
        SharedVolumeMultiplier(
            Arc::new(
                RwLock::new(volume_multiplier, Ghost(UnitInterval { initial: volume_multiplier })),
            ),
        )
    }

    /// The value that was written last, by any handle, or the value that the
    /// cell was made with where none was written. Whatever was written, by
    /// whichever handle, was limited to the unit interval first: what is read
    /// is not below zero and not above one, unless it is the value that the
    /// cell was made with.
    pub fn get(&self) -> (r: u32)
        ensures
            r == self.initial() || unit_clamped(r) == r,
            r == self.initial() || (!less(r, ZERO) && !less(ONE, r)),
    {
        let handle = self.0.acquire_read();
        let r = *handle.borrow();
        handle.release_read();
        r
    }

    /// Writes `volume_multiplier`, limited to the interval from zero to one.
    pub fn set(&self, volume_multiplier: u32) {
        let (_, handle) = self.0.acquire_write();
        handle.release_write(Self::limit(volume_multiplier));
    }

    /// The value that `set` stores for `volume_multiplier`.
    pub fn limit(volume_multiplier: u32) -> (r: u32)
        ensures
            r == unit_clamped(volume_multiplier),
            less(volume_multiplier, ZERO) ==> r == ZERO,
            less(ONE, volume_multiplier) ==> r == ONE,
            !less(volume_multiplier, ZERO) && !less(ONE, volume_multiplier) ==> r
                == volume_multiplier,
    {
        clamp(volume_multiplier, ZERO, ONE)
    }
}

/// The mixer's state: the registry of voices, the waveform that new voices
/// start with, the global gain and the play state.
pub struct AudioEngine {
    sample_rate: usize,
    wavetable: WaveForm,
    oscillators: Vec<(usize, WaveTableOscillator)>,
    volume: Volume,
    latestid: usize,
    is_playing: bool,
}

impl View for AudioEngine {
    type V = EngineState;

    closed spec fn view(&self) -> EngineState {
        EngineState {
            sample_rate: self.sample_rate,
            wavetable: self.wavetable,
            voices: Seq::new(
                self.oscillators@.len(),
                |i: int| (self.oscillators@[i].0 as nat, self.oscillators@[i].1@),
            ),
            volume: self.volume@,
            next_id: self.latestid as nat,
            playing: self.is_playing,
        }
    }
}

impl AudioEngine {
    #[verifier::type_invariant]
    spec fn well_formed(self) -> bool {
        &&& forall|i: int, j: int|
            0 <= i < j < self.oscillators@.len() ==> self.oscillators@[i].0
                < self.oscillators@[j].0
        &&& forall|i: int|
            0 <= i < self.oscillators@.len() ==> self.oscillators@[i].0 < self.latestid
    }

    proof fn lemma_view_wf(self)
        requires
            self.well_formed(),
        ensures
            self@.wf(),
            self@.voices.len() == self.oscillators@.len(),
            forall|i: int|
                0 <= i < self.oscillators@.len() ==> self@.voices[i] == (
                    self.oscillators@[i].0 as nat,
                    self.oscillators@[i].1@,
                ),
    {
    }

    /// A stopped engine without voices.
    pub fn new(sample_rate: usize) -> (r: Self)
        ensures
            r@ == EngineState::initial(sample_rate),
    {
        let r = Self {
            sample_rate,
            wavetable: WaveForm::Sine,
            oscillators: Vec::new(),
            volume: Volume::new(DEFAULT_VOLUME),
            latestid: 0,
            is_playing: false,
        };
        assert(r@.voices =~= Seq::empty());
        r
    }

    /// Reset the gain and the template waveform to their default values.
    /// Registered voices keep their own waveform.
    pub fn reset(&mut self)
        ensures
            final(self)@ == old(self)@.reset(),
    {
        proof {
            use_type_invariant(&*self);
        }
        self.volume = Volume::new(DEFAULT_VOLUME);
        self.wavetable = WaveForm::Sine;
    }

    /// Make the audio engine play.
    pub fn play(&mut self)
        ensures
            final(self)@ == old(self)@.play(),
    {
        proof {
            use_type_invariant(&*self);
        }
        self.is_playing = true;
    }

    /// Make the audio engine stop playing.
    pub fn stop(&mut self)
        ensures
            final(self)@ == old(self)@.stop(),
    {
        proof {
            use_type_invariant(&*self);
        }
        self.is_playing = false;
    }

    /// Whether the engine plays. A stopped engine puts out silence.
    pub fn is_playing(&self) -> (r: bool)
        ensures
            r == self@.playing,
    {
        self.is_playing
    }

    /// The sample that is due from a stopped engine, which is silence. The
    /// sample of a playing engine is the mix of its voices and takes
    /// arithmetic: for it there is none here.
    pub fn silence(&self) -> (r: Option<u32>)
        ensures
            r == (if self@.playing {
                None
            } else {
                Some(ZERO)
            }),
    {
        if self.is_playing {
            None
        } else {
            Some(ZERO)
        }
    }

    /// Get the current gain.
    pub fn get_volume(&self) -> (r: Volume)
        ensures
            r@ == self@.volume,
    {
        self.volume
    }

    /// Set the gain.
    pub fn set_volume(&mut self, new_volume: Volume)
        ensures
            final(self)@ == old(self)@.set_volume(new_volume@),
    {
        proof {
            use_type_invariant(&*self);
        }
        self.volume = new_volume;
    }

    /// The id that the next voice gets.
    pub fn next_id(&self) -> (r: usize)
        ensures
            r == self@.next_id,
    {
        self.latestid
    }

    /// Adds a voice to the engine, and returns its id.
    pub fn add_oscillator(
        &mut self,
        frequency: SharedFrequency,
        volume_multiplier: SharedVolumeMultiplier,
    ) -> (id: usize)
        requires
            old(self)@.next_id < usize::MAX,
        ensures
            id == old(self)@.next_id,
            final(self)@ == old(self)@.add(frequency, volume_multiplier),
    {
        proof {
            use_type_invariant(&*self);
            self.lemma_view_wf();
        }
        let id = self.latestid;
        let oscillator = WaveTableOscillator::new(
            self.sample_rate,
            frequency,
            volume_multiplier,
            self.wavetable,
        );
        let mut voices: Vec<(usize, WaveTableOscillator)> = Vec::new();
        std::mem::swap(&mut self.oscillators, &mut voices);
        voices.push((id, oscillator));
        self.latestid = id + 1;
        std::mem::swap(&mut self.oscillators, &mut voices);
        assert(self@.voices =~= old(self)@.add(frequency, volume_multiplier).voices);
        id
    }

    /// Get a reference to all registered voices, each with its id, in
    /// ascending order of id.
    pub fn get_oscillators(&self) -> (r: &Vec<(usize, WaveTableOscillator)>)
        ensures
            r@.len() == self@.voices.len(),
            forall|i: int|
                0 <= i < r@.len() ==> r@[i].0 == self@.voices[i].0 && r@[i].1@
                    == self@.voices[i].1,
            self@.wf(),
    {
        proof {
            use_type_invariant(self);
            self.lemma_view_wf();
        }
        &self.oscillators
    }

    /// Remove a voice from the engine by its id if it exists.
    pub fn remove_oscillator(&mut self, id: &usize)
        ensures
            final(self)@ == old(self)@.remove(*id as nat),
            !old(self)@.contains(*id as nat) ==> final(self)@ == old(self)@,
    {
        proof {
            use_type_invariant(&*self);
            self.lemma_view_wf();
        }
        let mut i: usize = 0;
        while i < self.oscillators.len()
            invariant
                *self == *old(self),
                i <= self.oscillators@.len(),
                forall|j: int| 0 <= j < i ==> self.oscillators@[j].0 != *id,
            decreases self.oscillators@.len() - i,
        {
            if self.oscillators[i].0 == *id {
                proof {
                    use_type_invariant(&*self);
                    self.lemma_view_wf();
                    let state = old(self)@;
                    assert(state.voices[i as int].0 == *id as nat);
                    assert(state.contains(*id as nat));
                    let p = state.position(*id as nat);
                    assert(p == i) by {
                        if p < i {
                            assert(state.voices[p].0 < state.voices[i as int].0);
                        } else if p > i {
                            assert(state.voices[i as int].0 < state.voices[p].0);
                        }
                    }
                }
                let mut voices: Vec<(usize, WaveTableOscillator)> = Vec::new();
                std::mem::swap(&mut self.oscillators, &mut voices);
                voices.remove(i);
                std::mem::swap(&mut self.oscillators, &mut voices);
                assert(self@.voices =~= old(self)@.remove(*id as nat).voices);
                return ;
            }
            i += 1;
        }
        proof {
            let state = old(self)@;
            if state.contains(*id as nat) {
                let p = state.position(*id as nat);
                assert(self.oscillators@[p].0 != *id);
            }
        }
    }

    /// Remove all voices from the engine.
    pub fn clear_oscillators(&mut self)
        ensures
            final(self)@ == old(self)@.clear(),
    {
        self.oscillators = Vec::new();
        assert(self@.voices =~= Seq::empty());
    }

    /// Set the waveform of the template and of every registered voice.
    pub fn set_waveform(&mut self, waveform: WaveForm)
        ensures
            final(self)@ == old(self)@.set_waveform(waveform),
    {
        proof {
            use_type_invariant(&*self);
            self.lemma_view_wf();
        }
        let mut voices: Vec<(usize, WaveTableOscillator)> = Vec::new();
        std::mem::swap(&mut self.oscillators, &mut voices);
        let mut i: usize = 0;
        while i < voices.len()
            invariant
                i <= voices@.len(),
                voices@.len() == old(self).oscillators@.len(),
                forall|j: int|
                    0 <= j < voices@.len() ==> voices@[j].0 == old(self).oscillators@[j].0,
                forall|j: int|
                    0 <= j < i ==> voices@[j].1@ == (OscillatorState {
                        wavetable: waveform,
                        ..old(self).oscillators@[j].1@
                    }),
                forall|j: int|
                    i <= j < voices@.len() ==> voices@[j].1@ == old(self).oscillators@[j].1@,
            decreases voices@.len() - i,
        {
            voices[i].1.set_wavetable(waveform);
            i += 1;
        }
        self.wavetable = waveform;
        std::mem::swap(&mut self.oscillators, &mut voices);
        assert(self@.voices =~= old(self)@.set_waveform(waveform).voices);
    }

    /// Stores the phase that a sample step arrived at for the voice at
    /// `index` of the registry. A stopped engine keeps every phase, and an
    /// index beyond the registry changes nothing.
    pub fn advance(&mut self, index: usize, time: u32)
        ensures
            final(self)@ == old(self)@.advance(index as int, time),
    {
        proof {
            use_type_invariant(&*self);
            self.lemma_view_wf();
        }
        if self.is_playing && index < self.oscillators.len() {
            let mut voices: Vec<(usize, WaveTableOscillator)> = Vec::new();
            std::mem::swap(&mut self.oscillators, &mut voices);
            voices[index].1.set_time(time);
            std::mem::swap(&mut self.oscillators, &mut voices);
            assert(self@.voices =~= old(self)@.advance(index as int, time).voices);
        }
    }
}

} // verus!
