//! The engine as a mathematical value, and what holds of every run of it.
use super::engine::{SharedFrequency, SharedVolumeMultiplier};
use super::single::ZERO;
use super::synthesizer::{OscillatorState, WaveForm};
use vstd::prelude::*;

verus! {

/// The encoding of `-4.0`, the gain of a new engine.
pub const DEFAULT_VOLUME: u32 = 0xc080_0000;

/// What an engine holds: the registry in ascending order of voice id, the
/// waveform that new voices start with, the global gain, the id that the next
/// voice gets, and whether the engine plays.
#[verifier::ext_equal]
pub struct EngineState {
    pub sample_rate: usize,
    pub wavetable: WaveForm,
    pub voices: Seq<(nat, OscillatorState)>,
    pub volume: u32,
    pub next_id: nat,
    pub playing: bool,
}

impl EngineState {
    /// The registry is in strictly ascending order of id, and every id in it
    /// was handed out before: it lies below the next one.
    pub open spec fn wf(self) -> bool {
        &&& forall|i: int, j: int|
            0 <= i < j < self.voices.len() ==> self.voices[i].0 < self.voices[j].0
        &&& forall|i: int| 0 <= i < self.voices.len() ==> self.voices[i].0 < self.next_id
    }

    /// Whether a voice with this id is registered.
    pub open spec fn contains(self, id: nat) -> bool {
        exists|i: int| 0 <= i < self.voices.len() && self.voices[i].0 == id
    }

    /// The place of the voice with this id in the registry.
    pub open spec fn position(self, id: nat) -> int {
        choose|i: int| 0 <= i < self.voices.len() && self.voices[i].0 == id
    }

    /// The voice with this id.
    pub open spec fn voice(self, id: nat) -> OscillatorState {
        self.voices[self.position(id)].1
    }

    /// A stopped engine without voices, at the default gain, with the sine
    /// waveform.
    pub open spec fn initial(sample_rate: usize) -> Self {
        EngineState {
            sample_rate,
            wavetable: WaveForm::Sine,
            voices: Seq::empty(),
            volume: DEFAULT_VOLUME,
            next_id: 0,
            playing: false,
        }
    }

    /// Gain and template waveform back at their defaults. Voices, ids and the
    /// play state stay.
    pub open spec fn reset(self) -> Self {
        EngineState { wavetable: WaveForm::Sine, volume: DEFAULT_VOLUME, ..self }
    }

    pub open spec fn play(self) -> Self {
        EngineState { playing: true, ..self }
    }

    pub open spec fn stop(self) -> Self {
        EngineState { playing: false, ..self }
    }

    pub open spec fn set_volume(self, volume: u32) -> Self {
        EngineState { volume, ..self }
    }

    /// A new voice under the next id, at phase zero, with the template
    /// waveform, placed after all others.
    pub open spec fn add(
        self,
        frequency: SharedFrequency,
        volume_multiplier: SharedVolumeMultiplier,
    ) -> Self {
        EngineState {
            voices: self.voices.push(
                (
                    self.next_id,
                    OscillatorState {
                        sample_rate: self.sample_rate,
                        frequency,
                        volume_multiplier,
                        wavetable: self.wavetable,
                        time: ZERO,
                    },
                ),
            ),
            next_id: self.next_id + 1,
            ..self
        }
    }

    /// Without the voice of this id; as before where there is none.
    pub open spec fn remove(self, id: nat) -> Self {
        if self.contains(id) {
            EngineState { voices: self.voices.remove(self.position(id)), ..self }
        } else {
            self
        }
    }

    pub open spec fn clear(self) -> Self {
        EngineState { voices: Seq::empty(), ..self }
    }

    /// The template and every registered voice switched to `waveform`; ids,
    /// cells and phases as before.
    pub open spec fn set_waveform(self, waveform: WaveForm) -> Self {
        EngineState {
            wavetable: waveform,
            voices: Seq::new(
                self.voices.len(),
                |i: int|
                    (
                        self.voices[i].0,
                        OscillatorState { wavetable: waveform, ..self.voices[i].1 },
                    ),
            ),
            ..self
        }
    }

    /// The voice at `index` moved to phase `time` while the engine plays; a
    /// stopped engine keeps every phase.
    pub open spec fn advance(self, index: int, time: u32) -> Self {
        if self.playing && 0 <= index < self.voices.len() {
            EngineState {
                voices: self.voices.update(
                    index,
                    (self.voices[index].0, OscillatorState { time, ..self.voices[index].1 }),
                ),
                ..self
            }
        } else {
            self
        }
    }
}

/// One call on the engine.
pub enum Command {
    Reset,
    Play,
    Stop,
    SetVolume(u32),
    Add(SharedFrequency, SharedVolumeMultiplier),
    Remove(nat),
    Clear,
    SetWaveform(WaveForm),
    Advance(int, u32),
}

impl EngineState {
    /// The engine after one call.
    pub open spec fn apply(self, command: Command) -> Self {
        match command {
            Command::Reset => self.reset(),
            Command::Play => self.play(),
            Command::Stop => self.stop(),
            Command::SetVolume(volume) => self.set_volume(volume),
            Command::Add(frequency, volume_multiplier) => self.add(frequency, volume_multiplier),
            Command::Remove(id) => self.remove(id),
            Command::Clear => self.clear(),
            Command::SetWaveform(waveform) => self.set_waveform(waveform),
            Command::Advance(index, time) => self.advance(index, time),
        }
    }

    /// The engine after a series of calls, first to last.
    pub open spec fn run(self, commands: Seq<Command>) -> Self
        decreases commands.len(),
    {
        if commands.len() == 0 {
            self
        } else {
            self.run(commands.drop_last()).apply(commands.last())
        }
    }
}

/// In a well-formed registry an id stands at one place only.
pub proof fn lemma_position(state: EngineState, index: int)
    requires
        state.wf(),
        0 <= index < state.voices.len(),
    ensures
        state.contains(state.voices[index].0),
        state.position(state.voices[index].0) == index,
        state.voice(state.voices[index].0) == state.voices[index].1,
{
    let id = state.voices[index].0;
    let p = state.position(id);
    if p < index {
        assert(state.voices[p].0 < state.voices[index].0);
    } else if p > index {
        assert(state.voices[index].0 < state.voices[p].0);
    }
}

/// The id that the next voice gets is held by no registered voice.
pub proof fn lemma_next_id_is_fresh(state: EngineState)
    requires
        state.wf(),
    ensures
        !state.contains(state.next_id),
{
}

/// No call breaks the registry's order, and no call takes the next id back.
pub proof fn lemma_apply_keeps_wf(state: EngineState, command: Command)
    requires
        state.wf(),
    ensures
        state.apply(command).wf(),
        state.next_id <= state.apply(command).next_id,
        command is Add ==> state.apply(command).next_id == state.next_id + 1,
        !(command is Add) ==> state.apply(command).next_id == state.next_id,
{
    let after = state.apply(command);
    match command {
        Command::Remove(id) => {
            if state.contains(id) {
                let p = state.position(id);
                assert forall|i: int, j: int| 0 <= i < j < after.voices.len() implies after.voices[i].0
                    < after.voices[j].0 by {
                    let a = if i < p { i } else { i + 1 };
                    let b = if j < p { j } else { j + 1 };
                    assert(after.voices[i] == state.voices[a]);
                    assert(after.voices[j] == state.voices[b]);
                }
                assert forall|i: int| 0 <= i < after.voices.len() implies after.voices[i].0
                    < after.next_id by {
                    let a = if i < p { i } else { i + 1 };
                    assert(after.voices[i] == state.voices[a]);
                }
            }
        },
        _ => {},
    }
}

/// No series of calls breaks the registry's order or takes the next id back.
pub proof fn lemma_run_keeps_wf(state: EngineState, commands: Seq<Command>)
    requires
        state.wf(),
    ensures
        state.run(commands).wf(),
        state.next_id <= state.run(commands).next_id,
    decreases commands.len(),
{
    if commands.len() > 0 {
        lemma_run_keeps_wf(state, commands.drop_last());
        lemma_apply_keeps_wf(state.run(commands.drop_last()), commands.last());
    }
}

/// Voice ids strictly increase: whatever is called between two additions,
/// removals included, the second voice gets a larger id than the first, and
/// no registered voice holds that id.
pub proof fn lemma_ids_strictly_increase(
    state: EngineState,
    first_frequency: SharedFrequency,
    first_volume_multiplier: SharedVolumeMultiplier,
    between: Seq<Command>,
)
    requires
        state.wf(),
    ensures
        ({
            let first_id = state.next_id;
            let later = state.add(first_frequency, first_volume_multiplier).run(between);
            let second_id = later.next_id;
            first_id < second_id && !later.contains(second_id)
        }),
{
    let added = state.add(first_frequency, first_volume_multiplier);
    lemma_apply_keeps_wf(state, Command::Add(first_frequency, first_volume_multiplier));
    lemma_run_keeps_wf(added, between);
}

/// Removing an id that no voice holds changes nothing.
pub proof fn lemma_remove_absent(state: EngineState, id: nat)
    requires
        !state.contains(id),
    ensures
        state.remove(id) == state,
{
}

/// After a removal no voice holds the id, and every other voice is there as
/// before.
pub proof fn lemma_remove_present(state: EngineState, id: nat, other: nat)
    requires
        state.wf(),
        other != id,
    ensures
        !state.remove(id).contains(id),
        state.remove(id).contains(other) == state.contains(other),
        state.contains(other) ==> state.remove(id).voice(other) == state.voice(other),
{
    let after = state.remove(id);
    lemma_apply_keeps_wf(state, Command::Remove(id));
    if state.contains(id) {
        let p = state.position(id);
        if after.contains(id) {
            let i = after.position(id);
            let a = if i < p { i } else { i + 1 };
            assert(after.voices[i] == state.voices[a]);
            lemma_position(state, a);
        }
        if after.contains(other) {
            let i = after.position(other);
            let a = if i < p { i } else { i + 1 };
            assert(after.voices[i] == state.voices[a]);
            lemma_position(state, a);
        }
        if state.contains(other) {
            let a = state.position(other);
            let i = if a < p { a } else { a - 1 };
            assert(after.voices[i] == state.voices[a]);
            lemma_position(after, i);
        }
    }
}

/// One call on a stopped engine: a voice that is registered afterwards under
/// an id handed out before was registered before, with the same phase.
pub proof fn lemma_stopped_step_keeps_phase(state: EngineState, command: Command, id: nat)
    requires
        state.wf(),
        !state.playing,
        id < state.next_id,
        state.apply(command).contains(id),
    ensures
        state.contains(id),
        state.apply(command).voice(id).time == state.voice(id).time,
{
    let after = state.apply(command);
    lemma_apply_keeps_wf(state, command);
    let i = after.position(id);
    lemma_position(after, i);
    match command {
        Command::Remove(removed) => {
            if state.contains(removed) {
                let p = state.position(removed);
                let a = if i < p { i } else { i + 1 };
                assert(after.voices[i] == state.voices[a]);
                lemma_position(state, a);
            } else {
                lemma_position(state, i);
            }
        },
        Command::Clear => {},
        _ => {
            assert(i < state.voices.len());
            lemma_position(state, i);
        },
    }
}

/// While the engine is stopped no phase changes: after any series of calls
/// without `Play`, the engine is still stopped, and every voice that was
/// registered before and still is has the phase it had.
pub proof fn lemma_stopped_keeps_phases(state: EngineState, commands: Seq<Command>, id: nat)
    requires
        state.wf(),
        !state.playing,
        forall|i: int| 0 <= i < commands.len() ==> !(commands[i] is Play),
        id < state.next_id,
        state.run(commands).contains(id),
    ensures
        !state.run(commands).playing,
        state.contains(id),
        state.run(commands).voice(id).time == state.voice(id).time,
    decreases commands.len(),
{
    if commands.len() > 0 {
        let before = state.run(commands.drop_last());
        lemma_run_keeps_wf(state, commands.drop_last());
        lemma_stopped_run_stays_stopped(state, commands.drop_last());
        lemma_stopped_step_keeps_phase(before, commands.last(), id);
        lemma_stopped_keeps_phases(state, commands.drop_last(), id);
    }
}

/// A stopped engine stays stopped until `Play` is called.
pub proof fn lemma_stopped_run_stays_stopped(state: EngineState, commands: Seq<Command>)
    requires
        !state.playing,
        forall|i: int| 0 <= i < commands.len() ==> !(commands[i] is Play),
    ensures
        !state.run(commands).playing,
    decreases commands.len(),
{
    if commands.len() > 0 {
        lemma_stopped_run_stays_stopped(state, commands.drop_last());
    }
}

/// Switching the waveform reaches the template and every voice, and moves no
/// phase: a voice added afterwards starts with the new waveform too.
pub proof fn lemma_set_waveform_reaches_all(state: EngineState, waveform: WaveForm, index: int)
    requires
        0 <= index < state.voices.len(),
    ensures
        state.set_waveform(waveform).wavetable == waveform,
        state.set_waveform(waveform).voices.len() == state.voices.len(),
        state.set_waveform(waveform).voices[index].0 == state.voices[index].0,
        state.set_waveform(waveform).voices[index].1.wavetable == waveform,
        state.set_waveform(waveform).voices[index].1.time == state.voices[index].1.time,
        state.set_waveform(waveform).voices[index].1.frequency
            == state.voices[index].1.frequency,
        state.set_waveform(waveform).voices[index].1.volume_multiplier
            == state.voices[index].1.volume_multiplier,
{
}

} // verus!
