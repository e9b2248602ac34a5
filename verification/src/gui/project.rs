//! The project that the control surface edits, as a mathematical value, and
//! what each edit makes of it.
//!
//! A voice's frequency is a base frequency times a ratio, and its volume
//! multiplier is two to the power of its logarithmic volume. Both are
//! single-precision arithmetic, which is not done here: an edit hands back
//! the cells to write and the operands to write them from, as `Effect`s. They
//! are to be done before the engine is handed back to the audio thread.
use crate::audio::engine::{SharedFrequency, SharedVolumeMultiplier, Volume};
use crate::audio::model::{EngineState, DEFAULT_VOLUME};
use crate::audio::single::{clamped, NEG_INFINITY, ZERO};
use crate::audio::synthesizer::WaveForm;
use crate::gui::global_frequency::{
    GlobalFrequency, GlobalFrequencyMessage, GlobalFrequencyState,
};
use crate::gui::list::{ascending, has_key, lemma_place_of, next_key, place_of};
use crate::gui::relative_frequency::{
    state_update_of, Ratio, RelativeFrequency, RelativeFrequencyMessage, RelativeFrequencyState,
    RelativeFrequencyStateUpdate,
};
use vstd::prelude::*;

verus! {

/// The encoding of `220.0`, the frequency of a voice whose base frequency
/// does not exist.
pub const DEFAULT_FREQUENCY: u32 = 0x435c_0000;

/// The encoding of `-10.0`, the lowest volume that the control surface
/// offers. It stands for silence.
pub const MUTE: u32 = 0xc120_0000;

/// The encoding of `42.0`, the frequency of a new base frequency.
pub const NEW_GLOBAL_FREQUENCY: u32 = 0x4228_0000;

/// The encoding of `-2.0`, the volume of a new voice.
pub const NEW_VOLUME: u32 = 0xc000_0000;

/// Why a file was not read or written.
#[derive(Debug, Clone, Copy, PartialEq, Eq, Structural)]
pub enum FileError {
    /// The user closed the dialog without choosing a file.
    FileDialogClosed,
    /// The file could not be read or written.
    IO,
    /// What the file holds is not a project, or the project could not be
    /// put into bytes.
    Postcard,
}

/// A write that is left to do, in single-precision arithmetic.
pub enum Effect {
    /// Write `base * numerator / denominator` of the ratio to the cell.
    Tune { frequency: SharedFrequency, base: u32, ratio: Ratio },
    /// Write two to the power of `volume` to the cell. The volume is a gain:
    /// it is not above zero.
    Scale { volume_multiplier: SharedVolumeMultiplier, volume: u32 },
}

/// A relative frequency together with its voice in the engine: the voice's
/// id, where it has one, and the two cells it reads.
pub struct Voice {
    pub relative_frequency: RelativeFrequency,
    pub oscillator_id: Option<usize>,
    pub frequency: SharedFrequency,
    pub volume_multiplier: SharedVolumeMultiplier,
}

/// What a voice of the project holds, as a mathematical value.
pub struct VoiceState {
    pub relative_frequency: RelativeFrequencyState,
    pub oscillator_id: Option<usize>,
    pub frequency: SharedFrequency,
    pub volume_multiplier: SharedVolumeMultiplier,
}

impl View for Voice {
    type V = VoiceState;

    open spec fn view(&self) -> VoiceState {
        VoiceState {
            relative_frequency: self.relative_frequency@,
            oscillator_id: self.oscillator_id,
            frequency: self.frequency,
            volume_multiplier: self.volume_multiplier,
        }
    }
}

/// What is written to a file of a project.
pub struct StateSave {
    pub volume: Volume,
    pub waveform: WaveForm,
    pub global_frequencies: Vec<(usize, GlobalFrequency)>,
    pub relative_frequencies: Vec<RelativeFrequency>,
}

/// The list of base frequencies as mathematical values.
pub open spec fn views(list: Seq<(usize, GlobalFrequency)>) -> Seq<(usize, GlobalFrequencyState)> {
    Seq::new(list.len(), |i: int| (list[i].0, list[i].1@))
}

/// A list of base frequencies has the keys of its mathematical value, at the
/// same places.
pub proof fn lemma_views(list: Seq<(usize, GlobalFrequency)>, key: usize)
    requires
        ascending(list),
    ensures
        ascending(views(list)),
        has_key(views(list), key) == has_key(list, key),
        has_key(list, key) ==> place_of(views(list), key) == place_of(list, key),
{
    if has_key(views(list), key) {
        let i = place_of(views(list), key);
        assert(list[i].0 == key);
    }
    if has_key(list, key) {
        let i = place_of(list, key);
        assert(views(list)[i].0 == key);
        lemma_place_of(views(list), i);
    }
}

/// The volume that a position of the volume control stands for: its lowest
/// position is silence, every other one is itself.
pub open spec fn volume_of(position: u32) -> u32 {
    if position == MUTE {
        NEG_INFINITY
    } else {
        position
    }
}

/// The logarithmic volume as a gain: not above zero.
pub open spec fn gain_of(volume: u32) -> u32 {
    clamped(volume, NEG_INFINITY, ZERO)
}

/// What a project holds: the waveform and the global gain, the base
/// frequencies and the voices, each list in ascending order of its keys,
/// whether a file is being read or written, and whether a file is open and
/// holds what the project holds.
#[verifier::ext_equal]
pub struct StateView {
    pub waveform: WaveForm,
    pub volume: u32,
    pub global_frequencies: Seq<(usize, GlobalFrequencyState)>,
    pub relative_frequencies: Seq<(usize, VoiceState)>,
    pub is_loading: bool,
    pub file: Option<bool>,
    pub current_error: Option<FileError>,
}

/// The writes that a new base frequency `base` under `id` asks for: one for
/// each voice over that base, in the order of the voices.
pub open spec fn tunes(voices: Seq<(usize, VoiceState)>, id: usize, base: u32) -> Seq<Effect>
    decreases voices.len(),
{
    if voices.len() == 0 {
        Seq::empty()
    } else {
        let before = tunes(voices.drop_last(), id, base);
        let voice = voices.last().1;
        if voice.relative_frequency.absolute_frequency_id == id {
            before.push(
                Effect::Tune { frequency: voice.frequency, base, ratio: voice.relative_frequency.ratio },
            )
        } else {
            before
        }
    }
}

/// The writes that a voice asks for when it is set up: its volume
/// multiplier, then its frequency where its base frequency exists.
pub open spec fn opening_effects(
    global_frequencies: Seq<(usize, GlobalFrequencyState)>,
    voice: VoiceState,
) -> Seq<Effect> {
    let scale = Effect::Scale {
        volume_multiplier: voice.volume_multiplier,
        volume: gain_of(voice.relative_frequency.volume),
    };
    let id = voice.relative_frequency.absolute_frequency_id;
    if has_key(global_frequencies, id) {
        seq![
            scale,
            Effect::Tune {
                frequency: voice.frequency,
                base: global_frequencies[place_of(global_frequencies, id)].1.frequency,
                ratio: voice.relative_frequency.ratio,
            },
        ]
    } else {
        seq![scale]
    }
}

/// The engine after the voices of a project were set up on it one after
/// another: each voice with an oscillator added one.
pub open spec fn load_engine(engine: EngineState, voices: Seq<(usize, VoiceState)>) -> EngineState
    decreases voices.len(),
{
    if voices.len() == 0 {
        engine
    } else {
        let before = load_engine(engine, voices.drop_last());
        let voice = voices.last().1;
        if voice.oscillator_id is Some {
            before.add(voice.frequency, voice.volume_multiplier)
        } else {
            before
        }
    }
}

/// The writes that the voices of a project ask for when they are set up
/// one after another.
pub open spec fn load_effects(
    global_frequencies: Seq<(usize, GlobalFrequencyState)>,
    voices: Seq<(usize, VoiceState)>,
) -> Seq<Effect>
    decreases voices.len(),
{
    if voices.len() == 0 {
        Seq::empty()
    } else {
        load_effects(global_frequencies, voices.drop_last()) + opening_effects(
            global_frequencies,
            voices.last().1,
        )
    }
}

/// Whether the voices are those that setting up the relative frequencies
/// one after another on the engine gives: each under its place in the
/// list as key, with an oscillator where its base frequency exists, under
/// the id that the engine had next at that point.
pub open spec fn loaded(
    engine: EngineState,
    global_frequencies: Seq<(usize, GlobalFrequencyState)>,
    relative_frequencies: Seq<RelativeFrequencyState>,
    voices: Seq<(usize, VoiceState)>,
) -> bool {
    &&& voices.len() == relative_frequencies.len()
    &&& forall|i: int|
        #![trigger voices[i]]
        0 <= i < voices.len() ==> {
            &&& voices[i].0 == i
            &&& voices[i].1.relative_frequency == relative_frequencies[i]
            &&& voices[i].1.oscillator_id == (if has_key(
                global_frequencies,
                relative_frequencies[i].absolute_frequency_id,
            ) {
                Some(load_engine(engine, voices.take(i)).next_id as usize)
            } else {
                None
            })
        }
}

/// The window title: a star unless a file is open and saved, the name of
/// the program, and the path of the open file.
pub open spec fn title_of(file: Option<bool>, path: Seq<char>) -> Seq<char> {
    (if file == Some(true) {
        ""@
    } else {
        "*"@
    }) + "Harmony playground - "@ + (if file is Some {
        path
    } else {
        "New file"@
    })
}

/// What an edit of a voice leaves behind: the project, the engine and the
/// writes that are left to do.
pub struct Outcome {
    pub state: StateView,
    pub engine: EngineState,
    pub effects: Seq<Effect>,
}

impl StateView {
    /// Both lists are in strictly ascending order of their keys.
    pub open spec fn wf(self) -> bool {
        ascending(self.global_frequencies) && ascending(self.relative_frequencies)
    }

    /// The empty project on an engine whose gain is `volume`.
    pub open spec fn empty(volume: u32) -> Self {
        StateView {
            waveform: WaveForm::Sine,
            volume,
            global_frequencies: Seq::empty(),
            relative_frequencies: Seq::empty(),
            is_loading: false,
            file: None,
            current_error: None,
        }
    }

    /// An open file no longer holds what the project holds.
    pub open spec fn unsave(self) -> Self {
        StateView {
            file: if self.file is Some {
                Some(false)
            } else {
                None
            },
            ..self
        }
    }

    /// The failure is kept for display, unless it is a closed dialog.
    pub open spec fn set_error(self, error: FileError) -> Self {
        if error == FileError::FileDialogClosed {
            self
        } else {
            StateView { current_error: Some(error), ..self }
        }
    }

    /// One more base frequency, under the next key, which is its id too.
    pub open spec fn add_global_frequency(self, frequency: u32) -> Self {
        let id = next_key(self.global_frequencies, 1) as usize;
        StateView {
            global_frequencies: self.global_frequencies.push(
                (id, GlobalFrequencyState { id, frequency }),
            ),
            ..self
        }
    }

    /// The base frequency under `id` after the message; as before where
    /// there is none.
    pub open spec fn update_global_frequency(
        self,
        id: usize,
        message: GlobalFrequencyMessage,
    ) -> Self {
        if has_key(self.global_frequencies, id) {
            let place = place_of(self.global_frequencies, id);
            StateView {
                global_frequencies: self.global_frequencies.update(
                    place,
                    (id, self.global_frequencies[place].1.updated(message)),
                ),
                ..self
            }
        } else {
            self
        }
    }

    /// What that change asks to write: the frequency of every voice over
    /// that base.
    pub open spec fn update_global_frequency_effects(
        self,
        id: usize,
        message: GlobalFrequencyMessage,
    ) -> Seq<Effect> {
        if has_key(self.global_frequencies, id) {
            let place = place_of(self.global_frequencies, id);
            tunes(
                self.relative_frequencies,
                id,
                self.global_frequencies[place].1.updated(message).frequency,
            )
        } else {
            Seq::empty()
        }
    }

    /// The project with the voice at `place` replaced.
    pub open spec fn with_voice(self, place: int, voice: VoiceState) -> Self {
        StateView {
            relative_frequencies: self.relative_frequencies.update(
                place,
                (self.relative_frequencies[place].0, voice),
            ),
            ..self
        }
    }

    /// One more voice with the two cells, under the next key. It has an
    /// oscillator, under `oscillator_id`, where its base frequency exists.
    pub open spec fn add_relative_frequency(
        self,
        relative_frequency: RelativeFrequencyState,
        frequency: SharedFrequency,
        volume_multiplier: SharedVolumeMultiplier,
        oscillator_id: usize,
    ) -> Self {
        let voice = VoiceState {
            relative_frequency,
            oscillator_id: if has_key(
                self.global_frequencies,
                relative_frequency.absolute_frequency_id,
            ) {
                Some(oscillator_id)
            } else {
                None
            },
            frequency,
            volume_multiplier,
        };
        StateView {
            relative_frequencies: self.relative_frequencies.push(
                (next_key(self.relative_frequencies, 0) as usize, voice),
            ),
            ..self
        }
    }

    /// The message handed to the voice under `id`. A voice without an
    /// oscillator gets one first. Then, where the message changed the base
    /// or the ratio: the voice is retuned, or loses its oscillator where its
    /// base frequency does not exist. Where it changed the volume: the
    /// voice's volume multiplier is written anew. Without such a voice
    /// nothing happens.
    pub open spec fn update_relative_frequency(
        self,
        engine: EngineState,
        id: usize,
        message: RelativeFrequencyMessage,
    ) -> Outcome {
        if !has_key(self.relative_frequencies, id) {
            Outcome { state: self, engine, effects: Seq::empty() }
        } else {
            let place = place_of(self.relative_frequencies, id);
            let voice = self.relative_frequencies[place].1;
            let oscillator_id = match voice.oscillator_id {
                Some(oscillator_id) => oscillator_id,
                None => engine.next_id as usize,
            };
            let engine = match voice.oscillator_id {
                Some(_) => engine,
                None => engine.add(voice.frequency, voice.volume_multiplier),
            };
            let relative_frequency = voice.relative_frequency.updated(message);
            let kept = VoiceState {
                relative_frequency,
                oscillator_id: Some(oscillator_id),
                ..voice
            };
            match state_update_of(message) {
                Some(RelativeFrequencyStateUpdate::FrequencyUpdated) => {
                    let base = relative_frequency.absolute_frequency_id;
                    if has_key(self.global_frequencies, base) {
                        Outcome {
                            state: self.with_voice(place, kept),
                            engine,
                            effects: seq![
                                Effect::Tune {
                                    frequency: voice.frequency,
                                    base: self.global_frequencies[place_of(
                                        self.global_frequencies,
                                        base,
                                    )].1.frequency,
                                    ratio: relative_frequency.ratio,
                                },
                            ],
                        }
                    } else {
                        Outcome {
                            state: self.with_voice(
                                place,
                                VoiceState { oscillator_id: None, ..kept },
                            ),
                            engine: engine.remove(oscillator_id as nat),
                            effects: Seq::empty(),
                        }
                    }
                },
                Some(RelativeFrequencyStateUpdate::VolumeUpdated) => Outcome {
                    state: self.with_voice(place, kept),
                    engine,
                    effects: seq![
                        Effect::Scale {
                            volume_multiplier: voice.volume_multiplier,
                            volume: gain_of(relative_frequency.volume),
                        },
                    ],
                },
                None => Outcome {
                    state: self.with_voice(place, kept),
                    engine,
                    effects: Seq::empty(),
                },
            }
        }
    }

    /// Without the voice under `id`; as before where there is none.
    pub open spec fn delete_relative_frequency(self, id: usize) -> Self {
        if has_key(self.relative_frequencies, id) {
            StateView {
                relative_frequencies: self.relative_frequencies.remove(
                    place_of(self.relative_frequencies, id),
                ),
                ..self
            }
        } else {
            self
        }
    }

    /// The engine after that voice is deleted: without the oscillator of
    /// the voice, where it had one.
    pub open spec fn delete_relative_frequency_engine(
        self,
        engine: EngineState,
        id: usize,
    ) -> EngineState {
        if has_key(self.relative_frequencies, id) {
            match self.relative_frequencies[place_of(
                self.relative_frequencies,
                id,
            )].1.oscillator_id {
                Some(oscillator_id) => engine.remove(oscillator_id as nat),
                None => engine,
            }
        } else {
            engine
        }
    }

    /// Whether `save` is what is written to a file of this project.
    pub open spec fn saved_as(self, save: StateSave) -> bool {
        &&& save.volume@ == self.volume
        &&& save.waveform == self.waveform
        &&& ascending(save.global_frequencies@)
        &&& views(save.global_frequencies@) == self.global_frequencies
        &&& save.relative_frequencies@.len() == self.relative_frequencies.len()
        &&& forall|i: int|
            0 <= i < save.relative_frequencies@.len() ==> save.relative_frequencies@[i]@
                == self.relative_frequencies[i].1.relative_frequency
    }
}

/// Whether `state`, `engine` and `effects` are what setting up the project
/// of a file on the engine `before` gives: the engine without its former
/// voices, with gain and waveform of the file, and with an oscillator for
/// every voice whose base frequency exists.
pub open spec fn opened(
    before: EngineState,
    save: StateSave,
    has_path: bool,
    state: StateView,
    engine: EngineState,
    effects: Seq<Effect>,
) -> bool {
    let start = before.clear().set_volume(save.volume@).set_waveform(save.waveform);
    let voices = state.relative_frequencies;
    &&& state == (StateView {
        waveform: save.waveform,
        volume: save.volume@,
        global_frequencies: views(save.global_frequencies@),
        relative_frequencies: voices,
        is_loading: false,
        file: if has_path {
            Some(true)
        } else {
            None
        },
        current_error: None,
    })
    &&& loaded(
        start,
        views(save.global_frequencies@),
        Seq::new(save.relative_frequencies@.len(), |i: int| save.relative_frequencies@[i]@),
        voices,
    )
    &&& engine == load_engine(start, voices)
    &&& effects == load_effects(views(save.global_frequencies@), voices)
}

/// What the control surface reports to the project.
pub enum Message {
    GlobalFrequencyUpdated { id: usize, message: GlobalFrequencyMessage },
    RelativeFrequencyUpdated { id: usize, message: RelativeFrequencyMessage },
    RelativeFrequencyDeleted(usize),
    AddGlobalFrequency,
    AddRelativeFrequency,
    WaveFormUpdated(WaveForm),
    VolumeUpdated(u32),
    PlayPressed,
    StopPressed,
    NewFile,
    SaveFile,
    OpenFile,
    /// A file was read, or was not.
    SaveLoaded(Result<StateSave, FileError>),
    /// The file was written, or was not.
    StateSaved(Result<(), FileError>),
}

/// What the project asks of its surroundings after a message.
pub enum Request {
    Nothing,
    /// Let the user choose a file and read it.
    Open,
    /// Let the user choose a file and write this to it.
    Save(StateSave),
}

impl StateView {
    /// Whether the machine's integers can take the message: a next key, a
    /// next oscillator id. A project that is read must have its base
    /// frequencies in ascending order of key.
    pub open spec fn admits(self, engine: EngineState, message: Message) -> bool {
        match message {
            Message::AddGlobalFrequency => next_key(self.global_frequencies, 1) <= usize::MAX,
            Message::AddRelativeFrequency => next_key(self.relative_frequencies, 0) <= usize::MAX
                && engine.next_id < usize::MAX,
            Message::RelativeFrequencyUpdated { .. } => engine.next_id < usize::MAX,
            Message::SaveLoaded(Ok(save)) => ascending(save.global_frequencies@) && engine.next_id
                + save.relative_frequencies@.len() <= usize::MAX,
            _ => true,
        }
    }

    /// Whether `state`, `engine`, `effects` and `request` are what the
    /// message leaves of this project on the engine `before`. Every edit
    /// marks an open file as unsaved. While a file is read or written, a
    /// new project, a second read and a second write are not begun.
    pub open spec fn updated(
        self,
        before: EngineState,
        message: Message,
        state: StateView,
        engine: EngineState,
        effects: Seq<Effect>,
        request: Request,
    ) -> bool {
        match message {
            Message::GlobalFrequencyUpdated { id, message } => {
                &&& state == self.update_global_frequency(id, message).unsave()
                &&& engine == before
                &&& effects == self.update_global_frequency_effects(id, message)
                &&& request is Nothing
            },
            Message::RelativeFrequencyUpdated { id, message } => {
                let outcome = self.update_relative_frequency(before, id, message);
                &&& state == outcome.state.unsave()
                &&& engine == outcome.engine
                &&& effects == outcome.effects
                &&& request is Nothing
            },
            Message::RelativeFrequencyDeleted(id) => {
                &&& state == self.delete_relative_frequency(id).unsave()
                &&& engine == self.delete_relative_frequency_engine(before, id)
                &&& effects == Seq::<Effect>::empty()
                &&& request is Nothing
            },
            Message::AddGlobalFrequency => {
                &&& state == self.add_global_frequency(NEW_GLOBAL_FREQUENCY).unsave()
                &&& engine == before
                &&& effects == Seq::<Effect>::empty()
                &&& request is Nothing
            },
            Message::AddRelativeFrequency => {
                let voice = state.relative_frequencies.last().1;
                &&& state.relative_frequencies.len() == self.relative_frequencies.len() + 1
                &&& state == self.add_relative_frequency(
                    RelativeFrequencyState {
                        absolute_frequency_id: 0,
                        ratio: Ratio { numerator: 1, denominator: 1 },
                        volume: NEW_VOLUME,
                    },
                    voice.frequency,
                    voice.volume_multiplier,
                    before.next_id as usize,
                ).unsave()
                &&& engine == (if voice.oscillator_id is Some {
                    before.add(voice.frequency, voice.volume_multiplier)
                } else {
                    before
                })
                &&& effects == opening_effects(self.global_frequencies, voice)
                &&& request is Nothing
            },
            Message::WaveFormUpdated(waveform) => {
                &&& state == (StateView { waveform, ..self }).unsave()
                &&& engine == before.set_waveform(waveform)
                &&& effects == Seq::<Effect>::empty()
                &&& request is Nothing
            },
            Message::VolumeUpdated(volume) => {
                &&& state == (StateView { volume: gain_of(volume_of(volume)), ..self }).unsave()
                &&& engine == before.set_volume(gain_of(volume_of(volume)))
                &&& effects == Seq::<Effect>::empty()
                &&& request is Nothing
            },
            Message::PlayPressed => {
                &&& state == self
                &&& engine == before.play()
                &&& effects == Seq::<Effect>::empty()
                &&& request is Nothing
            },
            Message::StopPressed => {
                &&& state == self
                &&& engine == before.stop()
                &&& effects == Seq::<Effect>::empty()
                &&& request is Nothing
            },
            Message::NewFile => {
                &&& state == (if self.is_loading {
                    self
                } else {
                    StateView::empty(DEFAULT_VOLUME)
                })
                &&& engine == (if self.is_loading {
                    before
                } else {
                    before.reset().clear().set_waveform(WaveForm::Sine)
                })
                &&& effects == Seq::<Effect>::empty()
                &&& request is Nothing
            },
            Message::SaveFile => {
                &&& state == (StateView { is_loading: true, ..self })
                &&& engine == before
                &&& effects == Seq::<Effect>::empty()
                &&& if self.is_loading {
                    request is Nothing
                } else {
                    request matches Request::Save(save) && self.saved_as(save)
                }
            },
            Message::OpenFile => {
                &&& state == (StateView { is_loading: true, ..self })
                &&& engine == before
                &&& effects == Seq::<Effect>::empty()
                &&& request is Open == !self.is_loading
                &&& request is Nothing == self.is_loading
            },
            Message::SaveLoaded(Ok(save)) => {
                &&& opened(before, save, true, state, engine, effects)
                &&& request is Nothing
            },
            Message::SaveLoaded(Err(error)) => {
                &&& state == (StateView { is_loading: false, ..self }).set_error(error)
                &&& engine == before
                &&& effects == Seq::<Effect>::empty()
                &&& request is Nothing
            },
            Message::StateSaved(Ok(_)) => {
                &&& state == (StateView { is_loading: false, file: Some(true), ..self })
                &&& engine == before
                &&& effects == Seq::<Effect>::empty()
                &&& request is Nothing
            },
            Message::StateSaved(Err(error)) => {
                &&& state == (StateView { is_loading: false, ..self }).set_error(error)
                &&& engine == before
                &&& effects == Seq::<Effect>::empty()
                &&& request is Nothing
            },
        }
    }
}

} // verus!
