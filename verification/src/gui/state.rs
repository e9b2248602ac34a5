//! The project of the control surface, on an audio engine.
use crate::audio::engine::{AudioEngine, SharedFrequency, SharedVolumeMultiplier, Volume};
use crate::audio::single::{clamped, is_same_value, NEG_INFINITY, ZERO};
use crate::audio::synthesizer::WaveForm;
use crate::gui::global_frequency::{GlobalFrequency, GlobalFrequencyMessage};
use crate::gui::list::{ascending, find, has_key, is_ascending, lemma_place_of, next_key, place_of};
use crate::gui::project::{
    lemma_views, load_effects, load_engine, loaded, opened, opening_effects, title_of, tunes,
    views, volume_of, Effect, FileError, Message, Request, StateSave, StateView, Voice,
    VoiceState, DEFAULT_FREQUENCY, MUTE, NEW_GLOBAL_FREQUENCY, NEW_VOLUME,
};
use crate::gui::relative_frequency::{
    Ratio, RelativeFrequency, RelativeFrequencyMessage, RelativeFrequencyStateUpdate,
};
use vstd::prelude::*;

verus! {

/// `String::push_str` of std: appends the string slice to the end of the
/// string.
pub assume_specification[ String::push_str ](s: &mut String, other: &str)
    ensures
        final(s)@ == old(s)@ + other@,
;

/// The project of the control surface.
pub struct State {
    waveform: WaveForm,
    volume: Volume,
    global_frequencies: Vec<(usize, GlobalFrequency)>,
    relative_frequencies: Vec<(usize, Voice)>,
    is_loading: bool,
    file: Option<bool>,
    current_error: Option<FileError>,
}

impl View for State {
    type V = StateView;

    closed spec fn view(&self) -> StateView {
        StateView {
            waveform: self.waveform,
            volume: self.volume@,
            global_frequencies: Seq::new(
                self.global_frequencies@.len(),
                |i: int| (self.global_frequencies@[i].0, self.global_frequencies@[i].1@),
            ),
            relative_frequencies: Seq::new(
                self.relative_frequencies@.len(),
                |i: int| (self.relative_frequencies@[i].0, self.relative_frequencies@[i].1@),
            ),
            is_loading: self.is_loading,
            file: self.file,
            current_error: self.current_error,
        }
    }
}

impl State {
    #[verifier::type_invariant]
    spec fn well_formed(self) -> bool {
        ascending(self.global_frequencies@) && ascending(self.relative_frequencies@)
    }

    proof fn lemma_view(self)
        requires
            self.well_formed(),
        ensures
            self@.wf(),
            self@.global_frequencies.len() == self.global_frequencies@.len(),
            self@.relative_frequencies.len() == self.relative_frequencies@.len(),
            forall|i: int|
                0 <= i < self.global_frequencies@.len() ==> self@.global_frequencies[i] == (
                    self.global_frequencies@[i].0,
                    self.global_frequencies@[i].1@,
                ),
            forall|i: int|
                0 <= i < self.relative_frequencies@.len() ==> self@.relative_frequencies[i] == (
                    self.relative_frequencies@[i].0,
                    self.relative_frequencies@[i].1@,
                ),
            forall|key: usize|
                has_key(self@.global_frequencies, key) == has_key(self.global_frequencies@, key),
            forall|key: usize|
                has_key(self@.relative_frequencies, key) == has_key(
                    self.relative_frequencies@,
                    key,
                ),
    {
        assert forall|key: usize|
            has_key(self@.global_frequencies, key) == has_key(self.global_frequencies@, key) by {
            if has_key(self@.global_frequencies, key) {
                let i = place_of(self@.global_frequencies, key);
                assert(self.global_frequencies@[i].0 == key);
            }
            if has_key(self.global_frequencies@, key) {
                let i = place_of(self.global_frequencies@, key);
                assert(self@.global_frequencies[i].0 == key);
            }
        }
        assert forall|key: usize|
            has_key(self@.relative_frequencies, key) == has_key(
                self.relative_frequencies@,
                key,
            ) by {
            if has_key(self@.relative_frequencies, key) {
                let i = place_of(self@.relative_frequencies, key);
                assert(self.relative_frequencies@[i].0 == key);
            }
            if has_key(self.relative_frequencies@, key) {
                let i = place_of(self.relative_frequencies@, key);
                assert(self@.relative_frequencies[i].0 == key);
            }
        }
    }

    /// An empty project on an engine: the engine loses its voices and plays
    /// the sine waveform; its gain becomes the project's.
    pub fn new(engine: &mut AudioEngine) -> (r: Self)
        ensures
            final(engine)@ == old(engine)@.clear().set_waveform(WaveForm::Sine),
            r@ == (StateView {
                waveform: WaveForm::Sine,
                volume: old(engine)@.volume,
                global_frequencies: Seq::empty(),
                relative_frequencies: Seq::empty(),
                is_loading: false,
                file: None,
                current_error: None,
            }),
    {
        let volume = engine.get_volume();
        engine.clear_oscillators();
        engine.set_waveform(WaveForm::Sine);
        let r = Self {
            waveform: WaveForm::Sine,
            volume,
            global_frequencies: Vec::new(),
            relative_frequencies: Vec::new(),
            is_loading: false,
            file: None,
            current_error: None,
        };
        assert(r@.global_frequencies =~= Seq::empty());
        assert(r@.relative_frequencies =~= Seq::empty());
        r
    }

    /// To be called after every change: an open file no longer holds what
    /// the project holds.
    pub fn unsave(&mut self)
        ensures
            final(self)@ == old(self)@.unsave(),
    {
        proof {
            use_type_invariant(&*self);
        }
        if self.file.is_some() {
            self.file = Some(false);
        }
    }

    /// Adds a base frequency under the next key.
    pub fn add_global_frequency(&mut self, frequency: u32)
        requires
            next_key(old(self)@.global_frequencies, 1) <= usize::MAX,
        ensures
            final(self)@ == old(self)@.add_global_frequency(frequency),
    {
        proof {
            use_type_invariant(&*self);
            self.lemma_view();
        }
        let n = self.global_frequencies.len();
        let latest_id: usize = if n == 0 {
            1
        } else {
            self.global_frequencies[n - 1].0 + 1
        };
        let mut list: Vec<(usize, GlobalFrequency)> = Vec::new();
        std::mem::swap(&mut self.global_frequencies, &mut list);
        list.push((latest_id, GlobalFrequency::new(latest_id, frequency)));
        std::mem::swap(&mut self.global_frequencies, &mut list);
        assert(self@.global_frequencies =~= old(self)@.add_global_frequency(
            frequency,
        ).global_frequencies);
        assert(self@.relative_frequencies =~= old(self)@.relative_frequencies);
    }

    /// Switches the project and the engine to the waveform.
    pub fn set_waveform(&mut self, engine: &mut AudioEngine, waveform: WaveForm)
        ensures
            final(engine)@ == old(engine)@.set_waveform(waveform),
            final(self)@ == (StateView { waveform, ..old(self)@ }),
    {
        proof {
            use_type_invariant(&*self);
        }
        engine.set_waveform(waveform);
        self.waveform = waveform;
    }

    /// Sets the gain of the project and of the engine from a position of the
    /// volume control.
    pub fn set_volume(&mut self, engine: &mut AudioEngine, volume: u32)
        ensures
            final(self)@ == (StateView {
                volume: clamped(volume_of(volume), NEG_INFINITY, ZERO),
                ..old(self)@
            }),
            final(engine)@ == old(engine)@.set_volume(final(self)@.volume),
    {
        proof {
            use_type_invariant(&*self);
        }
        let volume = if is_same_value(volume, MUTE) {
            NEG_INFINITY
        } else {
            volume
        };
        let volume = Volume::new(volume);
        engine.set_volume(volume);
        self.volume = volume;
    }

    /// Hands the message to the base frequency under `id` and retunes the
    /// voices over it. Without such a base frequency nothing happens.
    pub fn update_global_frequency(&mut self, id: usize, message: GlobalFrequencyMessage) -> (effects:
        Vec<Effect>)
        ensures
            final(self)@ == old(self)@.update_global_frequency(id, message),
            effects@ == old(self)@.update_global_frequency_effects(id, message),
    {
        proof {
            use_type_invariant(&*self);
            self.lemma_view();
        }
        let mut effects: Vec<Effect> = Vec::new();
        let place = match find(&self.global_frequencies, id) {
            Some(place) => place,
            None => {
                return effects;
            },
        };
        proof {
            lemma_place_of(self@.global_frequencies, place as int);
        }
        let mut list: Vec<(usize, GlobalFrequency)> = Vec::new();
        std::mem::swap(&mut self.global_frequencies, &mut list);
        list[place].1.update(message);
        let base = list[place].1.frequency();
        std::mem::swap(&mut self.global_frequencies, &mut list);
        assert(self@.global_frequencies =~= old(self)@.update_global_frequency(
            id,
            message,
        ).global_frequencies);
        assert(self@.relative_frequencies =~= old(self)@.relative_frequencies);
        let ghost voices = self@.relative_frequencies;
        let mut i: usize = 0;
        while i < self.relative_frequencies.len()
            invariant
                i <= self.relative_frequencies@.len(),
                voices.len() == self.relative_frequencies@.len(),
                forall|j: int|
                    0 <= j < voices.len() ==> voices[j] == (
                        self.relative_frequencies@[j].0,
                        self.relative_frequencies@[j].1@,
                    ),
                effects@ == tunes(voices.take(i as int), id, base),
            decreases self.relative_frequencies@.len() - i,
        {
            let voice = &self.relative_frequencies[i].1;
            proof {
                assert(voices.take(i + 1).drop_last() =~= voices.take(i as int));
                assert(voices.take(i + 1).last() == voices[i as int]);
            }
            if voice.relative_frequency.absolute_frequency_id() == id {
                effects.push(
                    Effect::Tune {
                        frequency: voice.frequency.clone(),
                        base,
                        ratio: voice.relative_frequency.ratio(),
                    },
                );
            }
            i += 1;
        }
        assert(voices.take(voices.len() as int) =~= voices);
        effects
    }

    /// What is written to a file of the project: gain, waveform, the base
    /// frequencies and the relative frequencies of the voices, in their order.
    pub fn to_save(&self) -> (save: StateSave)
        ensures
            self@.saved_as(save),
    {
        proof {
            use_type_invariant(self);
            self.lemma_view();
        }
        let mut global_frequencies: Vec<(usize, GlobalFrequency)> = Vec::new();
        let mut i: usize = 0;
        while i < self.global_frequencies.len()
            invariant
                i <= self.global_frequencies@.len(),
                global_frequencies@ == self.global_frequencies@.take(i as int),
            decreases self.global_frequencies@.len() - i,
        {
            let entry = self.global_frequencies[i];
            global_frequencies.push(entry);
            assert(self.global_frequencies@.take(i + 1) =~= self.global_frequencies@.take(
                i as int,
            ).push(entry));
            i += 1;
        }
        assert(global_frequencies@ =~= self.global_frequencies@);
        let mut relative_frequencies: Vec<RelativeFrequency> = Vec::new();
        let mut j: usize = 0;
        while j < self.relative_frequencies.len()
            invariant
                j <= self.relative_frequencies@.len(),
                relative_frequencies@.len() == j,
                forall|k: int|
                    0 <= k < j ==> relative_frequencies@[k]
                        == self.relative_frequencies@[k].1.relative_frequency,
            decreases self.relative_frequencies@.len() - j,
        {
            relative_frequencies.push(self.relative_frequencies[j].1.relative_frequency);
            j += 1;
        }
        assert(views(global_frequencies@) =~= self@.global_frequencies);
        StateSave {
            volume: self.volume,
            waveform: self.waveform,
            global_frequencies,
            relative_frequencies,
        }
    }

    /// The project that a file holds, set up on the engine: the engine
    /// loses its voices, takes gain and waveform from the file, and gets an
    /// oscillator for every voice whose base frequency exists. With a path
    /// the file counts as open and saved.
    pub fn from_save(engine: &mut AudioEngine, save: StateSave, has_path: bool) -> (r: (
        Self,
        Vec<Effect>,
    ))
        requires
            ascending(save.global_frequencies@),
            old(engine)@.next_id + save.relative_frequencies@.len() <= usize::MAX,
        ensures
            opened(old(engine)@, save, has_path, r.0@, final(engine)@, r.1@),
    {
        engine.clear_oscillators();
        engine.set_volume(save.volume);
        engine.set_waveform(save.waveform);
        let ghost start = engine@;
        let ghost globals = views(save.global_frequencies@);
        let ghost relatives = Seq::new(
            save.relative_frequencies@.len(),
            |i: int| save.relative_frequencies@[i]@,
        );
        let mut list: Vec<(usize, Voice)> = Vec::new();
        let mut effects: Vec<Effect> = Vec::new();
        let ghost mut voices: Seq<(usize, VoiceState)> = Seq::empty();
        let mut i: usize = 0;
        while i < save.relative_frequencies.len()
            invariant
                i <= save.relative_frequencies@.len(),
                ascending(save.global_frequencies@),
                globals == views(save.global_frequencies@),
                relatives == Seq::new(
                    save.relative_frequencies@.len(),
                    |i: int| save.relative_frequencies@[i]@,
                ),
                start.next_id + save.relative_frequencies@.len() <= usize::MAX,
                engine@.next_id <= start.next_id + i,
                list@.len() == i,
                voices.len() == i,
                forall|k: int| 0 <= k < i ==> voices[k] == (list@[k].0, list@[k].1@),
                loaded(start, globals, relatives.take(i as int), voices),
                engine@ == load_engine(start, voices),
                effects@ == load_effects(globals, voices),
            decreases save.relative_frequencies@.len() - i,
        {
            let (voice, mut opening) = Self::initialize_oscillator(
                engine,
                &save.global_frequencies,
                &save.relative_frequencies[i],
            );
            proof {
                let before = voices;
                voices = voices.push((i, voice@));
                assert(voices.drop_last() =~= before);
                assert forall|k: int| 0 <= k < voices.len() implies {
                    &&& (#[trigger] voices[k]).0 == k
                    &&& voices[k].1.relative_frequency == relatives.take(i + 1)[k]
                    &&& voices[k].1.oscillator_id == (if has_key(
                        globals,
                        relatives.take(i + 1)[k].absolute_frequency_id,
                    ) {
                        Some(load_engine(start, voices.take(k)).next_id as usize)
                    } else {
                        None
                    })
                } by {
                    if k < i {
                        assert(voices[k] == before[k]);
                        assert(voices.take(k) =~= before.take(k));
                    } else {
                        assert(voices.take(k) =~= before);
                    }
                }
            }
            list.push((i, voice));
            effects.append(&mut opening);
            i += 1;
        }
        assert(relatives.take(i as int) =~= relatives);
        assert(ascending(list@)) by {
            assert forall|a: int, b: int| 0 <= a < b < list@.len() implies list@[a].0
                < list@[b].0 by {
                assert(voices[a].0 == a);
                assert(voices[b].0 == b);
            }
        }
        let state = Self {
            waveform: save.waveform,
            volume: save.volume,
            global_frequencies: save.global_frequencies,
            relative_frequencies: list,
            is_loading: false,
            file: if has_path {
                Some(true)
            } else {
                None
            },
            current_error: None,
        };
        assert(state@.relative_frequencies =~= voices);
        assert(state@.global_frequencies =~= globals);
        (state, effects)
    }

    /// Sets a voice up for the relative frequency: two new cells, and an
    /// oscillator in the engine where the base frequency exists. The cells
    /// hold the default frequency and silence until the writes that are handed
    /// back are done.
    pub fn initialize_oscillator(
        engine: &mut AudioEngine,
        global_frequencies: &Vec<(usize, GlobalFrequency)>,
        relative_frequency: &RelativeFrequency,
    ) -> (r: (Voice, Vec<Effect>))
        requires
            ascending(global_frequencies@),
            old(engine)@.next_id < usize::MAX,
        ensures
            r.0@.relative_frequency == relative_frequency@,
            r.0@.oscillator_id == (if has_key(
                views(global_frequencies@),
                relative_frequency@.absolute_frequency_id,
            ) {
                Some(old(engine)@.next_id as usize)
            } else {
                None
            }),
            final(engine)@ == (if r.0@.oscillator_id is Some {
                old(engine)@.add(r.0@.frequency, r.0@.volume_multiplier)
            } else {
                old(engine)@
            }),
            r.1@ == opening_effects(views(global_frequencies@), r.0@),
    {
        let volume_multiplier = SharedVolumeMultiplier::new(ZERO);
        let frequency = SharedFrequency::new(DEFAULT_FREQUENCY);
        let mut effects: Vec<Effect> = Vec::new();
        effects.push(
            Effect::Scale {
                volume_multiplier: volume_multiplier.clone(),
                volume: Volume::new(relative_frequency.volume()).get(),
            },
        );
        let base = relative_frequency.absolute_frequency_id();
        proof {
            lemma_views(global_frequencies@, base);
        }
        let oscillator_id = match find(global_frequencies, base) {
            Some(place) => {
                effects.push(
                    Effect::Tune {
                        frequency: frequency.clone(),
                        base: global_frequencies[place].1.frequency(),
                        ratio: relative_frequency.ratio(),
                    },
                );
                Some(engine.add_oscillator(frequency.clone(), volume_multiplier.clone()))
            },
            None => None,
        };
        let voice = Voice {
            relative_frequency: *relative_frequency,
            oscillator_id,
            frequency,
            volume_multiplier,
        };
        assert(effects@ =~= opening_effects(views(global_frequencies@), voice@));
        (voice, effects)
    }

    /// Adds a voice for the relative frequency under the next key.
    pub fn add_relative_frequency(
        &mut self,
        engine: &mut AudioEngine,
        relative_frequency: RelativeFrequency,
    ) -> (effects: Vec<Effect>)
        requires
            next_key(old(self)@.relative_frequencies, 0) <= usize::MAX,
            old(engine)@.next_id < usize::MAX,
        ensures
            final(self)@.relative_frequencies.len() == old(self)@.relative_frequencies.len() + 1,
            ({
                let voice = final(self)@.relative_frequencies.last().1;
                &&& final(self)@ == old(self)@.add_relative_frequency(
                    relative_frequency@,
                    voice.frequency,
                    voice.volume_multiplier,
                    old(engine)@.next_id as usize,
                )
                &&& final(engine)@ == (if voice.oscillator_id is Some {
                    old(engine)@.add(voice.frequency, voice.volume_multiplier)
                } else {
                    old(engine)@
                })
                &&& effects@ == opening_effects(old(self)@.global_frequencies, voice)
            }),
    {
        proof {
            use_type_invariant(&*self);
            self.lemma_view();
            assert(self@.global_frequencies =~= views(self.global_frequencies@));
        }
        let (voice, effects) = Self::initialize_oscillator(
            engine,
            &self.global_frequencies,
            &relative_frequency,
        );
        let n = self.relative_frequencies.len();
        let latest_id: usize = if n == 0 {
            0
        } else {
            self.relative_frequencies[n - 1].0 + 1
        };
        let ghost added = voice@;
        let mut list: Vec<(usize, Voice)> = Vec::new();
        std::mem::swap(&mut self.relative_frequencies, &mut list);
        list.push((latest_id, voice));
        std::mem::swap(&mut self.relative_frequencies, &mut list);
        assert(self@.relative_frequencies =~= old(self)@.relative_frequencies.push(
            (latest_id, added),
        ));
        assert(self@.global_frequencies =~= old(self)@.global_frequencies);
        effects
    }

    /// Hands the message to the voice under `id` and brings the engine in
    /// line with it. Without such a voice nothing happens.
    pub fn update_relative_frequency(
        &mut self,
        engine: &mut AudioEngine,
        id: usize,
        message: RelativeFrequencyMessage,
    ) -> (effects: Vec<Effect>)
        requires
            old(engine)@.next_id < usize::MAX,
        ensures
            final(self)@ == old(self)@.update_relative_frequency(old(engine)@, id, message).state,
            final(engine)@ == old(self)@.update_relative_frequency(
                old(engine)@,
                id,
                message,
            ).engine,
            effects@ == old(self)@.update_relative_frequency(old(engine)@, id, message).effects,
    {
        proof {
            use_type_invariant(&*self);
            self.lemma_view();
        }
        let mut effects: Vec<Effect> = Vec::new();
        let place = match find(&self.relative_frequencies, id) {
            Some(place) => place,
            None => {
                return effects;
            },
        };
        proof {
            lemma_place_of(self@.relative_frequencies, place as int);
        }
        let mut list: Vec<(usize, Voice)> = Vec::new();
        std::mem::swap(&mut self.relative_frequencies, &mut list);
        let oscillator_id = match list[place].1.oscillator_id {
            Some(oscillator_id) => oscillator_id,
            None => {
                let oscillator_id = engine.add_oscillator(
                    list[place].1.frequency.clone(),
                    list[place].1.volume_multiplier.clone(),
                );
                list[place].1.oscillator_id = Some(oscillator_id);
                oscillator_id
            },
        };
        let state_update = list[place].1.relative_frequency.update(message);
        match state_update {
            Some(RelativeFrequencyStateUpdate::FrequencyUpdated) => {
                let base = list[place].1.relative_frequency.absolute_frequency_id();
                proof {
                    if has_key(self.global_frequencies@, base) {
                        lemma_place_of(
                            self@.global_frequencies,
                            place_of(self.global_frequencies@, base),
                        );
                    }
                }
                match find(&self.global_frequencies, base) {
                    Some(global) => {
                        effects.push(
                            Effect::Tune {
                                frequency: list[place].1.frequency.clone(),
                                base: self.global_frequencies[global].1.frequency(),
                                ratio: list[place].1.relative_frequency.ratio(),
                            },
                        );
                    },
                    None => {
                        engine.remove_oscillator(&oscillator_id);
                        list[place].1.oscillator_id = None;
                    },
                }
            },
            Some(RelativeFrequencyStateUpdate::VolumeUpdated) => {
                effects.push(
                    Effect::Scale {
                        volume_multiplier: list[place].1.volume_multiplier.clone(),
                        volume: Volume::new(list[place].1.relative_frequency.volume()).get(),
                    },
                );
            },
            None => {},
        }
        std::mem::swap(&mut self.relative_frequencies, &mut list);
        proof {
            let outcome = old(self)@.update_relative_frequency(old(engine)@, id, message);
            assert(self@.global_frequencies =~= old(self)@.global_frequencies);
            assert(self@.relative_frequencies =~= outcome.state.relative_frequencies);
            assert(effects@ =~= outcome.effects);
        }
        effects
    }

    /// Deletes the voice under `id`, and its oscillator where it has one.
    /// Without such a voice nothing happens.
    pub fn delete_relative_frequency(&mut self, engine: &mut AudioEngine, id: usize)
        ensures
            final(self)@ == old(self)@.delete_relative_frequency(id),
            final(engine)@ == old(self)@.delete_relative_frequency_engine(old(engine)@, id),
    {
        proof {
            use_type_invariant(&*self);
            self.lemma_view();
        }
        let place = match find(&self.relative_frequencies, id) {
            Some(place) => place,
            None => {
                return ;
            },
        };
        proof {
            lemma_place_of(self@.relative_frequencies, place as int);
        }
        let mut list: Vec<(usize, Voice)> = Vec::new();
        std::mem::swap(&mut self.relative_frequencies, &mut list);
        let (_, voice) = list.remove(place);
        proof {
            assert forall|i: int, j: int| 0 <= i < j < list@.len() implies list@[i].0
                < list@[j].0 by {
                let a = if i < place { i } else { i + 1 };
                let b = if j < place { j } else { j + 1 };
                assert(list@[i] == old(self).relative_frequencies@[a]);
                assert(list@[j] == old(self).relative_frequencies@[b]);
            }
        }
        std::mem::swap(&mut self.relative_frequencies, &mut list);
        assert(self@.relative_frequencies =~= old(self)@.delete_relative_frequency(
            id,
        ).relative_frequencies);
        assert(self@.global_frequencies =~= old(self)@.global_frequencies);
        if let Some(oscillator_id) = voice.oscillator_id {
            engine.remove_oscillator(&oscillator_id);
        }
    }

    /// If an error occurs, run it through this function to display it to
    /// the user.
    pub fn set_error(&mut self, error: FileError)
        ensures
            final(self)@ == old(self)@.set_error(error),
    {
        proof {
            use_type_invariant(&*self);
        }
        match error {
            FileError::FileDialogClosed => {},
            FileError::IO | FileError::Postcard => {
                self.current_error = Some(error);
            },
        }
    }

    /// The failure that is on display, if any.
    pub fn current_error(&self) -> (r: Option<FileError>)
        ensures
            r == self@.current_error,
    {
        self.current_error
    }

    /// The window title, with `path` for the path of the open file.
    pub fn title(&self, path: &str) -> (r: String)
        ensures
            r@ == title_of(self@.file, path@),
    {
        let mut r = String::new();
        let saved = match self.file {
            Some(saved) => saved,
            None => false,
        };
        if !saved {
            r.push_str("*");
        }
        r.push_str("Harmony playground - ");
        if self.file.is_some() {
            r.push_str(path);
        } else {
            r.push_str("New file");
        }
        proof {
            reveal_strlit("");
            assert(r@ =~= title_of(self@.file, path@));
        }
        r
    }

    /// Decides whether the machine's integers can take the message.
    pub fn admits(&self, engine: &AudioEngine, message: &Message) -> (r: bool)
        ensures
            r == self@.admits(engine@, *message),
    {
        proof {
            use_type_invariant(self);
            self.lemma_view();
        }
        match message {
            Message::AddGlobalFrequency => {
                let n = self.global_frequencies.len();
                n == 0 || self.global_frequencies[n - 1].0 < usize::MAX
            },
            Message::AddRelativeFrequency => {
                let n = self.relative_frequencies.len();
                (n == 0 || self.relative_frequencies[n - 1].0 < usize::MAX) && engine.next_id()
                    < usize::MAX
            },
            Message::RelativeFrequencyUpdated { .. } => engine.next_id() < usize::MAX,
            Message::SaveLoaded(Ok(save)) => is_ascending(&save.global_frequencies)
                && save.relative_frequencies.len() <= usize::MAX - engine.next_id(),
            _ => true,
        }
    }

    /// Takes a message of the control surface in: edits the project, brings
    /// the engine in line with it, and hands back the writes that are left
    /// to do and what is asked of the surroundings.
    pub fn update(&mut self, engine: &mut AudioEngine, message: Message) -> (r: (
        Vec<Effect>,
        Request,
    ))
        requires
            old(self)@.admits(old(engine)@, message),
        ensures
            old(self)@.updated(old(engine)@, message, final(self)@, final(engine)@, r.0@, r.1),
    {
        match message {
            Message::GlobalFrequencyUpdated { id, message } => {
                let effects = self.update_global_frequency(id, message);
                self.unsave();
                (effects, Request::Nothing)
            },
            Message::RelativeFrequencyUpdated { id, message } => {
                let effects = self.update_relative_frequency(engine, id, message);
                self.unsave();
                (effects, Request::Nothing)
            },
            Message::RelativeFrequencyDeleted(id) => {
                self.delete_relative_frequency(engine, id);
                self.unsave();
                (Vec::new(), Request::Nothing)
            },
            Message::AddGlobalFrequency => {
                self.add_global_frequency(NEW_GLOBAL_FREQUENCY);
                self.unsave();
                (Vec::new(), Request::Nothing)
            },
            Message::AddRelativeFrequency => {
                let effects = self.add_relative_frequency(
                    engine,
                    RelativeFrequency::new(0, Ratio::new(1, 1), NEW_VOLUME),
                );
                self.unsave();
                (effects, Request::Nothing)
            },
            Message::WaveFormUpdated(waveform) => {
                self.set_waveform(engine, waveform);
                self.unsave();
                (Vec::new(), Request::Nothing)
            },
            Message::VolumeUpdated(volume) => {
                self.set_volume(engine, volume);
                self.unsave();
                (Vec::new(), Request::Nothing)
            },
            Message::PlayPressed => {
                engine.play();
                (Vec::new(), Request::Nothing)
            },
            Message::StopPressed => {
                engine.stop();
                (Vec::new(), Request::Nothing)
            },
            Message::NewFile => {
                if !self.is_loading {
                    engine.reset();
                    *self = Self::new(engine);
                }
                (Vec::new(), Request::Nothing)
            },
            Message::SaveFile => {
                if self.begin_loading() {
                    let save = self.to_save();
                    (Vec::new(), Request::Save(save))
                } else {
                    (Vec::new(), Request::Nothing)
                }
            },
            Message::OpenFile => {
                if self.begin_loading() {
                    (Vec::new(), Request::Open)
                } else {
                    (Vec::new(), Request::Nothing)
                }
            },
            Message::SaveLoaded(Ok(save)) => {
                let (state, effects) = Self::from_save(engine, save, true);
                *self = state;
                (effects, Request::Nothing)
            },
            Message::SaveLoaded(Err(error)) => {
                self.end_loading(false);
                self.set_error(error);
                (Vec::new(), Request::Nothing)
            },
            Message::StateSaved(Ok(_)) => {
                self.end_loading(true);
                (Vec::new(), Request::Nothing)
            },
            Message::StateSaved(Err(error)) => {
                self.end_loading(false);
                self.set_error(error);
                (Vec::new(), Request::Nothing)
            },
        }
    }

    /// The waveform of the project.
    pub fn waveform(&self) -> (r: WaveForm)
        ensures
            r == self@.waveform,
    {
        self.waveform
    }

    /// The gain of the project.
    pub fn volume(&self) -> (r: Volume)
        ensures
            r@ == self@.volume,
    {
        self.volume
    }

    /// The base frequencies, each under its key, in ascending order of key.
    pub fn global_frequencies(&self) -> (r: &Vec<(usize, GlobalFrequency)>)
        ensures
            r@.len() == self@.global_frequencies.len(),
            forall|i: int|
                0 <= i < r@.len() ==> self@.global_frequencies[i] == (r@[i].0, r@[i].1@),
            self@.wf(),
    {
        proof {
            use_type_invariant(self);
            self.lemma_view();
        }
        &self.global_frequencies
    }

    /// The voices, each under its key, in ascending order of key.
    pub fn relative_frequencies(&self) -> (r: &Vec<(usize, Voice)>)
        ensures
            r@.len() == self@.relative_frequencies.len(),
            forall|i: int|
                0 <= i < r@.len() ==> self@.relative_frequencies[i] == (r@[i].0, r@[i].1@),
            self@.wf(),
    {
        proof {
            use_type_invariant(self);
            self.lemma_view();
        }
        &self.relative_frequencies
    }

    /// Whether a file is being read or written.
    pub fn is_loading(&self) -> (r: bool)
        ensures
            r == self@.is_loading,
    {
        self.is_loading
    }

    /// Whether a file is open, and if so whether it holds what the project
    /// holds.
    pub fn file(&self) -> (r: Option<bool>)
        ensures
            r == self@.file,
    {
        self.file
    }

    /// Asks to read or write a file. Granted unless one is being read or
    /// written already; from then on one is.
    pub fn begin_loading(&mut self) -> (granted: bool)
        ensures
            granted == !old(self)@.is_loading,
            final(self)@ == (StateView { is_loading: true, ..old(self)@ }),
    {
        proof {
            use_type_invariant(&*self);
        }
        let granted = !self.is_loading;
        self.is_loading = true;
        granted
    }

    /// The file was read or written, or was not: none is any more, and after
    /// a success a file is open that holds what the project holds.
    pub fn end_loading(&mut self, done: bool)
        ensures
            final(self)@ == (StateView {
                is_loading: false,
                file: if done {
                    Some(true)
                } else {
                    old(self)@.file
                },
                ..old(self)@
            }),
    {
        proof {
            use_type_invariant(&*self);
        }
        self.is_loading = false;
        if done {
            self.file = Some(true);
        }
    }
}

} // verus!
