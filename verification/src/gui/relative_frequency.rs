//! A voice of the control surface: a ratio over one of the base frequencies.
use vstd::prelude::*;

verus! {

/// A struct for storing a mathematical ratio.
#[derive(Debug, Clone, Copy)]
pub struct Ratio {
    pub numerator: u32,
    pub denominator: u32,
}

#[derive(Debug, Clone, Copy)]
pub enum RatioMessage {
    NumeratorUpdated(u32),
    DenominatorUpdated(u32),
}

impl Ratio {
    pub fn new(numerator: u32, denominator: u32) -> (r: Self)
        ensures
            r == (Ratio { numerator, denominator }),
    {
        Self { numerator, denominator }
    }

    /// The ratio after the message: the part that the message names is
    /// replaced, the other one stays.
    pub open spec fn updated(self, message: RatioMessage) -> Self {
        match message {
            RatioMessage::NumeratorUpdated(n) => Ratio { numerator: n, ..self },
            RatioMessage::DenominatorUpdated(n) => Ratio { denominator: n, ..self },
        }
    }

    pub fn update(&mut self, message: RatioMessage)
        ensures
            *final(self) == old(self).updated(message),
    {
        match message {
            RatioMessage::NumeratorUpdated(n) => {
                self.numerator = n;
            },
            RatioMessage::DenominatorUpdated(n) => {
                self.denominator = n;
            },
        }
    }
}

/// What a change to a relative frequency asks of the audio engine.
#[derive(Debug, Clone, Copy)]
pub enum RelativeFrequencyStateUpdate {
    FrequencyUpdated,
    VolumeUpdated,
}

#[derive(Debug, Clone, Copy)]
pub enum RelativeFrequencyMessage {
    AbsoluteFrequencyIdUpdated(usize),
    RatioUpdated(RatioMessage),
    VolumeUpdated(u32),
    Deleted,
}

/// What a relative frequency holds, as a mathematical value.
pub struct RelativeFrequencyState {
    pub absolute_frequency_id: usize,
    pub ratio: Ratio,
    pub volume: u32,
}

impl RelativeFrequencyState {
    /// The relative frequency after the message. `Deleted` changes nothing:
    /// the owner of the list takes the entry out.
    pub open spec fn updated(self, message: RelativeFrequencyMessage) -> Self {
        match message {
            RelativeFrequencyMessage::AbsoluteFrequencyIdUpdated(id) => RelativeFrequencyState {
                absolute_frequency_id: id,
                ..self
            },
            RelativeFrequencyMessage::RatioUpdated(message) => RelativeFrequencyState {
                ratio: self.ratio.updated(message),
                ..self
            },
            RelativeFrequencyMessage::VolumeUpdated(volume) => RelativeFrequencyState {
                volume,
                ..self
            },
            RelativeFrequencyMessage::Deleted => self,
        }
    }
}

/// What the message asks of the audio engine: a new frequency for the voice
/// where the base or the ratio changed, a new volume multiplier where the
/// volume changed, nothing for `Deleted`.
pub open spec fn state_update_of(message: RelativeFrequencyMessage) -> Option<
    RelativeFrequencyStateUpdate,
> {
    match message {
        RelativeFrequencyMessage::AbsoluteFrequencyIdUpdated(_) => Some(
            RelativeFrequencyStateUpdate::FrequencyUpdated,
        ),
        RelativeFrequencyMessage::RatioUpdated(_) => Some(
            RelativeFrequencyStateUpdate::FrequencyUpdated,
        ),
        RelativeFrequencyMessage::VolumeUpdated(_) => Some(
            RelativeFrequencyStateUpdate::VolumeUpdated,
        ),
        RelativeFrequencyMessage::Deleted => None,
    }
}

/// A frequency relative to a global frequency: the id of the base, the ratio
/// over it, and a logarithmic volume (a single-precision encoding).
#[derive(Clone, Copy, Debug)]
pub struct RelativeFrequency {
    absolute_frequency_id: usize,
    ratio: Ratio,
    volume: u32,
}

impl View for RelativeFrequency {
    type V = RelativeFrequencyState;

    closed spec fn view(&self) -> RelativeFrequencyState {
        RelativeFrequencyState {
            absolute_frequency_id: self.absolute_frequency_id,
            ratio: self.ratio,
            volume: self.volume,
        }
    }
}

impl RelativeFrequency {
    pub fn new(absolute_frequency_id: usize, ratio: Ratio, volume: u32) -> (r: Self)
        ensures
            r@ == (RelativeFrequencyState { absolute_frequency_id, ratio, volume }),
    {
        Self { absolute_frequency_id, ratio, volume }
    }

    pub fn volume(&self) -> (r: u32)
        ensures
            r == self@.volume,
    {
        self.volume
    }

    pub fn absolute_frequency_id(&self) -> (r: usize)
        ensures
            r == self@.absolute_frequency_id,
    {
        self.absolute_frequency_id
    }

    pub fn ratio(&self) -> (r: Ratio)
        ensures
            r == self@.ratio,
    {
        self.ratio
    }

    /// Takes the message in and says what it asks of the audio engine.
    pub fn update(&mut self, message: RelativeFrequencyMessage) -> (r: Option<
        RelativeFrequencyStateUpdate,
    >)
        ensures
            final(self)@ == old(self)@.updated(message),
            r == state_update_of(message),
    {
        match message {
            RelativeFrequencyMessage::AbsoluteFrequencyIdUpdated(id) => {
                self.absolute_frequency_id = id;
                Some(RelativeFrequencyStateUpdate::FrequencyUpdated)
            },
            RelativeFrequencyMessage::RatioUpdated(message) => {
                self.ratio.update(message);
                Some(RelativeFrequencyStateUpdate::FrequencyUpdated)
            },
            RelativeFrequencyMessage::VolumeUpdated(new_volume) => {
                self.volume = new_volume;
                Some(RelativeFrequencyStateUpdate::VolumeUpdated)
            },
            RelativeFrequencyMessage::Deleted => None,
        }
    }
}

} // verus!
