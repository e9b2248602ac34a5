//! A base frequency of the control surface.
use vstd::prelude::*;

verus! {

/// What a global frequency holds, as a mathematical value.
pub struct GlobalFrequencyState {
    pub id: usize,
    pub frequency: u32,
}

/// A base frequency, with the id that the user sees for it. The frequency is
/// in Hz, as a single-precision encoding.
#[derive(Clone, Copy)]
pub struct GlobalFrequency {
    id: usize,
    frequency: u32,
}

#[derive(Debug, Clone, Copy)]
pub enum GlobalFrequencyMessage {
    FrequencyUpdated(u32),
}

impl View for GlobalFrequency {
    type V = GlobalFrequencyState;

    closed spec fn view(&self) -> GlobalFrequencyState {
        GlobalFrequencyState { id: self.id, frequency: self.frequency }
    }
}

impl GlobalFrequencyState {
    /// The global frequency after the message: the frequency that the
    /// message brings, under the id it had.
    pub open spec fn updated(self, message: GlobalFrequencyMessage) -> Self {
        match message {
            GlobalFrequencyMessage::FrequencyUpdated(frequency) => GlobalFrequencyState {
                frequency,
                ..self
            },
        }
    }
}

impl GlobalFrequency {
    pub fn new(id: usize, frequency: u32) -> (r: Self)
        ensures
            r@ == (GlobalFrequencyState { id, frequency }),
    {
        Self { id, frequency }
    }

    /// Get the id of the global frequency.
    pub fn id(&self) -> (r: usize)
        ensures
            r == self@.id,
    {
        self.id
    }

    pub fn frequency(&self) -> (r: u32)
        ensures
            r == self@.frequency,
    {
        self.frequency
    }

    pub fn update(&mut self, message: GlobalFrequencyMessage)
        ensures
            final(self)@ == old(self)@.updated(message),
    {
        match message {
            GlobalFrequencyMessage::FrequencyUpdated(frequency) => {
                self.frequency = frequency;
            },
        }
    }
}

} // verus!
