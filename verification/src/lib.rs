//! Core of an additive wavetable synthesizer: voices, their registry and the
//! parameters a control surface shares with the audio thread.
//!
//! Sample arithmetic is IEEE 754 single precision, which the verifier does not
//! model. The library therefore carries every such value by its 32-bit
//! encoding and proves what is decided on encodings (ordering, clamping,
//! identity, which voice holds what); the arithmetic itself is left to the
//! caller.
use std::collections::HashSet;
use vstd::prelude::*;

pub mod audio;
pub mod gui;

verus! {

/// Number of samples in one period of a wavetable.
pub const WAVETABLE_SIZE: usize = 1024;

/// A set of frequencies that sound together.
#[derive(Debug)]
pub struct Chord(HashSet<Frequency>);

/// A frequency in Hz, as a single-precision encoding.
#[derive(Debug, Clone, Copy)]
pub struct AbsoluteFrequency(pub u32);

/// A frequency given by a base, alone or scaled by a ratio.
#[derive(Debug)]
pub struct Frequency {
    base: AbsoluteFrequency,
    ratio: Option<Ratio>,
}

impl Frequency {
    pub closed spec fn spec_base(&self) -> AbsoluteFrequency {
        self.base
    }

    pub closed spec fn spec_ratio(&self) -> Option<Ratio> {
        self.ratio
    }

    /// The frequency `frequency` itself.
    pub fn absolute(frequency: AbsoluteFrequency) -> (r: Self)
        ensures
            r.spec_base() == frequency,
            r.spec_ratio() is None,
    {
        Self { base: frequency, ratio: None }
    }

    /// The frequency `base` scaled by `ratio`.
    pub fn ratio(base: AbsoluteFrequency, ratio: Ratio) -> (r: Self)
        ensures
            r.spec_base() == base,
            r.spec_ratio() == Some(ratio),
    {
        Self { base, ratio: Some(ratio) }
    }

    /// The base frequency.
    pub fn base(&self) -> (r: AbsoluteFrequency)
        ensures
            r == self.spec_base(),
    {
        self.base
    }

    /// The ratio the base is scaled by, if any.
    pub fn scale(&self) -> (r: Option<Ratio>)
        ensures
            r == self.spec_ratio(),
    {
        self.ratio
    }
}

/// A ratio of two whole numbers.
#[derive(Debug, Clone, Copy)]
pub struct Ratio {
    numerator: u32,
    denominator: u32,
}

impl Ratio {
    pub closed spec fn spec_numerator(&self) -> u32 {
        self.numerator
    }

    pub closed spec fn spec_denominator(&self) -> u32 {
        self.denominator
    }

    pub fn new(numerator: u32, denominator: u32) -> (r: Self)
        ensures
            r.spec_numerator() == numerator,
            r.spec_denominator() == denominator,
    {
        Self { numerator, denominator }
    }

    pub fn numerator(&self) -> (r: u32)
        ensures
            r == self.spec_numerator(),
    {
        self.numerator
    }

    pub fn denominator(&self) -> (r: u32)
        ensures
            r == self.spec_denominator(),
    {
        self.denominator
    }
}

} // verus!
