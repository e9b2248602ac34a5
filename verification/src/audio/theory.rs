//! Note names of twelve-tone equal temperament.
use super::single::{is_same_value, same_value, is_negative, SIGN, ZERO};
use vstd::prelude::*;

verus! {

/// `isize::rem_euclid` of std: the least non-negative remainder of `a` modulo
/// `b`. It panics where `b` is zero or the division overflows.
pub assume_specification[ isize::rem_euclid ](a: isize, b: isize) -> (r: isize)
    requires
        b != 0,
        !(a == isize::MIN && b == -1),
    ensures
        r == (a as int) % (b as int),
;

/// `isize::div_euclid` of std: the quotient that belongs to `rem_euclid`, so
/// that `a == r * b + a.rem_euclid(b)`. It panics where `b` is zero or the
/// division overflows.
pub assume_specification[ isize::div_euclid ](a: isize, b: isize) -> (r: isize)
    requires
        b != 0,
        !(a == isize::MIN && b == -1),
    ensures
        r == (a as int) / (b as int),
;

/// A 12-TET note.
#[derive(Debug, Clone, Copy, PartialEq, Eq, Structural)]
pub enum NoteName {
    C,
    CSharp,
    D,
    DSharp,
    E,
    F,
    FSharp,
    G,
    GSharp,
    A,
    ASharp,
    B,
}

impl NoteName {
    /// The number of half steps from C up to the note.
    pub open spec fn index(self) -> int {
        match self {
            NoteName::C => 0,
            NoteName::CSharp => 1,
            NoteName::D => 2,
            NoteName::DSharp => 3,
            NoteName::E => 4,
            NoteName::F => 5,
            NoteName::FSharp => 6,
            NoteName::G => 7,
            NoteName::GSharp => 8,
            NoteName::A => 9,
            NoteName::ASharp => 10,
            NoteName::B => 11,
        }
    }

    /// The note's written name.
    pub open spec fn name(self) -> Seq<char> {
        match self {
            NoteName::C => "C"@,
            NoteName::CSharp => "C#"@,
            NoteName::D => "D"@,
            NoteName::DSharp => "D#"@,
            NoteName::E => "E"@,
            NoteName::F => "F"@,
            NoteName::FSharp => "F#"@,
            NoteName::G => "G"@,
            NoteName::GSharp => "G#"@,
            NoteName::A => "A"@,
            NoteName::ASharp => "A#"@,
            NoteName::B => "B"@,
        }
    }

    /// The note that lies `i` half steps above C.
    pub fn from_index(i: isize) -> (r: Self)
        requires
            0 <= i < 12,
        ensures
            r.index() == i,
    {
        match i {
            0 => NoteName::C,
            1 => NoteName::CSharp,
            2 => NoteName::D,
            3 => NoteName::DSharp,
            4 => NoteName::E,
            5 => NoteName::F,
            6 => NoteName::FSharp,
            7 => NoteName::G,
            8 => NoteName::GSharp,
            9 => NoteName::A,
            10 => NoteName::ASharp,
            _ => NoteName::B,
        }
    }

    /// The note's written name.
    pub fn get_str(&self) -> (r: &'static str)
        ensures
            r@ == self.name(),
    {
        match self {
            NoteName::C => "C",
            NoteName::CSharp => "C#",
            NoteName::D => "D",
            NoteName::DSharp => "D#",
            NoteName::E => "E",
            NoteName::F => "F",
            NoteName::FSharp => "F#",
            NoteName::G => "G",
            NoteName::GSharp => "G#",
            NoteName::A => "A",
            NoteName::ASharp => "A#",
            NoteName::B => "B",
        }
    }
}

/// Two notes with the same number of half steps above C are the same note.
pub proof fn lemma_index_names_the_note(a: NoteName, b: NoteName)
    requires
        a.index() == b.index(),
    ensures
        a == b,
{
}

/// The largest number of half steps from C4 for which the octave still fits
/// its signed byte.
pub const MAX_HALF_STEPS: isize = 1487;

/// The octave of the note that lies `half_steps` half steps from C4, where
/// a signed byte holds it; below that range, the lowest octave a signed byte
/// reaches from the fourth.
pub open spec fn octave_of(half_steps: int) -> int {
    if half_steps / 12 < -128 {
        -124
    } else {
        4 + half_steps / 12
    }
}

/// The sign that is written before a deviation of `cents` from the note: none
/// for zero, `+` where the sign bit is clear, `-` where it is set.
pub open spec fn sign_of(cents: u32) -> Seq<char> {
    if same_value(cents, ZERO) {
        ""@
    } else if !is_negative(cents) {
        "+"@
    } else {
        "-"@
    }
}

/// A pitch as the nearest note, its octave and the deviation from it in
/// cents (a single-precision encoding).
pub struct Note {
    note_name: NoteName,
    octave: i8,
    cent_offset: u32,
}

impl Note {
    /// The note that lies `half_steps` half steps from C4, `cent_offset`
    /// cents off.
    pub fn from_half_steps(half_steps: isize, cent_offset: u32) -> (r: Self)
        requires
            half_steps <= MAX_HALF_STEPS,
        ensures
            r.spec_note_name().index() == half_steps % 12,
            r.spec_octave() == octave_of(half_steps as int),
            r.spec_cent_offset() == cent_offset,
    {
        let note_name = NoteName::from_index(half_steps.rem_euclid(12));
        let octaves = half_steps.div_euclid(12);
        let octave: i8 = if octaves < -128 {
            -124
        } else {
            4 + (octaves as i8)
        };
        Self { note_name, octave, cent_offset }
    }

    pub closed spec fn spec_note_name(&self) -> NoteName {
        self.note_name
    }

    pub closed spec fn spec_octave(&self) -> i8 {
        self.octave
    }

    pub closed spec fn spec_cent_offset(&self) -> u32 {
        self.cent_offset
    }

    /// The nearest note.
    pub fn note_name(&self) -> (r: NoteName)
        ensures
            r == self.spec_note_name(),
    {
        self.note_name
    }

    /// The octave the note lies in; C4 opens the fourth.
    pub fn octave(&self) -> (r: i8)
        ensures
            r == self.spec_octave(),
    {
        self.octave
    }

    /// The deviation from the note in cents.
    pub fn cent_offset(&self) -> (r: u32)
        ensures
            r == self.spec_cent_offset(),
    {
        self.cent_offset
    }

    /// The sign that is written before a deviation of `cents`, which is the
    /// deviation rounded to a whole number.
    pub fn sign(cents: u32) -> (r: &'static str)
        ensures
            r@ == sign_of(cents),
    {
        if is_same_value(cents, ZERO) {
            ""
        } else if cents < SIGN {
            "+"
        } else {
            "-"
        }
    }
}

} // verus!
