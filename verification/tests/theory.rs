use harmony_playground::audio::theory::{Note, NoteName};

#[test]
fn from_index_and_get_str_cover_the_twelve_notes() {
    let names = ["C", "C#", "D", "D#", "E", "F", "F#", "G", "G#", "A", "A#", "B"];
    for (i, name) in names.iter().enumerate() {
        assert_eq!(NoteName::from_index(i as isize).get_str(), *name);
    }
}

#[test]
fn from_index_gives_the_variants() {
    assert_eq!(NoteName::from_index(0), NoteName::C);
    assert_eq!(NoteName::from_index(1), NoteName::CSharp);
    assert_eq!(NoteName::from_index(9), NoteName::A);
    assert_eq!(NoteName::from_index(11), NoteName::B);
}

#[test]
fn half_steps_above_c4() {
    let a4 = Note::from_half_steps(9, 0);
    assert_eq!(a4.note_name(), NoteName::A);
    assert_eq!(a4.octave(), 4);
    let c5 = Note::from_half_steps(12, 0);
    assert_eq!(c5.note_name(), NoteName::C);
    assert_eq!(c5.octave(), 5);
    let b4 = Note::from_half_steps(11, 0);
    assert_eq!(b4.note_name(), NoteName::B);
    assert_eq!(b4.octave(), 4);
}

#[test]
fn half_steps_below_c4() {
    let b3 = Note::from_half_steps(-1, 0);
    assert_eq!(b3.note_name(), NoteName::B);
    assert_eq!(b3.octave(), 3);
    let c3 = Note::from_half_steps(-12, 0);
    assert_eq!(c3.note_name(), NoteName::C);
    assert_eq!(c3.octave(), 3);
    let b2 = Note::from_half_steps(-13, 0);
    assert_eq!(b2.note_name(), NoteName::B);
    assert_eq!(b2.octave(), 2);
    let a0 = Note::from_half_steps(-39, 0);
    assert_eq!(a0.note_name(), NoteName::A);
    assert_eq!(a0.octave(), 0);
}

#[test]
fn octave_at_the_ends_of_its_range() {
    assert_eq!(Note::from_half_steps(1487, 0).octave(), 127);
    assert_eq!(Note::from_half_steps(1487, 0).note_name(), NoteName::B);
    assert_eq!(Note::from_half_steps(-128 * 12, 0).octave(), -124);
    assert_eq!(Note::from_half_steps(-128 * 12 - 1, 0).octave(), -124);
    assert_eq!(Note::from_half_steps(isize::MIN, 0).octave(), -124);
}

#[test]
fn half_steps_agree_with_the_conversion_from_a_frequency() {
    for frequency in [16.0f32, 27.5, 220.0, 261.635_56, 440.0, 1000.0, 19999.0] {
        let ratio_log_2 = (frequency / 261.635_56).log2();
        let closest = (ratio_log_2 * 12.0).round();
        let cents = ratio_log_2 * 1200.0 - closest * 100.0;
        let note = Note::from_half_steps(closest as isize, cents.to_bits());
        assert_eq!(note.note_name().get_str(), NoteName::from_index((closest as isize).rem_euclid(12)).get_str());
        assert_eq!(note.octave(), 4 + (closest / 12.0).floor() as i8, "{frequency}");
        assert_eq!(note.cent_offset(), cents.to_bits());
    }
}

#[test]
fn cent_offset_is_kept() {
    let note = Note::from_half_steps(0, 12.5f32.to_bits());
    assert_eq!(f32::from_bits(note.cent_offset()), 12.5);
}

#[test]
fn sign_of_a_deviation() {
    assert_eq!(Note::sign(0.0f32.to_bits()), "");
    assert_eq!(Note::sign((-0.0f32).to_bits()), "");
    assert_eq!(Note::sign(3.0f32.to_bits()), "+");
    assert_eq!(Note::sign((-3.0f32).to_bits()), "-");
    assert_eq!(Note::sign(f32::INFINITY.to_bits()), "+");
    assert_eq!(Note::sign(f32::NEG_INFINITY.to_bits()), "-");
}

#[test]
fn sign_agrees_with_the_hardware() {
    for cents in [0.0f32, -0.0, 1.0, -1.0, 49.0, -50.0, f32::NAN, -f32::NAN] {
        let want = if cents == 0.0 {
            ""
        } else if cents.is_sign_positive() {
            "+"
        } else {
            "-"
        };
        assert_eq!(Note::sign(cents.to_bits()), want, "{cents}");
    }
}
