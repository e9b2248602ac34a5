use harmony_playground::gui::error::Error;
use harmony_playground::gui::global_frequency::{GlobalFrequency, GlobalFrequencyMessage};
use harmony_playground::gui::relative_frequency::{
    Ratio, RatioMessage, RelativeFrequency, RelativeFrequencyMessage,
    RelativeFrequencyStateUpdate,
};
use harmony_playground::gui::save_dialog::{SaveDialog, SaveDialogMessage};
use harmony_playground::{AbsoluteFrequency, Frequency};

#[test]
fn ratio_new_holds_both_parts() {
    let ratio = Ratio::new(3, 2);
    assert_eq!((ratio.numerator, ratio.denominator), (3, 2));
}

#[test]
fn ratio_update_replaces_the_named_part() {
    let mut ratio = Ratio::new(3, 2);
    ratio.update(RatioMessage::NumeratorUpdated(5));
    assert_eq!((ratio.numerator, ratio.denominator), (5, 2));
    ratio.update(RatioMessage::DenominatorUpdated(4));
    assert_eq!((ratio.numerator, ratio.denominator), (5, 4));
}

#[test]
fn root_ratio_holds_both_parts() {
    let ratio = harmony_playground::Ratio::new(7, 4);
    assert_eq!((ratio.numerator(), ratio.denominator()), (7, 4));
}

#[test]
fn frequency_absolute_has_no_ratio() {
    let f = Frequency::absolute(AbsoluteFrequency(440.0f32.to_bits()));
    assert_eq!(f.base().0, 440.0f32.to_bits());
    assert!(f.scale().is_none());
}

#[test]
fn frequency_ratio_has_its_ratio() {
    let f = Frequency::ratio(
        AbsoluteFrequency(440.0f32.to_bits()),
        harmony_playground::Ratio::new(3, 2),
    );
    assert_eq!(f.base().0, 440.0f32.to_bits());
    let ratio = f.scale().unwrap();
    assert_eq!((ratio.numerator(), ratio.denominator()), (3, 2));
}

#[test]
fn global_frequency_update_takes_the_frequency_and_keeps_the_id() {
    let mut g = GlobalFrequency::new(3, 42.0f32.to_bits());
    assert_eq!(g.id(), 3);
    assert_eq!(g.frequency(), 42.0f32.to_bits());
    g.update(GlobalFrequencyMessage::FrequencyUpdated(440.0f32.to_bits()));
    assert_eq!(g.id(), 3);
    assert_eq!(g.frequency(), 440.0f32.to_bits());
}

#[test]
fn relative_frequency_new_holds_its_parts() {
    let r = RelativeFrequency::new(1, Ratio::new(3, 2), (-2.0f32).to_bits());
    assert_eq!(r.absolute_frequency_id(), 1);
    assert_eq!((r.ratio().numerator, r.ratio().denominator), (3, 2));
    assert_eq!(r.volume(), (-2.0f32).to_bits());
}

#[test]
fn relative_frequency_id_update_asks_for_a_new_frequency() {
    let mut r = RelativeFrequency::new(1, Ratio::new(3, 2), (-2.0f32).to_bits());
    let update = r.update(RelativeFrequencyMessage::AbsoluteFrequencyIdUpdated(4));
    assert!(matches!(update, Some(RelativeFrequencyStateUpdate::FrequencyUpdated)));
    assert_eq!(r.absolute_frequency_id(), 4);
    assert_eq!((r.ratio().numerator, r.ratio().denominator), (3, 2));
    assert_eq!(r.volume(), (-2.0f32).to_bits());
}

#[test]
fn relative_frequency_ratio_update_asks_for_a_new_frequency() {
    let mut r = RelativeFrequency::new(1, Ratio::new(3, 2), (-2.0f32).to_bits());
    let update =
        r.update(RelativeFrequencyMessage::RatioUpdated(RatioMessage::DenominatorUpdated(5)));
    assert!(matches!(update, Some(RelativeFrequencyStateUpdate::FrequencyUpdated)));
    assert_eq!((r.ratio().numerator, r.ratio().denominator), (3, 5));
    assert_eq!(r.absolute_frequency_id(), 1);
}

#[test]
fn relative_frequency_volume_update_asks_for_a_new_volume() {
    let mut r = RelativeFrequency::new(1, Ratio::new(3, 2), (-2.0f32).to_bits());
    let update = r.update(RelativeFrequencyMessage::VolumeUpdated((-6.0f32).to_bits()));
    assert!(matches!(update, Some(RelativeFrequencyStateUpdate::VolumeUpdated)));
    assert_eq!(r.volume(), (-6.0f32).to_bits());
    assert_eq!(r.absolute_frequency_id(), 1);
}

#[test]
fn relative_frequency_deleted_changes_nothing_and_asks_nothing() {
    let mut r = RelativeFrequency::new(1, Ratio::new(3, 2), (-2.0f32).to_bits());
    let update = r.update(RelativeFrequencyMessage::Deleted);
    assert!(update.is_none());
    assert_eq!(r.absolute_frequency_id(), 1);
    assert_eq!((r.ratio().numerator, r.ratio().denominator), (3, 2));
    assert_eq!(r.volume(), (-2.0f32).to_bits());
}

#[test]
fn plain_types_can_be_made() {
    let _ = SaveDialog;
    let answers = [
        SaveDialogMessage::CancelPressed,
        SaveDialogMessage::DontSavePressed,
        SaveDialogMessage::SavePressed,
    ];
    assert_eq!(answers.len(), 3);
    let e = Error::MismatchedFrequencyIds { global_frequency_id: 1, relative_frequency_id: 2 };
    assert!(matches!(e, Error::MismatchedFrequencyIds { global_frequency_id: 1, relative_frequency_id: 2 }));
    assert!(matches!(Error::InvalidGlobalFrequencyId(9), Error::InvalidGlobalFrequencyId(9)));
}
