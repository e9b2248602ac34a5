use harmony_playground::audio::engine::{
    AudioEngine, SharedFrequency, SharedVolumeMultiplier, Volume,
};
use harmony_playground::audio::synthesizer::WaveForm;

fn cells(frequency: f32, volume_multiplier: f32) -> (SharedFrequency, SharedVolumeMultiplier) {
    (
        SharedFrequency::new(frequency.to_bits()),
        SharedVolumeMultiplier::new(volume_multiplier.to_bits()),
    )
}

#[test]
fn volume_above_zero_becomes_unity() {
    for g in [0.1f32, 1.0, 2.5, 1.0e-40, f32::MAX, f32::INFINITY] {
        assert_eq!(f32::from_bits(Volume::new(g.to_bits()).get()), 0.0, "{g}");
        assert_eq!(Volume::new(g.to_bits()).get(), 0);
    }
}

#[test]
fn volume_at_or_below_zero_is_kept() {
    for g in [0.0f32, -0.0, -1.0, -4.0, -10.0, f32::MIN, f32::NEG_INFINITY] {
        assert_eq!(Volume::new(g.to_bits()).get(), g.to_bits(), "{g}");
    }
}

#[test]
fn volume_keeps_a_nan() {
    let nan = f32::NAN.to_bits();
    assert_eq!(Volume::new(nan).get(), nan);
}

#[test]
fn volume_agrees_with_the_hardware_clamp() {
    for g in [-3.5f32, -0.0, 0.0, 0.75, 12.0, f32::NEG_INFINITY, f32::INFINITY] {
        let want = g.clamp(f32::NEG_INFINITY, 0.0);
        assert_eq!(Volume::new(g.to_bits()).get(), want.to_bits(), "{g}");
    }
}

#[test]
fn volume_multiplier_write_is_clamped_to_the_unit_interval() {
    let cell = SharedVolumeMultiplier::new(0.5f32.to_bits());
    for v in [-1.0f32, -0.0, 0.0, 0.25, 1.0, 1.5, 100.0, f32::INFINITY, f32::NEG_INFINITY] {
        cell.set(v.to_bits());
        assert_eq!(cell.get(), v.clamp(0.0, 1.0).to_bits(), "{v}");
    }
}

#[test]
fn volume_multiplier_limit_exact_values() {
    assert_eq!(SharedVolumeMultiplier::limit(2.0f32.to_bits()), 1.0f32.to_bits());
    assert_eq!(SharedVolumeMultiplier::limit((-0.5f32).to_bits()), 0.0f32.to_bits());
    assert_eq!(SharedVolumeMultiplier::limit(0.3f32.to_bits()), 0.3f32.to_bits());
    let nan = f32::NAN.to_bits();
    assert_eq!(SharedVolumeMultiplier::limit(nan), nan);
}

#[test]
fn volume_multiplier_initial_value_is_stored_as_it_is() {
    let cell = SharedVolumeMultiplier::new(3.0f32.to_bits());
    assert_eq!(cell.get(), 3.0f32.to_bits());
}

#[test]
fn frequency_write_is_not_clamped() {
    let cell = SharedFrequency::new(440.0f32.to_bits());
    assert_eq!(cell.get(), 440.0f32.to_bits());
    for f in [0.0f32, -5.0, 20000.0, 1.0e9] {
        cell.set(f.to_bits());
        assert_eq!(cell.get(), f.to_bits());
    }
}

#[test]
fn a_cloned_cell_is_the_same_cell() {
    let frequency = SharedFrequency::new(440.0f32.to_bits());
    let other = frequency.clone();
    other.set(220.0f32.to_bits());
    assert_eq!(frequency.get(), 220.0f32.to_bits());
    let volume = SharedVolumeMultiplier::new(1.0f32.to_bits());
    let other = volume.clone();
    other.set(0.5f32.to_bits());
    assert_eq!(volume.get(), 0.5f32.to_bits());
}

#[test]
fn two_cells_are_independent() {
    let a = SharedFrequency::new(440.0f32.to_bits());
    let b = SharedFrequency::new(440.0f32.to_bits());
    a.set(1.0f32.to_bits());
    assert_eq!(b.get(), 440.0f32.to_bits());
}

fn shared_between_threads<T: Send + Sync>() {}

#[test]
fn cells_and_engine_can_be_shared_between_threads() {
    shared_between_threads::<SharedFrequency>();
    shared_between_threads::<SharedVolumeMultiplier>();
    shared_between_threads::<AudioEngine>();
}

#[test]
fn a_read_brings_the_initial_value_or_one_in_the_unit_interval() {
    let cell = SharedVolumeMultiplier::new(7.0f32.to_bits());
    assert_eq!(f32::from_bits(cell.get()), 7.0);
    let other = cell.clone();
    for v in [-3.0f32, 0.0, 0.5, 1.0, 7.0, 1.0e9] {
        other.set(v.to_bits());
        let read = f32::from_bits(cell.get());
        assert!((0.0..=1.0).contains(&read), "{v} was read as {read}");
        assert_eq!(read, v.clamp(0.0, 1.0));
    }
}

#[test]
fn a_written_nan_is_read_as_it_is() {
    let cell = SharedVolumeMultiplier::new(0);
    cell.set(f32::NAN.to_bits());
    assert_eq!(cell.get(), f32::NAN.to_bits());
}

#[test]
fn new_engine_is_stopped_and_empty() {
    let engine = AudioEngine::new(48000);
    assert!(!engine.is_playing());
    assert!(engine.get_oscillators().is_empty());
    assert_eq!(engine.next_id(), 0);
    assert_eq!(f32::from_bits(engine.get_volume().get()), -4.0);
}

#[test]
fn play_and_stop_switch_the_state() {
    let mut engine = AudioEngine::new(48000);
    engine.play();
    assert!(engine.is_playing());
    engine.play();
    assert!(engine.is_playing());
    engine.stop();
    assert!(!engine.is_playing());
}

#[test]
fn set_volume_is_read_back() {
    let mut engine = AudioEngine::new(48000);
    engine.set_volume(Volume::new((-1.0f32).to_bits()));
    assert_eq!(f32::from_bits(engine.get_volume().get()), -1.0);
    engine.set_volume(Volume::new(3.0f32.to_bits()));
    assert_eq!(f32::from_bits(engine.get_volume().get()), 0.0);
}

#[test]
fn voice_ids_start_at_zero_and_increase() {
    let mut engine = AudioEngine::new(48000);
    for want in 0..5usize {
        let (f, v) = cells(440.0, 1.0);
        assert_eq!(engine.add_oscillator(f, v), want);
    }
    let ids: Vec<usize> = engine.get_oscillators().iter().map(|(id, _)| *id).collect();
    assert_eq!(ids, vec![0, 1, 2, 3, 4]);
}

#[test]
fn voice_ids_are_not_reused_after_removal() {
    let mut engine = AudioEngine::new(48000);
    let (f, v) = cells(440.0, 1.0);
    let a = engine.add_oscillator(f.clone(), v.clone());
    let b = engine.add_oscillator(f.clone(), v.clone());
    engine.remove_oscillator(&b);
    engine.remove_oscillator(&a);
    let c = engine.add_oscillator(f.clone(), v.clone());
    assert_eq!((a, b, c), (0, 1, 2));
    engine.clear_oscillators();
    assert_eq!(engine.add_oscillator(f, v), 3);
}

#[test]
fn removing_an_unknown_id_changes_nothing() {
    let mut engine = AudioEngine::new(48000);
    let (f, v) = cells(440.0, 1.0);
    engine.add_oscillator(f.clone(), v.clone());
    engine.add_oscillator(f, v);
    engine.play();
    engine.advance(1, 0.25f32.to_bits());
    engine.remove_oscillator(&7);
    let voices = engine.get_oscillators();
    assert_eq!(voices.len(), 2);
    assert_eq!(voices[0].0, 0);
    assert_eq!(voices[1].0, 1);
    assert_eq!(voices[1].1.time(), 0.25f32.to_bits());
    assert_eq!(engine.next_id(), 2);
    assert!(engine.is_playing());
}

#[test]
fn removing_from_an_empty_engine_changes_nothing() {
    let mut engine = AudioEngine::new(48000);
    engine.remove_oscillator(&0);
    assert!(engine.get_oscillators().is_empty());
    assert_eq!(engine.next_id(), 0);
}

#[test]
fn removing_the_first_of_two_leaves_the_second() {
    let mut engine = AudioEngine::new(48000);
    let (fa, va) = cells(440.0, 1.0);
    let (fb, vb) = cells(660.0, 0.5);
    let a = engine.add_oscillator(fa, va);
    let b = engine.add_oscillator(fb.clone(), vb.clone());
    engine.remove_oscillator(&a);
    let voices = engine.get_oscillators();
    assert_eq!(voices.len(), 1);
    assert_eq!(voices[0].0, b);
    assert_eq!(voices[0].1.frequency().get(), 660.0f32.to_bits());
    assert_eq!(voices[0].1.volume_multiplier().get(), 0.5f32.to_bits());
    fb.set(330.0f32.to_bits());
    assert_eq!(engine.get_oscillators()[0].1.frequency().get(), 330.0f32.to_bits());
}

#[test]
fn removing_a_middle_voice_keeps_the_order() {
    let mut engine = AudioEngine::new(48000);
    for _ in 0..4 {
        let (f, v) = cells(440.0, 1.0);
        engine.add_oscillator(f, v);
    }
    engine.remove_oscillator(&1);
    let ids: Vec<usize> = engine.get_oscillators().iter().map(|(id, _)| *id).collect();
    assert_eq!(ids, vec![0, 2, 3]);
}

#[test]
fn a_new_voice_starts_at_phase_zero_with_the_template_waveform() {
    let mut engine = AudioEngine::new(44100);
    let (f, v) = cells(440.0, 1.0);
    engine.add_oscillator(f, v);
    let voice = &engine.get_oscillators()[0].1;
    assert_eq!(voice.time(), 0.0f32.to_bits());
    assert_eq!(voice.wavetable(), WaveForm::Sine);
    assert_eq!(voice.sample_rate(), 44100);
}

#[test]
fn set_waveform_reaches_every_voice_and_later_ones() {
    let mut engine = AudioEngine::new(48000);
    for _ in 0..3 {
        let (f, v) = cells(440.0, 1.0);
        engine.add_oscillator(f, v);
    }
    engine.set_waveform(WaveForm::Saw);
    for (_, voice) in engine.get_oscillators() {
        assert_eq!(voice.wavetable(), WaveForm::Saw);
    }
    let (f, v) = cells(440.0, 1.0);
    engine.add_oscillator(f, v);
    assert_eq!(engine.get_oscillators()[3].1.wavetable(), WaveForm::Saw);
}

#[test]
fn set_waveform_does_not_reset_the_phase() {
    let mut engine = AudioEngine::new(48000);
    let (f, v) = cells(440.0, 1.0);
    engine.add_oscillator(f, v);
    engine.play();
    engine.advance(0, 0.75f32.to_bits());
    engine.set_waveform(WaveForm::Triangle);
    assert_eq!(engine.get_oscillators()[0].1.time(), 0.75f32.to_bits());
}

#[test]
fn reset_restores_gain_and_template_and_keeps_the_voices() {
    let mut engine = AudioEngine::new(48000);
    engine.set_waveform(WaveForm::Square);
    let (f, v) = cells(440.0, 1.0);
    engine.add_oscillator(f.clone(), v.clone());
    engine.set_volume(Volume::new((-1.0f32).to_bits()));
    engine.play();
    engine.reset();
    assert_eq!(f32::from_bits(engine.get_volume().get()), -4.0);
    assert_eq!(engine.get_oscillators().len(), 1);
    assert_eq!(engine.get_oscillators()[0].1.wavetable(), WaveForm::Square);
    assert!(engine.is_playing());
    assert_eq!(engine.add_oscillator(f, v), 1);
    assert_eq!(engine.get_oscillators()[1].1.wavetable(), WaveForm::Sine);
}

#[test]
fn a_stopped_engine_keeps_every_phase() {
    let mut engine = AudioEngine::new(48000);
    let (f, v) = cells(440.0, 1.0);
    engine.add_oscillator(f.clone(), v.clone());
    engine.add_oscillator(f, v);
    engine.play();
    engine.advance(0, 0.125f32.to_bits());
    engine.advance(1, 0.5f32.to_bits());
    engine.stop();
    for _ in 0..10 {
        engine.advance(0, 9.0f32.to_bits());
        engine.advance(1, 9.0f32.to_bits());
    }
    assert_eq!(engine.get_oscillators()[0].1.time(), 0.125f32.to_bits());
    assert_eq!(engine.get_oscillators()[1].1.time(), 0.5f32.to_bits());
    engine.play();
    engine.advance(0, 0.25f32.to_bits());
    assert_eq!(engine.get_oscillators()[0].1.time(), 0.25f32.to_bits());
    assert_eq!(engine.get_oscillators()[1].1.time(), 0.5f32.to_bits());
}

#[test]
fn advancing_beyond_the_registry_changes_nothing() {
    let mut engine = AudioEngine::new(48000);
    engine.play();
    engine.advance(0, 1.0f32.to_bits());
    let (f, v) = cells(440.0, 1.0);
    engine.add_oscillator(f, v);
    engine.advance(1, 1.0f32.to_bits());
    assert_eq!(engine.get_oscillators().len(), 1);
    assert_eq!(engine.get_oscillators()[0].1.time(), 0);
}

#[test]
fn clear_removes_every_voice() {
    let mut engine = AudioEngine::new(48000);
    for _ in 0..3 {
        let (f, v) = cells(440.0, 1.0);
        engine.add_oscillator(f, v);
    }
    engine.clear_oscillators();
    assert!(engine.get_oscillators().is_empty());
    assert_eq!(engine.next_id(), 3);
}

#[test]
fn default_waveform_is_sine() {
    assert_eq!(WaveForm::default(), WaveForm::Sine);
}
