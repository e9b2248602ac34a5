//! Whole runs of the engine, with the sample arithmetic done here as the
//! program does it.
use harmony_playground::audio::engine::{
    AudioEngine, SharedFrequency, SharedVolumeMultiplier, Volume,
};
use harmony_playground::audio::synthesizer::{
    next_index, wrap_index, WaveForm, WaveTableOscillator, WAVETABLE_SIZE,
};

fn table(waveform: WaveForm) -> Vec<f32> {
    let f: fn(f32) -> f32 = match waveform {
        WaveForm::Sine => |time| (time * std::f32::consts::TAU).sin(),
        WaveForm::Triangle => |time| 4.0 * (time + 0.25 - (time + 0.75).floor()).abs() - 1.0,
        WaveForm::Square => |time| if time < 0.5 { 1.0 } else { -1.0 },
        WaveForm::Saw => |time| (2.0 * time + 3.0) % 2.0 - 1.0,
    };
    (0..WAVETABLE_SIZE).map(|i| f(i as f32 * (WAVETABLE_SIZE as f32).recip())).collect()
}

fn interpolated(table: &[f32], index: f32) -> f32 {
    let index = index % (WAVETABLE_SIZE as f32);
    let floor = wrap_index(index as usize);
    let t = index - floor as f32;
    (1.0 - t) * table[floor] + t * table[next_index(floor)]
}

fn tables() -> [Vec<f32>; 4] {
    [
        table(WaveForm::Sine),
        table(WaveForm::Triangle),
        table(WaveForm::Square),
        table(WaveForm::Saw),
    ]
}

fn table_of(tables: &[Vec<f32>; 4], waveform: WaveForm) -> &[f32] {
    match waveform {
        WaveForm::Sine => &tables[0],
        WaveForm::Triangle => &tables[1],
        WaveForm::Square => &tables[2],
        WaveForm::Saw => &tables[3],
    }
}

fn step(oscillator: &WaveTableOscillator, tables: &[Vec<f32>; 4]) -> (f32, f32) {
    let time = f32::from_bits(oscillator.time());
    let sample = interpolated(
        table_of(tables, oscillator.wavetable()),
        time * WAVETABLE_SIZE as f32,
    );
    let recip = (oscillator.sample_rate() as f32).recip();
    let time = (time + f32::from_bits(oscillator.frequency().get()) * recip)
        % WAVETABLE_SIZE as f32;
    (sample * f32::from_bits(oscillator.volume_multiplier().get()), time)
}

fn next_sample(engine: &mut AudioEngine, tables: &[Vec<f32>; 4]) -> f32 {
    if let Some(silence) = engine.silence() {
        return f32::from_bits(silence);
    }
    let mut sum = 0.0;
    for index in 0..engine.get_oscillators().len() {
        let (sample, time) = step(&engine.get_oscillators()[index].1, tables);
        engine.advance(index, time.to_bits());
        sum += sample;
    }
    sum * f32::from_bits(engine.get_volume().get()).exp2()
}

fn add(engine: &mut AudioEngine, frequency: f32, volume_multiplier: f32) -> usize {
    engine.add_oscillator(
        SharedFrequency::new(frequency.to_bits()),
        SharedVolumeMultiplier::new(volume_multiplier.to_bits()),
    )
}

#[test]
fn a_stopped_engine_puts_out_silence() {
    let tables = tables();
    let mut engine = AudioEngine::new(48000);
    add(&mut engine, 440.0, 1.0);
    assert_eq!(engine.silence(), Some(0.0f32.to_bits()));
    for _ in 0..100 {
        assert_eq!(next_sample(&mut engine, &tables), 0.0);
    }
    assert_eq!(engine.get_oscillators()[0].1.time(), 0.0f32.to_bits());
    engine.play();
    assert_eq!(engine.silence(), None);
}

#[test]
fn resuming_continues_at_the_phase_where_the_engine_stopped() {
    let tables = tables();
    let mut interrupted = AudioEngine::new(48000);
    let mut straight = AudioEngine::new(48000);
    for engine in [&mut interrupted, &mut straight] {
        engine.set_volume(Volume::new(0));
        add(engine, 440.0, 1.0);
        engine.play();
    }
    for _ in 0..1000 {
        assert_eq!(next_sample(&mut interrupted, &tables), next_sample(&mut straight, &tables));
    }
    interrupted.stop();
    for _ in 0..500 {
        assert_eq!(next_sample(&mut interrupted, &tables), 0.0);
    }
    interrupted.play();
    for _ in 0..1000 {
        assert_eq!(next_sample(&mut interrupted, &tables), next_sample(&mut straight, &tables));
    }
}

#[test]
fn the_mix_is_the_gain_times_the_sum_of_the_voices() {
    let tables = tables();
    let mut both = AudioEngine::new(48000);
    let mut first = AudioEngine::new(48000);
    let mut second = AudioEngine::new(48000);
    for engine in [&mut both, &mut first, &mut second] {
        engine.set_volume(Volume::new((-1.0f32).to_bits()));
        engine.play();
    }
    add(&mut both, 440.0, 1.0);
    add(&mut both, 660.0, 0.5);
    add(&mut first, 440.0, 1.0);
    add(&mut second, 660.0, 0.5);
    first.set_volume(Volume::new(0));
    second.set_volume(Volume::new(0));
    for _ in 0..2000 {
        let a = next_sample(&mut first, &tables);
        let b = next_sample(&mut second, &tables);
        assert_eq!(next_sample(&mut both, &tables), 0.5 * (a + b));
    }
}

#[test]
fn a_sine_of_440_hz_crosses_zero_about_880_times_a_second() {
    let tables = tables();
    let mut engine = AudioEngine::new(48000);
    engine.set_waveform(WaveForm::Sine);
    engine.set_volume(Volume::new(0));
    add(&mut engine, 440.0, 1.0);
    engine.play();
    let mut crossings = 0;
    let mut last = next_sample(&mut engine, &tables);
    for _ in 1..48000 {
        let sample = next_sample(&mut engine, &tables);
        if (last < 0.0) != (sample < 0.0) {
            crossings += 1;
        }
        last = sample;
    }
    assert!((878..=882).contains(&crossings), "{crossings}");
}

#[test]
fn a_gain_of_minus_one_halves_the_peak() {
    let tables = tables();
    let mut unity = AudioEngine::new(48000);
    let mut halved = AudioEngine::new(48000);
    unity.set_volume(Volume::new(0.0f32.to_bits()));
    halved.set_volume(Volume::new((-1.0f32).to_bits()));
    for engine in [&mut unity, &mut halved] {
        add(engine, 440.0, 1.0);
        engine.play();
    }
    let mut peak_unity = 0.0f32;
    let mut peak_halved = 0.0f32;
    for _ in 0..4800 {
        peak_unity = peak_unity.max(next_sample(&mut unity, &tables).abs());
        peak_halved = peak_halved.max(next_sample(&mut halved, &tables).abs());
    }
    assert!(peak_unity > 0.99);
    assert_eq!(peak_halved, 0.5 * peak_unity);
}

#[test]
fn after_the_first_of_two_voices_is_removed_the_second_sounds_alone() {
    let tables = tables();
    let mut engine = AudioEngine::new(48000);
    let mut solo = AudioEngine::new(48000);
    engine.set_volume(Volume::new(0));
    solo.set_volume(Volume::new(0));
    let first = add(&mut engine, 440.0, 1.0);
    add(&mut engine, 660.0, 0.75);
    add(&mut solo, 660.0, 0.75);
    engine.remove_oscillator(&first);
    engine.play();
    solo.play();
    for _ in 0..1000 {
        assert_eq!(next_sample(&mut engine, &tables), next_sample(&mut solo, &tables));
    }
}

#[test]
fn retuning_a_cell_reaches_the_voice_without_the_engine() {
    let tables = tables();
    let mut engine = AudioEngine::new(48000);
    let frequency = SharedFrequency::new(0.0f32.to_bits());
    let volume = SharedVolumeMultiplier::new(1.0f32.to_bits());
    engine.set_volume(Volume::new(0));
    engine.set_waveform(WaveForm::Saw);
    engine.add_oscillator(frequency.clone(), volume.clone());
    engine.play();
    assert_eq!(next_sample(&mut engine, &tables), 0.0);
    assert_eq!(next_sample(&mut engine, &tables), 0.0);
    frequency.set(12000.0f32.to_bits());
    assert_eq!(next_sample(&mut engine, &tables), 0.0);
    assert_eq!(next_sample(&mut engine, &tables), 0.5);
    volume.set(0.5f32.to_bits());
    assert_eq!(next_sample(&mut engine, &tables), -0.5);
}

#[test]
fn table_lookup_wraps_and_interpolates() {
    let sine = table(WaveForm::Sine);
    let square = table(WaveForm::Square);
    assert_eq!(sine[0], 0.0);
    assert_eq!(square[0], 1.0);
    assert_eq!(square[WAVETABLE_SIZE / 2], -1.0);
    for index in [0usize, 1, 511, 512, 1023] {
        assert_eq!(interpolated(&sine, index as f32), sine[index]);
    }
    assert_eq!(interpolated(&sine, 10.5), (sine[10] + sine[11]) / 2.0);
    assert_eq!(interpolated(&sine, 1023.5), (sine[1023] + sine[0]) / 2.0);
    assert_eq!(interpolated(&sine, 1024.0), sine[0]);
    assert_eq!(interpolated(&sine, 1029.0), sine[5]);
}
