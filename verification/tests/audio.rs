use forma::audio::audio_clock::AudioClock;
use forma::audio::envelope::{EnvelopeDecision, EnvelopeOutput, EnvelopeState};
use forma::audio::generator::{
    noise_type_from_code, wave_type_from_code, GeneratorControls, Input, NoiseType, WaveType,
};
use forma::audio::sequencer::Sequencer;
use forma::audio::song::{
    clear_song, data_to_note, int_to_key, int_to_octave, key_to_int, load_song_notes,
    note_to_data, octave_to_int, save_song_notes, NoteData, SequencerData,
};
use forma::audio::utils::{Key, Note, Octave};
use forma::basics::core_utils::clamp;

fn note(octave: Octave, key: Key) -> Note {
    Note { octave, key }
}

const ALL_KEYS: [Key; 13] = [
    Key::C,
    Key::Cs,
    Key::D,
    Key::Ds,
    Key::E,
    Key::F,
    Key::Fs,
    Key::G,
    Key::Gs,
    Key::A,
    Key::As,
    Key::B,
    Key::Rest,
];

const ALL_OCTAVES: [Octave; 5] = [
    Octave::First,
    Octave::Second,
    Octave::Third,
    Octave::Fourth,
    Octave::Fifth,
];

#[test]
fn audio_clock_counts_frames() {
    let clock = AudioClock::new();
    assert_eq!(clock.get_elapsed_samples(), 0);
    clock.update();
    clock.update();
    clock.update();
    assert_eq!(clock.get_elapsed_samples(), 3);
}

#[test]
fn clamp_integers_and_floats() {
    assert_eq!(clamp(5, 0, 3), 3);
    assert_eq!(clamp(-2, 0, 3), 0);
    assert_eq!(clamp(2, 0, 3), 2);
    assert_eq!(clamp(0.0015f32, 0.0, 1.0), 0.0015);
    assert_eq!(clamp(1.5f32, 0.0, 1.0), 1.0);
    assert_eq!(clamp(-0.5f32, 0.0, 1.0), 0.0);
}

#[test]
fn envelope_walks_through_its_stages() {
    let mut state = EnvelopeState::Attack;
    let expected_ends = [100u8, 60, 50, 0];
    for end in expected_ends {
        let ramp = state.decide(false);
        assert_eq!(ramp.state, state);
        assert!(!ramp.restart_timer);
        assert_eq!(
            ramp.output,
            EnvelopeOutput::Ramp { from: state.start_level(), to: end }
        );
        let over = state.decide(true);
        assert!(over.restart_timer);
        assert_eq!(over.output, EnvelopeOutput::Level(end));
        state = over.state;
    }
    assert_eq!(state, EnvelopeState::Off);
    assert_eq!(
        state.decide(true),
        EnvelopeDecision { state: EnvelopeState::Off, restart_timer: false, output: EnvelopeOutput::Level(0) }
    );
}

#[test]
fn envelope_levels_join_up() {
    for state in [EnvelopeState::Attack, EnvelopeState::Decay, EnvelopeState::Sustain, EnvelopeState::Release] {
        assert_eq!(state.end_level(), state.next().start_level());
    }
    assert_eq!(EnvelopeState::Attack.start_level(), 0);
    assert_eq!(EnvelopeState::Decay.start_level(), 100);
    assert_eq!(EnvelopeState::Off.next(), EnvelopeState::Off);
}

#[test]
fn generator_controls_follow_inputs() {
    let mut controls = GeneratorControls::new();
    assert!(controls.is_running);
    assert_eq!(controls.oscillator_type, WaveType::Sawtooth);
    assert_eq!(controls.noise_type, NoiseType::Off);
    controls.apply(Input::Stop);
    assert!(!controls.is_running);
    controls.apply(Input::ChangeOscillator(0));
    assert_eq!(controls.oscillator_type, WaveType::Sine);
    controls.apply(Input::ChangeOscillator(3));
    assert_eq!(controls.oscillator_type, WaveType::Triangle);
    controls.apply(Input::ChangeOscillator(7));
    assert_eq!(controls.oscillator_type, WaveType::Triangle);
    controls.apply(Input::ChangeNoise(2));
    assert_eq!(controls.noise_type, NoiseType::White);
    controls.apply(Input::ChangeNoise(9));
    assert_eq!(controls.noise_type, NoiseType::White);
    controls.apply(Input::Start);
    assert!(controls.is_running);
}

fn four_notes() -> Vec<Note> {
    vec![
        note(Octave::Third, Key::C),
        note(Octave::Third, Key::E),
        note(Octave::Fourth, Key::G),
        note(Octave::Third, Key::Rest),
    ]
}

#[test]
fn sequencer_steps_through_beats() {
    let mut seq = Sequencer::new(120, 44100, 2, four_notes());
    assert!(!seq.is_running());
    assert_eq!(seq.beat_index(), 0);
    assert!(!seq.on_beat());

    // 44100 * 60 / 120 = 22050 samples per beat, a third of it on the beat.
    let step = seq.update(22051);
    assert_eq!(seq.beat_index(), 1);
    assert!(seq.on_beat());
    assert_eq!(step.step_index, 1);
    assert_eq!(step.note, note(Octave::Third, Key::E));
    assert!(step.restart_envelope);

    let step = seq.update(22052 + 7350);
    assert_eq!(step.step_index, 1);
    assert!(!step.restart_envelope);
    assert!(!seq.on_beat());

    let step = seq.update(22050 * 7);
    assert_eq!(seq.beat_index(), 7);
    assert_eq!(step.step_index, 3);
    assert!(step.note.is_rest());
    assert!(!seq.on_beat());
    assert!(step.restart_envelope);

    let step = seq.update(0);
    assert_eq!(step.step_index, 0);
    assert!(step.restart_envelope);
}

#[test]
fn sequencer_with_zero_tempo_never_leaves_the_first_beat() {
    let mut seq = Sequencer::new(0, 48000, 2, four_notes());
    let step = seq.update(u32::MAX - 1);
    assert_eq!(seq.beat_index(), 0);
    assert_eq!(step.step_index, 0);
    assert!(seq.on_beat());
    assert!(!step.restart_envelope);
}

#[test]
fn notes_report_octave_and_rest() {
    assert_eq!(note(Octave::First, Key::A).octave_multiplier(), 1);
    assert_eq!(note(Octave::Third, Key::A).octave_multiplier(), 4);
    assert_eq!(note(Octave::Fifth, Key::A).octave_multiplier(), 16);
    assert!(note(Octave::Third, Key::Rest).is_rest());
    assert!(!note(Octave::Third, Key::B).is_rest());
}

#[test]
fn key_and_octave_codes() {
    assert_eq!(int_to_key(0), Key::C);
    assert_eq!(int_to_key(11), Key::B);
    assert_eq!(int_to_key(12), Key::Rest);
    assert_eq!(int_to_key(13), Key::Rest);
    assert_eq!(int_to_key(-1), Key::Rest);
    assert_eq!(int_to_octave(0), Octave::First);
    assert_eq!(int_to_octave(4), Octave::Fifth);
    assert_eq!(int_to_octave(5), Octave::Third);
    assert_eq!(int_to_octave(-3), Octave::Third);
    for (i, key) in ALL_KEYS.iter().enumerate() {
        assert_eq!(key_to_int(*key), i as i32);
        assert_eq!(int_to_key(key_to_int(*key)), *key);
    }
    for (i, octave) in ALL_OCTAVES.iter().enumerate() {
        assert_eq!(octave_to_int(*octave), i as i32);
        assert_eq!(int_to_octave(octave_to_int(*octave)), *octave);
    }
}

#[test]
fn note_records_round_trip() {
    let n = note(Octave::Second, Key::Fs);
    let d = note_to_data(n);
    assert_eq!(d, NoteData { octave: 1, key: 6 });
    assert_eq!(data_to_note(d), n);
    assert_eq!(data_to_note(NoteData { octave: 9, key: 99 }), note(Octave::Third, Key::Rest));
    assert_eq!(NoteData::default(), NoteData { octave: 0, key: 0 });
    assert_eq!(
        SequencerData::default(),
        SequencerData { vco_wave_type: 0, lfo_wave_type: 0, noise_type: 0 }
    );
}

fn song_sequencers() -> Vec<Sequencer> {
    let mut sequencers = Vec::new();
    for s in 0..4 {
        let notes: Vec<Note> = (0..20)
            .map(|i| note(ALL_OCTAVES[(i + s) % 5], ALL_KEYS[(i * 3 + s) % 13]))
            .collect();
        sequencers.push(Sequencer::new(120, 44100, 2, notes));
    }
    sequencers
}

#[test]
fn saving_then_loading_a_song_restores_the_notes() {
    let before = song_sequencers();
    let data = save_song_notes(&before);
    assert_eq!(data.len(), 3);
    for row in &data {
        assert_eq!(row.len(), 16);
    }
    assert_eq!(data[1][2], note_to_data(before[1].sequence()[2]));

    let mut target = song_sequencers();
    clear_song(&mut target);
    load_song_notes(&mut target, &data);
    for s in 0..3 {
        assert_eq!(target[s].sequence()[..16], before[s].sequence()[..16]);
        for i in 16..20 {
            assert_eq!(target[s].sequence()[i], note(Octave::Third, Key::Rest));
        }
    }
    for i in 0..20 {
        assert_eq!(target[3].sequence()[i], note(Octave::Third, Key::Rest));
    }
}

#[test]
fn clearing_a_song_rests_every_step() {
    let mut sequencers = song_sequencers();
    sequencers.push(Sequencer::new(60, 8000, 1, vec![note(Octave::First, Key::A)]));
    clear_song(&mut sequencers);
    assert_eq!(sequencers.len(), 5);
    for s in &sequencers {
        for n in s.sequence() {
            assert_eq!(*n, note(Octave::Third, Key::Rest));
        }
    }
    assert_eq!(sequencers[4].note_count(), 1);
}

#[test]
fn set_note_changes_one_step() {
    let mut seq = Sequencer::new(120, 44100, 2, four_notes());
    seq.set_note(2, note(Octave::First, Key::D));
    assert_eq!(seq.note(2), note(Octave::First, Key::D));
    assert_eq!(seq.note(1), note(Octave::Third, Key::E));
    assert_eq!(seq.note_count(), 4);
    assert!(!seq.is_running());
    seq.set_running(true);
    assert!(seq.is_running());
    assert_eq!(seq.sequence().len(), 4);
    assert_eq!(seq.sequence()[2], note(Octave::First, Key::D));
}

#[test]
fn beats_move_forward_and_steps_follow_them() {
    let mut seq = Sequencer::new(240, 8000, 1, four_notes());
    // 8000 * 60 / 240 = 2000 samples per beat.
    let mut last_beat = 0;
    let mut last_step = 0;
    for elapsed in (0..40_000u32).step_by(500) {
        let step = seq.update(elapsed);
        assert!(seq.beat_index() >= last_beat);
        if seq.beat_index() == last_beat + 1 {
            assert_eq!(step.step_index, (last_step + 1) % 4);
            assert!(step.restart_envelope);
        }
        last_beat = seq.beat_index();
        last_step = step.step_index;
    }
    assert_eq!(last_beat, 39_500 / 2000);
}

#[test]
fn wave_and_noise_codes() {
    assert_eq!(wave_type_from_code(0), Some(WaveType::Sine));
    assert_eq!(wave_type_from_code(1), Some(WaveType::Sawtooth));
    assert_eq!(wave_type_from_code(2), Some(WaveType::Square));
    assert_eq!(wave_type_from_code(3), Some(WaveType::Triangle));
    assert_eq!(wave_type_from_code(4), None);
    assert_eq!(noise_type_from_code(0), Some(NoiseType::Off));
    assert_eq!(noise_type_from_code(2), Some(NoiseType::White));
    assert_eq!(noise_type_from_code(3), None);
}

#[test]
fn clamping_twice_and_in_order() {
    for v in -10i64..10 {
        let once = clamp(v, -3, 4);
        assert!((-3..=4).contains(&once));
        assert_eq!(clamp(once, -3, 4), once);
        assert!(clamp(v, -3, 4) <= clamp(v + 1, -3, 4));
    }
    assert_eq!(clamp(7u64, 2, 5), 5);
    assert_eq!(clamp(clamp(7u64, 2, 5), 2, 5), 5);
}

#[test]
fn envelope_stages_only_move_forward() {
    let rank = |s: EnvelopeState| match s {
        EnvelopeState::Attack => 0,
        EnvelopeState::Decay => 1,
        EnvelopeState::Sustain => 2,
        EnvelopeState::Release => 3,
        EnvelopeState::Off => 4,
    };
    let mut state = EnvelopeState::Attack;
    let pattern = [false, true, false, false, true, true, false, true, false, true, true];
    for over in pattern {
        let d = state.decide(over);
        assert!(rank(d.state) == rank(state) || rank(d.state) == rank(state) + 1);
        if d.state != state {
            assert_eq!(d.output, EnvelopeOutput::Level(state.end_level()));
        }
        state = d.state;
    }
    assert_eq!(state, EnvelopeState::Off);
    assert_eq!(state.decide(false).output, EnvelopeOutput::Level(0));
}
