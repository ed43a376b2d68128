use forma::cpu_path_tracer::velocity_delta;
use forma::cpu_ray_tracer::tracer::{join_bands, movement_delta, KeyDelta};
use forma::frontend::encode_keys;
use forma::gui::gui_post_process::{move_request, next_palette, previous_palette, swap_rows};
use forma::gui::{Effect, Settings};

#[test]
fn key_masks() {
    assert_eq!(encode_keys(false, false, false, false, false, false), 0);
    assert_eq!(encode_keys(true, false, false, false, false, false), 0b100000);
    assert_eq!(encode_keys(false, true, true, false, false, true), 0b011001);
    assert_eq!(encode_keys(true, true, true, true, true, true), 0b111111);
}

#[test]
fn ray_tracer_movement() {
    assert_eq!(movement_delta(0), KeyDelta { x: 0, y: 0, z: 0 });
    assert_eq!(movement_delta(encode_keys(true, false, false, false, false, false)), KeyDelta { x: 0, y: -1, z: 0 });
    assert_eq!(movement_delta(encode_keys(false, true, true, false, true, false)), KeyDelta { x: 1, y: 1, z: -1 });
    assert_eq!(movement_delta(encode_keys(true, true, true, true, true, true)), KeyDelta { x: 0, y: 0, z: 0 });
    assert_eq!(movement_delta(0b0000_0101), KeyDelta { x: -1, y: 0, z: 1 });
    // Bits above the six keys are ignored.
    assert_eq!(movement_delta(0b1100_0000), KeyDelta { x: 0, y: 0, z: 0 });
}

#[test]
fn path_tracer_velocity() {
    assert_eq!(velocity_delta(0b1000), KeyDelta { x: -1, y: 0, z: 0 });
    assert_eq!(velocity_delta(0b0100), KeyDelta { x: 1, y: 0, z: 0 });
    assert_eq!(velocity_delta(0b0010), KeyDelta { x: 0, y: 0, z: -1 });
    assert_eq!(velocity_delta(0b0001), KeyDelta { x: 0, y: 0, z: 1 });
    assert_eq!(velocity_delta(0b1111), KeyDelta { x: 0, y: 0, z: 0 });
    assert_eq!(velocity_delta(0b11_0000), KeyDelta { x: 0, y: 0, z: 0 });
}

#[test]
fn bands_join_highest_tag_first() {
    let bands = vec![(1u8, vec![10, 11]), (0u8, vec![20]), (2u8, vec![30, 31, 32])];
    assert_eq!(join_bands(&bands), vec![30, 31, 32, 10, 11, 20]);
    let shuffled = vec![(0u8, vec![20]), (2u8, vec![30, 31, 32]), (1u8, vec![10, 11])];
    assert_eq!(join_bands(&shuffled), join_bands(&bands));
    // Equal tags keep their order.
    let ties = vec![(3u8, vec![1]), (5u8, vec![2]), (3u8, vec![3])];
    assert_eq!(join_bands(&ties), vec![2, 1, 3]);
    assert!(join_bands(&Vec::new()).is_empty());
    let edge = vec![(0u8, vec![1]), (255u8, vec![2])];
    assert_eq!(join_bands(&edge), vec![2, 1]);
}

#[test]
fn settings_start_state() {
    let s = Settings::new();
    assert!(s.show_sequencers);
    assert!(s.show_oscillator_inspector);
    assert!(!s.show_vfx);
    assert_eq!(s.selected, 0);
    assert_eq!(s.effect, Effect::Off);
}

#[test]
fn moving_effect_rows() {
    assert_eq!(move_request(0, 4, true), None);
    assert_eq!(move_request(2, 4, true), Some((2, 1)));
    assert_eq!(move_request(2, 4, false), Some((2, 3)));
    assert_eq!(move_request(3, 4, false), None);
    let mut rows = vec![(Effect::Noise, true), (Effect::Pixelate, false), (Effect::InvertColor, true)];
    let before = rows.clone();
    swap_rows(&mut rows, 0, 2);
    assert_eq!(rows, vec![(Effect::InvertColor, true), (Effect::Pixelate, false), (Effect::Noise, true)]);
    swap_rows(&mut rows, 0, 2);
    assert_eq!(rows, before);
}

#[test]
fn palette_steps_stay_in_range() {
    assert_eq!(next_palette(0, 4), 1);
    assert_eq!(next_palette(3, 4), 3);
    assert_eq!(next_palette(9, 4), 3);
    assert_eq!(previous_palette(3, 4), 2);
    assert_eq!(previous_palette(1, 4), 0);
    assert_eq!(previous_palette(9, 4), 3);
}
