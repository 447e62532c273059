use diploma_thesis::fps::{FpsCounter, MAX_FRAME_TIMES};
use diploma_thesis::input::{axis, Key, PressedKeys};
use diploma_thesis::scalar::Scalar;

const KEYS: [Key; 10] = [
    Key::Forward,
    Key::Backward,
    Key::Left,
    Key::Right,
    Key::Up,
    Key::Down,
    Key::RotateLeft,
    Key::RotateRight,
    Key::RotateUp,
    Key::RotateDown,
];

fn s(x: f32) -> Scalar {
    Scalar::from_bits(x.to_bits())
}

#[test]
fn no_key_is_pressed_at_first() {
    let keys = PressedKeys::new();
    for key in KEYS {
        assert!(!keys.is_pressed(key));
    }
    assert_eq!(keys.translation(), (0, 0, 0));
}

#[test]
fn setting_a_key_touches_no_other() {
    for key in KEYS {
        let mut keys = PressedKeys::new();
        keys.set(key, true);
        for other in KEYS {
            assert_eq!(keys.is_pressed(other), other == key);
        }
        keys.set(key, false);
        assert_eq!(keys, PressedKeys::new());
    }
}

#[test]
fn held_keys_give_the_direction_of_travel() {
    let mut keys = PressedKeys::new();
    keys.set(Key::Forward, true);
    assert_eq!(keys.translation(), (0, 0, 1));
    keys.set(Key::Left, true);
    assert_eq!(keys.translation(), (-1, 0, 1));
    keys.set(Key::Right, true);
    assert_eq!(keys.translation(), (0, 0, 1));
    keys.set(Key::Down, true);
    assert_eq!(keys.translation(), (0, -1, 1));
    keys.set(Key::Forward, false);
    keys.set(Key::Backward, true);
    keys.set(Key::Up, true);
    assert_eq!(keys.translation(), (0, 0, -1));
    keys.set(Key::RotateLeft, true);
    assert_eq!(keys.translation(), (0, 0, -1));
}

#[test]
fn axis_values() {
    assert_eq!(axis(false, false), 0);
    assert_eq!(axis(true, false), 1);
    assert_eq!(axis(false, true), -1);
    assert_eq!(axis(true, true), 0);
}

#[test]
fn fps_window_keeps_the_last_eight_frame_times() {
    assert_eq!(MAX_FRAME_TIMES, 8);
    let mut counter = FpsCounter::new();
    assert_eq!(counter.len(), 0);
    assert!(counter.frame_times().is_empty());
    for i in 1..=8 {
        counter.update(s(i as f32));
        assert_eq!(counter.len(), i);
    }
    assert_eq!(
        counter.frame_times(),
        vec![s(1.0), s(2.0), s(3.0), s(4.0), s(5.0), s(6.0), s(7.0), s(8.0)]
    );
    counter.update(s(9.0));
    assert_eq!(counter.len(), 8);
    assert_eq!(
        counter.frame_times(),
        vec![s(2.0), s(3.0), s(4.0), s(5.0), s(6.0), s(7.0), s(8.0), s(9.0)]
    );
    for i in 10..30 {
        counter.update(s(i as f32));
        assert_eq!(counter.len(), 8);
        assert_eq!(*counter.frame_times().last().unwrap(), s(i as f32));
        assert_eq!(counter.frame_times()[0], s((i - 7) as f32));
    }
}
