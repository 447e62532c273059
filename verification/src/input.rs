//! The keys that move and turn the camera.
//!
//! A controller keeps, for each key that it knows, whether the key is held
//! down. How far the camera moves for that is not decided here; this module
//! only says in which directions.

use vstd::prelude::*;

verus! {

/// A key that a camera controller reacts to.
#[derive(Clone, Copy, Debug, PartialEq, Eq, Structural)]
pub enum Key {
    Forward,
    Backward,
    Left,
    Right,
    Up,
    Down,
    RotateLeft,
    RotateRight,
    RotateUp,
    RotateDown,
}

/// Which of the keys are held down.
#[derive(Clone, Copy, Debug, PartialEq, Eq, Structural)]
pub struct PressedKeys {
    pub is_forward_pressed: bool,
    pub is_backward_pressed: bool,
    pub is_left_pressed: bool,
    pub is_right_pressed: bool,
    pub is_up_pressed: bool,
    pub is_down_pressed: bool,
    pub is_rotate_left_pressed: bool,
    pub is_rotate_right_pressed: bool,
    pub is_rotate_up_pressed: bool,
    pub is_rotate_down_pressed: bool,
}

/// 1 if only `positive` is held, -1 if only `negative` is, else 0.
pub open spec fn spec_axis(positive: bool, negative: bool) -> int {
    (if positive {
        1int
    } else {
        0int
    }) - (if negative {
        1int
    } else {
        0int
    })
}

/// 1 if only `positive` is held, -1 if only `negative` is, else 0.
pub fn axis(positive: bool, negative: bool) -> (direction: i8)
    ensures
        direction == spec_axis(positive, negative),
{
    let plus: i8 = if positive {
        1
    } else {
        0
    };
    let minus: i8 = if negative {
        1
    } else {
        0
    };
    plus - minus
}

impl PressedKeys {
    /// Whether `key` is held down.
    pub open spec fn spec_is_pressed(self, key: Key) -> bool {
        match key {
            Key::Forward => self.is_forward_pressed,
            Key::Backward => self.is_backward_pressed,
            Key::Left => self.is_left_pressed,
            Key::Right => self.is_right_pressed,
            Key::Up => self.is_up_pressed,
            Key::Down => self.is_down_pressed,
            Key::RotateLeft => self.is_rotate_left_pressed,
            Key::RotateRight => self.is_rotate_right_pressed,
            Key::RotateUp => self.is_rotate_up_pressed,
            Key::RotateDown => self.is_rotate_down_pressed,
        }
    }

    /// No key is held down.
    pub fn new() -> (keys: PressedKeys)
        ensures
            forall|key: Key| !keys.spec_is_pressed(key),
    {
        PressedKeys {
            is_forward_pressed: false,
            is_backward_pressed: false,
            is_left_pressed: false,
            is_right_pressed: false,
            is_up_pressed: false,
            is_down_pressed: false,
            is_rotate_left_pressed: false,
            is_rotate_right_pressed: false,
            is_rotate_up_pressed: false,
            is_rotate_down_pressed: false,
        }
    }

    /// Whether `key` is held down.
    #[verifier::when_used_as_spec(spec_is_pressed)]
    pub fn is_pressed(self, key: Key) -> (pressed: bool)
        ensures
            pressed == self.spec_is_pressed(key),
    {
        match key {
            Key::Forward => self.is_forward_pressed,
            Key::Backward => self.is_backward_pressed,
            Key::Left => self.is_left_pressed,
            Key::Right => self.is_right_pressed,
            Key::Up => self.is_up_pressed,
            Key::Down => self.is_down_pressed,
            Key::RotateLeft => self.is_rotate_left_pressed,
            Key::RotateRight => self.is_rotate_right_pressed,
            Key::RotateUp => self.is_rotate_up_pressed,
            Key::RotateDown => self.is_rotate_down_pressed,
        }
    }

    /// Notes that `key` went down or came up. No other key is touched.
    pub fn set(&mut self, key: Key, is_pressed: bool)
        ensures
            final(self).spec_is_pressed(key) == is_pressed,
            forall|other: Key|
                other != key ==> final(self).spec_is_pressed(other) == old(self).spec_is_pressed(
                    other,
                ),
    {
        match key {
            Key::Forward => self.is_forward_pressed = is_pressed,
            Key::Backward => self.is_backward_pressed = is_pressed,
            Key::Left => self.is_left_pressed = is_pressed,
            Key::Right => self.is_right_pressed = is_pressed,
            Key::Up => self.is_up_pressed = is_pressed,
            Key::Down => self.is_down_pressed = is_pressed,
            Key::RotateLeft => self.is_rotate_left_pressed = is_pressed,
            Key::RotateRight => self.is_rotate_right_pressed = is_pressed,
            Key::RotateUp => self.is_rotate_up_pressed = is_pressed,
            Key::RotateDown => self.is_rotate_down_pressed = is_pressed,
        }
    }

    /// The direction of travel along the camera's right, up and forward
    /// axes: each is 1, -1 or 0, and 0 where both keys of an axis are held.
    pub fn translation(self) -> (direction: (i8, i8, i8))
        ensures
            direction.0 == spec_axis(self.is_right_pressed, self.is_left_pressed),
            direction.1 == spec_axis(self.is_up_pressed, self.is_down_pressed),
            direction.2 == spec_axis(self.is_forward_pressed, self.is_backward_pressed),
    {
        (
            axis(self.is_right_pressed, self.is_left_pressed),
            axis(self.is_up_pressed, self.is_down_pressed),
            axis(self.is_forward_pressed, self.is_backward_pressed),
        )
    }
}

} // verus!
