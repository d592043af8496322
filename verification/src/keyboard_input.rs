//! Keyboard-driven movement input.
//!
//! Each of the four movement keys stands for a unit step on one axis. A key
//! going down adds its step to the movement vector, a key coming up takes it
//! back, so the vector always holds the sum of the steps of the keys held
//! down. Because every component is a whole number of unit steps, the vector
//! clears the engine's dead zone (which lies strictly between zero and one)
//! exactly when it is nonzero.

use vstd::prelude::*;

verus! {

/// The keys the game reads. Everything else on the keyboard is `Other`.
#[derive(Debug, Copy, Clone, PartialEq, Eq, Structural)]
pub enum Key {
    W,
    A,
    S,
    D,
    E,
    Other,
}

/// A movement vector in whole unit steps per axis.
#[derive(Debug, Copy, Clone, PartialEq, Eq, Structural)]
pub struct MoveVec {
    pub x: i32,
    pub y: i32,
}

/// The per-frame input state the game's systems read.
#[derive(Debug, Copy, Clone, PartialEq, Eq, Structural)]
pub struct PlayerInput {
    pub movement: MoveVec,
    pub just_clicked: bool,
    pub just_interacted: bool,
}

impl PlayerInput {
    /// Input with nothing pressed and the movement vector at rest.
    pub fn new() -> (input: PlayerInput)
        ensures
            input == (PlayerInput {
                movement: MoveVec { x: 0, y: 0 },
                just_clicked: false,
                just_interacted: false,
            }),
    {
        PlayerInput {
            movement: MoveVec { x: 0, y: 0 },
            just_clicked: false,
            just_interacted: false,
        }
    }
}

/// The unit step a key contributes on the horizontal axis.
pub open spec fn key_dx(key: Key) -> int {
    match key {
        Key::A => -1,
        Key::D => 1,
        _ => 0,
    }
}

/// The unit step a key contributes on the vertical axis.
pub open spec fn key_dy(key: Key) -> int {
    match key {
        Key::W => 1,
        Key::S => -1,
        _ => 0,
    }
}

/// Sum of the horizontal steps of a key sequence.
pub open spec fn sum_dx(keys: Seq<Key>) -> int
    decreases keys.len(),
{
    if keys.len() == 0 {
        0
    } else {
        sum_dx(keys.drop_last()) + key_dx(keys.last())
    }
}

/// Sum of the vertical steps of a key sequence.
pub open spec fn sum_dy(keys: Seq<Key>) -> int
    decreases keys.len(),
{
    if keys.len() == 0 {
        0
    } else {
        sum_dy(keys.drop_last()) + key_dy(keys.last())
    }
}

/// An integer held to the range of `i32`.
pub open spec fn clip_i32(value: int) -> int {
    if value < i32::MIN as int {
        i32::MIN as int
    } else if value > i32::MAX as int {
        i32::MAX as int
    } else {
        value
    }
}

/// Add the steps of the keys that just went down, take back the steps of the
/// keys that just came up, and hold each axis to its range.
fn apply_key_steps(movement: &mut MoveVec, just_pressed: &Vec<Key>, just_released: &Vec<Key>)
    ensures
        final(movement).x == clip_i32(
            old(movement).x + sum_dx(just_pressed@) - sum_dx(just_released@),
        ),
        final(movement).y == clip_i32(
            old(movement).y + sum_dy(just_pressed@) - sum_dy(just_released@),
        ),
{
    let mut dx: i128 = 0;
    let mut dy: i128 = 0;
    let mut i: usize = 0;
    while i < just_pressed.len()
        invariant
            i <= just_pressed@.len(),
            dx == sum_dx(just_pressed@.subrange(0, i as int)),
            dy == sum_dy(just_pressed@.subrange(0, i as int)),
            -(i as int) <= dx <= i as int,
            -(i as int) <= dy <= i as int,
        decreases just_pressed@.len() - i,
    {
        let key = just_pressed[i];
        match key {
            Key::A => {
                dx -= 1;
            }
            Key::D => {
                dx += 1;
            }
            Key::W => {
                dy += 1;
            }
            Key::S => {
                dy -= 1;
            }
            _ => {}
        }
        i += 1;
        proof {
            assert(just_pressed@.subrange(0, i as int).drop_last()
                == just_pressed@.subrange(0, i as int - 1));
        }
    }
    proof {
        assert(just_pressed@.subrange(0, just_pressed@.len() as int) == just_pressed@);
    }
    let pressed_len: usize = just_pressed.len();
    let mut j: usize = 0;
    while j < just_released.len()
        invariant
            j <= just_released@.len(),
            pressed_len == just_pressed@.len(),
            dx == sum_dx(just_pressed@) - sum_dx(just_released@.subrange(0, j as int)),
            dy == sum_dy(just_pressed@) - sum_dy(just_released@.subrange(0, j as int)),
            -(pressed_len as int + j) <= dx <= pressed_len as int + j,
            -(pressed_len as int + j) <= dy <= pressed_len as int + j,
        decreases just_released@.len() - j,
    {
        let key = just_released[j];
        match key {
            Key::A => {
                dx += 1;
            }
            Key::D => {
                dx -= 1;
            }
            Key::W => {
                dy -= 1;
            }
            Key::S => {
                dy += 1;
            }
            _ => {}
        }
        j += 1;
        proof {
            assert(just_released@.subrange(0, j as int).drop_last()
                == just_released@.subrange(0, j as int - 1));
        }
    }
    proof {
        assert(just_released@.subrange(0, just_released@.len() as int) == just_released@);
    }
    movement.x = clip_to_i32(movement.x as i128 + dx);
    movement.y = clip_to_i32(movement.y as i128 + dy);
}

/// Hold a wide intermediate sum to the range of `i32`.
fn clip_to_i32(value: i128) -> (clipped: i32)
    ensures
        clipped == clip_i32(value as int),
{
    if value < i32::MIN as i128 {
        i32::MIN
    } else if value > i32::MAX as i128 {
        i32::MAX
    } else {
        value as i32
    }
}

/// One frame of keyboard reading: fold the keys that just went down and just
/// came up into the movement vector, and note whether the interact key (E)
/// just went down.
pub fn keyboard_input(input: &mut PlayerInput, just_pressed: &Vec<Key>, just_released: &Vec<Key>)
    ensures
        final(input).movement.x == clip_i32(
            old(input).movement.x + sum_dx(just_pressed@) - sum_dx(just_released@),
        ),
        final(input).movement.y == clip_i32(
            old(input).movement.y + sum_dy(just_pressed@) - sum_dy(just_released@),
        ),
        final(input).just_interacted == just_pressed@.contains(Key::E),
        final(input).just_clicked == old(input).just_clicked,
{
    apply_key_steps(&mut input.movement, just_pressed, just_released);
    let mut interacted: bool = false;
    let mut i: usize = 0;
    while i < just_pressed.len()
        invariant
            i <= just_pressed@.len(),
            interacted == just_pressed@.subrange(0, i as int).contains(Key::E),
        decreases just_pressed@.len() - i,
    {
        if just_pressed[i] == Key::E {
            interacted = true;
        }
        i += 1;
        proof {
            let prefix = just_pressed@.subrange(0, i as int);
            let shorter = just_pressed@.subrange(0, i as int - 1);
            assert(prefix.drop_last() == shorter);
            if shorter.contains(Key::E) {
                let k = choose|k: int| 0 <= k < shorter.len() && shorter[k] == Key::E;
                assert(prefix[k] == Key::E);
            }
            if just_pressed@[i as int - 1] == Key::E {
                assert(prefix[i as int - 1] == Key::E);
            }
        }
    }
    proof {
        assert(just_pressed@.subrange(0, just_pressed@.len() as int) == just_pressed@);
    }
    input.just_interacted = interacted;
}

/// A movement vector of whole unit steps clears the dead zone exactly when it
/// is nonzero: the dead zone radius lies strictly below one step.
pub fn movement_past_deadzone(input: &PlayerInput) -> (moving: bool)
    ensures
        moving == (input.movement.x != 0 || input.movement.y != 0),
{
    input.movement.x != 0 || input.movement.y != 0
}

} // verus!
