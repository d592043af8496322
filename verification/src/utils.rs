//! The interactable world: markers, the mouse's timed set pieces (being
//! carried to the trash can, hopping through the door), the mouse's own
//! animation choice, and depth sorting along the vertical axis.

use vstd::prelude::*;

use crate::animations::{is_table_anim, AnimEnum, Animations, Animator};
use crate::assets::SpriteEnum;
use crate::keyboard_input::{movement_past_deadzone, PlayerInput};
use crate::player::{spec_is_moving, InteractEvent};

verus! {

/// Tags an entity the player can interact with.
#[derive(Debug, Copy, Clone)]
pub struct Interactable;

/// Tags the mouse once it walks under the player's control.
#[derive(Debug, Copy, Clone)]
pub struct WalkingMouse;

/// How long the trash-can set piece runs, in nanoseconds.
pub const MOUSE_TRASH_ANIM_TIME_NS: u64 = 1_000_000_000;

/// How long the door-hop set piece runs, in nanoseconds.
pub const MOUSE_DOOR_HOP_TIME_NS: u64 = 1_000_000_000;

/// The running trash-can set piece: nanoseconds elapsed so far.
#[derive(Debug, Copy, Clone, PartialEq, Eq, Structural)]
pub struct MouseTrashAnimated(pub u64);

/// The running door-hop set piece: nanoseconds elapsed so far.
#[derive(Debug, Copy, Clone, PartialEq, Eq, Structural)]
pub struct MouseDoorHopAnimated(pub u64);

/// A sum of elapsed times that stops at the top of the counter.
pub open spec fn spec_sat_add_ns(time_ns: u64, delta_ns: u64) -> u64 {
    if time_ns + delta_ns > u64::MAX {
        u64::MAX
    } else {
        (time_ns + delta_ns) as u64
    }
}

/// An entity together with its parent, as a child-sensor query sees it.
#[derive(Debug, Copy, Clone)]
pub struct ChildRec {
    pub entity: u64,
    pub parent: u64,
}

/// The first record of `entity`, scanning front to back.
pub open spec fn spec_lookup_child(recs: Seq<ChildRec>, entity: u64) -> Option<ChildRec>
    decreases recs.len(),
{
    if recs.len() == 0 {
        None
    } else if recs[0].entity == entity {
        Some(recs[0])
    } else {
        spec_lookup_child(recs.skip(1), entity)
    }
}

/// Find the first record of `entity`, front to back.
fn lookup_child(recs: &Vec<ChildRec>, entity: u64) -> (found: Option<ChildRec>)
    ensures
        found == spec_lookup_child(recs@, entity),
{
    let mut i: usize = 0;
    proof {
        assert(recs@.skip(0) == recs@);
    }
    while i < recs.len()
        invariant
            i <= recs@.len(),
            spec_lookup_child(recs@, entity) == spec_lookup_child(recs@.skip(i as int), entity),
        decreases recs@.len() - i,
    {
        if recs[i].entity == entity {
            proof {
                assert(recs@.skip(i as int)[0] == recs@[i as int]);
            }
            return Some(recs[i]);
        }
        i += 1;
        proof {
            assert(recs@.skip(i as int - 1).skip(1) == recs@.skip(i as int));
        }
    }
    None
}

/// Whether `entity` stands in the list.
fn contains_entity(entities: &Vec<u64>, entity: u64) -> (found: bool)
    ensures
        found == entities@.contains(entity),
{
    let mut i: usize = 0;
    while i < entities.len()
        invariant
            i <= entities@.len(),
            !entities@.subrange(0, i as int).contains(entity),
        decreases entities@.len() - i,
    {
        if entities[i] == entity {
            return true;
        }
        i += 1;
        proof {
            let prefix = entities@.subrange(0, i as int);
            let shorter = entities@.subrange(0, i as int - 1);
            if prefix.contains(entity) {
                let k = choose|k: int| 0 <= k < prefix.len() && prefix[k] == entity;
                if k < i - 1 {
                    assert(shorter[k] == entity);
                }
            }
        }
    }
    proof {
        assert(entities@.subrange(0, entities@.len() as int) == entities@);
    }
    false
}

/// An interact event aimed at the mouse's touch sensor starts the trash-can
/// set piece on the sensor's parent — the mouse body — and names that parent;
/// aimed anywhere else it does nothing. The shell takes the player role away
/// and puts the named entity under the set piece at time zero.
pub fn mousey_interact(
    ev: &InteractEvent,
    mousey_sensors: &Vec<ChildRec>,
) -> (animate: Option<u64>)
    ensures
        animate == match spec_lookup_child(mousey_sensors@, ev.interactable) {
            Some(rec) => Some(rec.parent),
            None => None::<u64>,
        },
{
    match lookup_child(mousey_sensors, ev.interactable) {
        Some(rec) => Some(rec.parent),
        None => None,
    }
}

/// An interact event aimed at a door by a mouse that is the player sends that
/// mouse through the door-hop set piece; any other event does nothing. The
/// shell takes the player role away, makes the mouse a sensor, and puts it
/// under the set piece at time zero.
pub fn door_interact(
    ev: &InteractEvent,
    door_interactables: &Vec<u64>,
    mousey_players: &Vec<u64>,
) -> (hopper: Option<u64>)
    ensures
        hopper == if door_interactables@.contains(ev.interactable)
            && mousey_players@.contains(ev.interactor) {
            Some(ev.interactor)
        } else {
            None::<u64>
        },
{
    if contains_entity(door_interactables, ev.interactable) {
        if contains_entity(mousey_players, ev.interactor) {
            return Some(ev.interactor);
        }
    }
    None
}

/// One frame of the trash-can set piece: it finishes — and stops counting —
/// once its elapsed time has passed the full duration, else it accumulates
/// the frame's time. While it runs, the shell interpolates the mouse's
/// position from the elapsed fraction; when it finishes, the shell hands the
/// mouse the player role and its walking kit.
pub fn mouse_trash_animator(
    anim: &mut MouseTrashAnimated,
    delta_ns: u64,
) -> (finished: bool)
    ensures
        finished == (old(anim).0 > MOUSE_TRASH_ANIM_TIME_NS),
        finished ==> *final(anim) == *old(anim),
        !finished ==> final(anim).0 == spec_sat_add_ns(old(anim).0, delta_ns),
{
    if anim.0 > MOUSE_TRASH_ANIM_TIME_NS {
        return true;
    }
    anim.0 = if delta_ns > u64::MAX - anim.0 {
        u64::MAX
    } else {
        anim.0 + delta_ns
    };
    false
}

/// One frame of the door-hop set piece, counted like the trash-can one. When
/// it finishes, the shell gives the mouse the player role back and clears its
/// sensor state.
pub fn mouse_door_anim_player(
    anim: &mut MouseDoorHopAnimated,
    delta_ns: u64,
) -> (finished: bool)
    ensures
        finished == (old(anim).0 > MOUSE_DOOR_HOP_TIME_NS),
        finished ==> *final(anim) == *old(anim),
        !finished ==> final(anim).0 == spec_sat_add_ns(old(anim).0, delta_ns),
{
    if anim.0 > MOUSE_DOOR_HOP_TIME_NS {
        return true;
    }
    anim.0 = if delta_ns > u64::MAX - anim.0 {
        u64::MAX
    } else {
        anim.0 + delta_ns
    };
    false
}

/// While the walking mouse stands still it shows its first walking sprite
/// alone; the moment it moves it plays the walking loop, keeping its place in
/// a loop already playing.
pub fn mouse_walk_anim(animator: &mut Animator, anims: &Animations, input: &PlayerInput)
    requires
        old(animator).wf(),
        anims.wf(),
    ensures
        final(animator).wf(),
        !spec_is_moving(*input) ==> {
            &&& final(animator).playing
            &&& final(animator).time_ns == 0
            &&& final(animator).current_frame == 0
            &&& final(animator).current_anim.anim_enum == AnimEnum::StaticSprite
            &&& final(animator).current_anim.sprites@ == seq![SpriteEnum::MouseyWalk1]
        },
        spec_is_moving(*input) ==> {
            if old(animator).playing
                && old(animator).current_anim.anim_enum == AnimEnum::MouseyWalk {
                *final(animator) == *old(animator)
            } else {
                &&& final(animator).playing
                &&& final(animator).time_ns == 0
                &&& final(animator).current_frame == 0
                &&& is_table_anim(final(animator).current_anim, AnimEnum::MouseyWalk)
            }
        },
{
    if !movement_past_deadzone(input) {
        animator.play_sprite(SpriteEnum::MouseyWalk1);
    } else {
        animator.play_anim(anims.get(AnimEnum::MouseyWalk));
    }
}

/// A mouse not under the player's control idles: it plays the idle loop,
/// keeping its place in a loop already playing.
pub fn mouse_idle_anim(animator: &mut Animator, anims: &Animations)
    requires
        old(animator).wf(),
        anims.wf(),
    ensures
        final(animator).wf(),
        if old(animator).playing
            && old(animator).current_anim.anim_enum == AnimEnum::MouseyIdle {
            *final(animator) == *old(animator)
        } else {
            &&& final(animator).playing
            &&& final(animator).time_ns == 0
            &&& final(animator).current_frame == 0
            &&& is_table_anim(final(animator).current_anim, AnimEnum::MouseyIdle)
        },
{
    animator.play_anim(anims.get(AnimEnum::MouseyIdle));
}

/// The widest coordinate depth sorting accepts, in milli-units.
pub const SORT_COORD_LIMIT_MILLI: i64 = 1_000_000_000_000;

/// The depth key of a sprite sorted along the vertical axis: the negated sum
/// of its vertical position and its offset, so that what stands lower on the
/// screen draws in front. The shell scales the key down to the engine's depth
/// layer when it converts back to its units.
pub fn auto_sort_on_y(y_milli: i64, y_offset_milli: i64) -> (depth: i64)
    requires
        -SORT_COORD_LIMIT_MILLI <= y_milli <= SORT_COORD_LIMIT_MILLI,
        -SORT_COORD_LIMIT_MILLI <= y_offset_milli <= SORT_COORD_LIMIT_MILLI,
    ensures
        depth == -(y_milli + y_offset_milli),
{
    -(y_milli + y_offset_milli)
}

/// Depth sorting puts what stands lower in front: of two sprites, the one
/// whose offset vertical position is smaller gets the strictly larger depth
/// key.
pub proof fn lemma_auto_sort_orders(y1: int, offset1: int, y2: int, offset2: int)
    requires
        y1 + offset1 < y2 + offset2,
    ensures
        -(y1 + offset1) > -(y2 + offset2),
{
}

} // verus!
