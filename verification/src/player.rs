//! The player: movement limits, sprite flipping, the walk/idle animation
//! choice, and the collision-driven interaction rules.
//!
//! Entities are carried as the engine's numeric ids, and the slice of the
//! world each rule reads (which entities are interactors or interactables,
//! and who their parents are) is handed in as plain records. Velocities and
//! offsets are in milli-units.

use vstd::prelude::*;

use crate::animations::{is_table_anim, AnimEnum, Animations, Animator};
use crate::keyboard_input::PlayerInput;

verus! {

/// How fast the player accelerates, in milli-units per second squared.
pub const TRUNK_ACCEL_MILLI: i64 = 4_000_000;

/// The player's top speed, in milli-units per second.
pub const TRUNK_MAX_SPEED_MILLI: i64 = 100_000;

/// The linear damping applied to the player, in milli-units.
pub const TRUNK_FRICTION_MILLI: i64 = 15_000;

/// Below this speed, in milli-units per second, movement is ignored.
pub const DEADZONE_MILLI: i64 = 150;

/// How far the interaction sensor sits in front of the player, milli-units.
pub const INTERACTOR_OFFSET_MILLI: i64 = 20_000;

/// A sprite that faces left or right with its movement.
#[derive(Debug, Copy, Clone, PartialEq, Eq, Structural)]
pub struct Flippable {
    pub right_facing: bool,
}

/// The player pressed the interact key while touching an interactable.
#[derive(Debug, Copy, Clone, PartialEq, Eq, Structural)]
pub struct InteractEvent {
    pub interactor: u64,
    pub interactable: u64,
}

/// Tags an entity as currently touching the interactable it remembers.
#[derive(Debug, Copy, Clone, PartialEq, Eq, Structural)]
pub struct Interacting {
    pub entity: u64,
}

/// An entity as the interaction rules see it: its id and, when it is the
/// child of another entity, its parent's id.
#[derive(Debug, Copy, Clone)]
pub struct EntityRec {
    pub entity: u64,
    pub parent: Option<u64>,
}

/// A physics contact between two entities beginning or ending.
#[derive(Debug, Copy, Clone, PartialEq, Eq, Structural)]
pub enum CollisionEvent {
    Started(u64, u64),
    Stopped(u64, u64),
}

/// What one collision event does to the world: tag an entity as interacting
/// with an interactable, clear such a tag, or nothing.
#[derive(Debug, Copy, Clone, PartialEq, Eq, Structural)]
pub enum CollisionOutcome {
    SetInteracting { target: u64, interactable: u64 },
    ClearInteracting { target: u64 },
    Ignore,
}

/// The first record of `entity`, scanning front to back.
pub open spec fn spec_lookup(recs: Seq<EntityRec>, entity: u64) -> Option<EntityRec>
    decreases recs.len(),
{
    if recs.len() == 0 {
        None
    } else if recs[0].entity == entity {
        Some(recs[0])
    } else {
        spec_lookup(recs.skip(1), entity)
    }
}

/// The record of the first of the two collision partners present in `recs`,
/// trying `e1` before `e2`.
pub open spec fn spec_lookup_pair(recs: Seq<EntityRec>, e1: u64, e2: u64) -> Option<EntityRec> {
    if spec_lookup(recs, e1) is Some {
        spec_lookup(recs, e1)
    } else {
        spec_lookup(recs, e2)
    }
}

/// The entity a record's interaction lands on: its parent when it has one
/// (a sensor child acts for its parent), else the entity itself.
pub open spec fn spec_rec_target(rec: EntityRec) -> u64 {
    match rec.parent {
        Some(parent) => parent,
        None => rec.entity,
    }
}

/// What a collision event comes to. A beginning contact between an interactor
/// and an interactable tags the interactor's target with the interactable —
/// unless the interactable is a child of that very target, which would be the
/// target touching itself. An ending contact involving an interactor clears
/// the tag on its target.
pub open spec fn spec_collision_outcome(
    ev: CollisionEvent,
    interactors: Seq<EntityRec>,
    interactables: Seq<EntityRec>,
) -> CollisionOutcome {
    match ev {
        CollisionEvent::Started(e1, e2) => match spec_lookup_pair(interactors, e1, e2) {
            None => CollisionOutcome::Ignore,
            Some(actor) => match spec_lookup_pair(interactables, e1, e2) {
                None => CollisionOutcome::Ignore,
                Some(actable) => {
                    if actable.parent == Some(spec_rec_target(actor)) {
                        CollisionOutcome::Ignore
                    } else {
                        CollisionOutcome::SetInteracting {
                            target: spec_rec_target(actor),
                            interactable: actable.entity,
                        }
                    }
                },
            },
        },
        CollisionEvent::Stopped(e1, e2) => match spec_lookup_pair(interactors, e1, e2) {
            None => CollisionOutcome::Ignore,
            Some(actor) => CollisionOutcome::ClearInteracting {
                target: spec_rec_target(actor),
            },
        },
    }
}

/// Find the first record of `entity`, front to back.
fn lookup(recs: &Vec<EntityRec>, entity: u64) -> (found: Option<EntityRec>)
    ensures
        found == spec_lookup(recs@, entity),
{
    let mut i: usize = 0;
    proof {
        assert(recs@.skip(0) == recs@);
    }
    while i < recs.len()
        invariant
            i <= recs@.len(),
            spec_lookup(recs@, entity) == spec_lookup(recs@.skip(i as int), entity),
        decreases recs@.len() - i,
    {
        if recs[i].entity == entity {
            proof {
                assert(recs@.skip(i as int)[0] == recs@[i as int]);
            }
            return Some(recs[i]);
        }
        i += 1;
        proof {
            assert(recs@.skip(i as int - 1).skip(1) == recs@.skip(i as int));
        }
    }
    None
}

/// The record of the first of the two collision partners present in `recs`.
fn lookup_pair(recs: &Vec<EntityRec>, e1: u64, e2: u64) -> (found: Option<EntityRec>)
    ensures
        found == spec_lookup_pair(recs@, e1, e2),
{
    match lookup(recs, e1) {
        Some(rec) => Some(rec),
        None => lookup(recs, e2),
    }
}

/// The entity a record's interaction lands on.
fn rec_target(rec: &EntityRec) -> (target: u64)
    ensures
        target == spec_rec_target(*rec),
{
    match rec.parent {
        Some(parent) => parent,
        None => rec.entity,
    }
}

/// Turn one physics contact event into its interaction bookkeeping, given
/// the interactor and interactable entities of the world and their parents.
pub fn interact_col_event_sys(
    ev: CollisionEvent,
    interactors: &Vec<EntityRec>,
    interactables: &Vec<EntityRec>,
) -> (outcome: CollisionOutcome)
    ensures
        outcome == spec_collision_outcome(ev, interactors@, interactables@),
{
    match ev {
        CollisionEvent::Started(e1, e2) => {
            let actor = match lookup_pair(interactors, e1, e2) {
                Some(actor) => actor,
                None => {
                    return CollisionOutcome::Ignore;
                },
            };
            let actable = match lookup_pair(interactables, e1, e2) {
                Some(actable) => actable,
                None => {
                    return CollisionOutcome::Ignore;
                },
            };
            let target = rec_target(&actor);
            if let Some(actable_parent) = actable.parent {
                if actable_parent == target {
                    return CollisionOutcome::Ignore;
                }
            }
            CollisionOutcome::SetInteracting { target, interactable: actable.entity }
        },
        CollisionEvent::Stopped(e1, e2) => {
            match lookup_pair(interactors, e1, e2) {
                Some(actor) => CollisionOutcome::ClearInteracting { target: rec_target(&actor) },
                None => CollisionOutcome::Ignore,
            }
        },
    }
}

/// An entity touching an interactable fires an interact event exactly when
/// the interact key just went down.
pub fn interact_events_pt2(
    input: &PlayerInput,
    entity: u64,
    interacting: &Interacting,
) -> (event: Option<InteractEvent>)
    ensures
        event == if input.just_interacted {
            Some(InteractEvent { interactor: entity, interactable: interacting.entity })
        } else {
            None::<InteractEvent>
        },
{
    if input.just_interacted {
        Some(InteractEvent { interactor: entity, interactable: interacting.entity })
    } else {
        None
    }
}

/// Whether the movement input is taken as motion.
pub open spec fn spec_is_moving(input: PlayerInput) -> bool {
    input.movement.x != 0 || input.movement.y != 0
}

/// Keep the player's animator on the walk animation while the player moves
/// and on the idle animation otherwise. Repeating the choice that is already
/// playing leaves the animator's place in it untouched.
pub fn player_anim_controller(
    animator: &mut Animator,
    anims: &Animations,
    input: &PlayerInput,
    is_player: bool,
)
    requires
        old(animator).wf(),
        anims.wf(),
    ensures
        final(animator).wf(),
        ({
            let anim_enum = if spec_is_moving(*input) && is_player {
                AnimEnum::TrunkWalk
            } else {
                AnimEnum::TrunkIdle
            };
            if old(animator).playing && old(animator).current_anim.anim_enum == anim_enum {
                *final(animator) == *old(animator)
            } else {
                &&& final(animator).playing
                &&& final(animator).time_ns == 0
                &&& final(animator).current_frame == 0
                &&& is_table_anim(final(animator).current_anim, anim_enum)
            }
        }),
{
    let moving = crate::keyboard_input::movement_past_deadzone(input);
    if moving && is_player {
        animator.play_anim(anims.get(AnimEnum::TrunkWalk));
    } else {
        animator.play_anim(anims.get(AnimEnum::TrunkIdle));
    }
}

/// Which way a flippable sprite faces after one frame: while the horizontal
/// speed clears the dead zone, the sprite is mirrored exactly when it moves
/// against its natural facing; slower movement leaves the mirroring alone.
pub fn flip_flippables(
    velocity_x_milli: i64,
    flippable: &Flippable,
    flip_x: bool,
) -> (flipped: bool)
    ensures
        flipped == if velocity_x_milli > DEADZONE_MILLI || velocity_x_milli < -DEADZONE_MILLI {
            if flippable.right_facing {
                velocity_x_milli < 0
            } else {
                velocity_x_milli > 0
            }
        } else {
            flip_x
        },
{
    if velocity_x_milli > DEADZONE_MILLI || velocity_x_milli < -DEADZONE_MILLI {
        if flippable.right_facing {
            velocity_x_milli < 0
        } else {
            velocity_x_milli > 0
        }
    } else {
        flip_x
    }
}

/// The squared length of a velocity, in milli-units.
pub open spec fn spec_norm_sq(x_milli: int, y_milli: int) -> int {
    x_milli * x_milli + y_milli * y_milli
}

/// The widest velocity component the speed rule accepts, in milli-units per
/// second: far past anything the game reaches, while two squares of it still
/// fit the arithmetic.
pub const SPEED_COMPONENT_LIMIT_MILLI: i64 = 1_000_000_000_000;

/// The square of a milli-unit coordinate, wide enough never to overflow.
fn square_milli(value: i64) -> (squared: i128)
    requires
        -SPEED_COMPONENT_LIMIT_MILLI <= value <= SPEED_COMPONENT_LIMIT_MILLI,
    ensures
        squared == value * value,
        0 <= squared
            <= SPEED_COMPONENT_LIMIT_MILLI as int * SPEED_COMPONENT_LIMIT_MILLI as int,
{
    proof {
        assert(0 <= (value as int) * (value as int)
            <= SPEED_COMPONENT_LIMIT_MILLI as int * SPEED_COMPONENT_LIMIT_MILLI as int)
            by (nonlinear_arith)
            requires -SPEED_COMPONENT_LIMIT_MILLI <= value <= SPEED_COMPONENT_LIMIT_MILLI;
    }
    (value as i128) * (value as i128)
}

/// Whether the velocity the input asks for must be cut back to the top speed:
/// only when it is both over the top speed and faster than the velocity the
/// player already had, so that an already-fast player is never sped up, and
/// outside pushes are not slowed down.
pub fn speed_clamp_needed(
    new_x_milli: i64,
    new_y_milli: i64,
    old_x_milli: i64,
    old_y_milli: i64,
) -> (clamp: bool)
    requires
        -SPEED_COMPONENT_LIMIT_MILLI <= new_x_milli <= SPEED_COMPONENT_LIMIT_MILLI,
        -SPEED_COMPONENT_LIMIT_MILLI <= new_y_milli <= SPEED_COMPONENT_LIMIT_MILLI,
        -SPEED_COMPONENT_LIMIT_MILLI <= old_x_milli <= SPEED_COMPONENT_LIMIT_MILLI,
        -SPEED_COMPONENT_LIMIT_MILLI <= old_y_milli <= SPEED_COMPONENT_LIMIT_MILLI,
    ensures
        clamp == (spec_norm_sq(new_x_milli as int, new_y_milli as int)
            > TRUNK_MAX_SPEED_MILLI * TRUNK_MAX_SPEED_MILLI
            && spec_norm_sq(new_x_milli as int, new_y_milli as int)
            > spec_norm_sq(old_x_milli as int, old_y_milli as int)),
{
    let new_sq: i128 = square_milli(new_x_milli) + square_milli(new_y_milli);
    let old_sq: i128 = square_milli(old_x_milli) + square_milli(old_y_milli);
    let max_sq: i128 = (TRUNK_MAX_SPEED_MILLI as i128) * (TRUNK_MAX_SPEED_MILLI as i128);
    new_sq > max_sq && new_sq > old_sq
}

/// Where the interaction sensor sits when the player's sprite is mirrored:
/// in front of the face, so mirroring the sprite mirrors the sensor.
pub fn interactor_offset_x_milli(flip_x: bool) -> (offset: i64)
    ensures
        offset == if flip_x { -INTERACTOR_OFFSET_MILLI as int } else { INTERACTOR_OFFSET_MILLI as int },
{
    if flip_x {
        -INTERACTOR_OFFSET_MILLI
    } else {
        INTERACTOR_OFFSET_MILLI
    }
}

} // verus!
