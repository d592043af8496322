use house_adventure::animations::{AnimEnum, Animations, Animator};
use house_adventure::assets::SpriteEnum;
use house_adventure::camera::CameraBounds;
use house_adventure::keyboard_input::PlayerInput;
use house_adventure::player::{
    interact_col_event_sys, interact_events_pt2, CollisionEvent, CollisionOutcome, EntityRec,
    InteractEvent, Interacting,
};
use house_adventure::utils::{
    auto_sort_on_y, door_interact, mouse_door_anim_player, mouse_idle_anim, mouse_trash_animator,
    mouse_walk_anim, mousey_interact, ChildRec, MouseDoorHopAnimated, MouseTrashAnimated,
};

#[test]
fn a_beginning_contact_tags_the_interactor_parent() {
    let interactors = vec![EntityRec { entity: 5, parent: Some(1) }];
    let interactables = vec![EntityRec { entity: 7, parent: Some(2) }];
    let outcome = interact_col_event_sys(CollisionEvent::Started(5, 7), &interactors, &interactables);
    assert_eq!(outcome, CollisionOutcome::SetInteracting { target: 1, interactable: 7 });
}

#[test]
fn the_partners_may_come_in_either_order() {
    let interactors = vec![EntityRec { entity: 5, parent: Some(1) }];
    let interactables = vec![EntityRec { entity: 7, parent: Some(2) }];
    let outcome = interact_col_event_sys(CollisionEvent::Started(7, 5), &interactors, &interactables);
    assert_eq!(outcome, CollisionOutcome::SetInteracting { target: 1, interactable: 7 });
}

#[test]
fn an_interactor_without_a_parent_is_its_own_target() {
    let interactors = vec![EntityRec { entity: 5, parent: None }];
    let interactables = vec![EntityRec { entity: 7, parent: None }];
    let outcome = interact_col_event_sys(CollisionEvent::Started(5, 7), &interactors, &interactables);
    assert_eq!(outcome, CollisionOutcome::SetInteracting { target: 5, interactable: 7 });
}

#[test]
fn touching_your_own_sensor_is_ignored() {
    // The interactable is a child of the very entity that would be tagged.
    let interactors = vec![EntityRec { entity: 5, parent: Some(1) }];
    let interactables = vec![EntityRec { entity: 7, parent: Some(1) }];
    let outcome = interact_col_event_sys(CollisionEvent::Started(5, 7), &interactors, &interactables);
    assert_eq!(outcome, CollisionOutcome::Ignore);
}

#[test]
fn a_contact_without_an_interactor_is_ignored() {
    let interactors = vec![EntityRec { entity: 5, parent: Some(1) }];
    let interactables = vec![EntityRec { entity: 7, parent: Some(2) }];
    let outcome = interact_col_event_sys(CollisionEvent::Started(8, 7), &interactors, &interactables);
    assert_eq!(outcome, CollisionOutcome::Ignore);
    let outcome = interact_col_event_sys(CollisionEvent::Started(5, 8), &interactors, &interactables);
    assert_eq!(outcome, CollisionOutcome::Ignore);
}

#[test]
fn an_ending_contact_clears_the_tag() {
    let interactors = vec![EntityRec { entity: 5, parent: Some(1) }];
    let interactables: Vec<EntityRec> = vec![];
    let outcome = interact_col_event_sys(CollisionEvent::Stopped(5, 9), &interactors, &interactables);
    assert_eq!(outcome, CollisionOutcome::ClearInteracting { target: 1 });
    let outcome = interact_col_event_sys(CollisionEvent::Stopped(9, 8), &interactors, &interactables);
    assert_eq!(outcome, CollisionOutcome::Ignore);
}

#[test]
fn the_first_matching_record_wins() {
    let interactors = vec![
        EntityRec { entity: 5, parent: Some(1) },
        EntityRec { entity: 5, parent: Some(9) },
    ];
    let interactables = vec![EntityRec { entity: 7, parent: None }];
    let outcome = interact_col_event_sys(CollisionEvent::Started(5, 7), &interactors, &interactables);
    assert_eq!(outcome, CollisionOutcome::SetInteracting { target: 1, interactable: 7 });
}

#[test]
fn the_interact_key_fires_the_event() {
    let mut input = PlayerInput::new();
    let interacting = Interacting { entity: 7 };
    assert_eq!(interact_events_pt2(&input, 1, &interacting), None);
    input.just_interacted = true;
    assert_eq!(
        interact_events_pt2(&input, 1, &interacting),
        Some(InteractEvent { interactor: 1, interactable: 7 })
    );
}

#[test]
fn interacting_with_the_mousey_sensor_names_its_body() {
    let sensors = vec![ChildRec { entity: 10, parent: 3 }];
    let ev = InteractEvent { interactor: 1, interactable: 10 };
    assert_eq!(mousey_interact(&ev, &sensors), Some(3));
    let ev = InteractEvent { interactor: 1, interactable: 11 };
    assert_eq!(mousey_interact(&ev, &sensors), None);
}

#[test]
fn only_a_mousey_player_hops_through_the_door() {
    let doors = vec![4];
    let players = vec![2];
    let ev = InteractEvent { interactor: 2, interactable: 4 };
    assert_eq!(door_interact(&ev, &doors, &players), Some(2));
    let ev = InteractEvent { interactor: 2, interactable: 5 };
    assert_eq!(door_interact(&ev, &doors, &players), None);
    let ev = InteractEvent { interactor: 3, interactable: 4 };
    assert_eq!(door_interact(&ev, &doors, &players), None);
}

#[test]
fn the_trash_set_piece_runs_a_second_and_finishes() {
    let mut anim = MouseTrashAnimated(0);
    assert!(!mouse_trash_animator(&mut anim, 400_000_000));
    assert_eq!(anim.0, 400_000_000);
    assert!(!mouse_trash_animator(&mut anim, 400_000_000));
    // Exactly the full duration still runs one more frame.
    assert!(!mouse_trash_animator(&mut anim, 200_000_000));
    assert_eq!(anim.0, 1_000_000_000);
    assert!(!mouse_trash_animator(&mut anim, 5));
    assert_eq!(anim.0, 1_000_000_005);
    assert!(mouse_trash_animator(&mut anim, 5));
    assert_eq!(anim.0, 1_000_000_005);
}

#[test]
fn the_door_hop_finishes_past_its_duration() {
    let mut anim = MouseDoorHopAnimated(999_999_999);
    assert!(!mouse_door_anim_player(&mut anim, 2));
    assert_eq!(anim.0, 1_000_000_001);
    assert!(mouse_door_anim_player(&mut anim, 2));
    assert_eq!(anim.0, 1_000_000_001);
}

#[test]
fn set_piece_time_saturates_rather_than_wrap() {
    let mut anim = MouseTrashAnimated(u64::MAX - 1);
    assert!(mouse_trash_animator(&mut anim, 10));
    let mut anim = MouseDoorHopAnimated(500_000_000);
    assert!(!mouse_door_anim_player(&mut anim, u64::MAX));
    assert_eq!(anim.0, u64::MAX);
}

#[test]
fn a_still_mouse_shows_one_sprite_and_a_moving_one_walks() {
    let anims = Animations::new();
    let mut animator = Animator::new(anims.get(AnimEnum::MouseyIdle));
    let mut input = PlayerInput::new();

    mouse_walk_anim(&mut animator, &anims, &input);
    assert_eq!(animator.current_anim.anim_enum, AnimEnum::StaticSprite);
    assert_eq!(animator.current_anim.sprites, vec![SpriteEnum::MouseyWalk1]);
    assert!(animator.playing);

    input.movement.x = -1;
    mouse_walk_anim(&mut animator, &anims, &input);
    assert_eq!(animator.current_anim.anim_enum, AnimEnum::MouseyWalk);
    assert!(animator.playing);
}

#[test]
fn an_idle_mouse_plays_its_idle_loop() {
    let anims = Animations::new();
    let mut animator = Animator::new(anims.get(AnimEnum::MouseyWalk));
    mouse_idle_anim(&mut animator, &anims);
    assert_eq!(animator.current_anim.anim_enum, AnimEnum::MouseyIdle);
    assert!(animator.playing);
}

#[test]
fn depth_sorting_puts_lower_sprites_in_front() {
    // The mouse by the trash can: its offset vertical position negated.
    assert_eq!(auto_sort_on_y(-52_000, -65_000), 117_000);
    assert_eq!(auto_sort_on_y(0, 0), 0);
    // Lower on the screen: strictly larger depth key.
    assert!(auto_sort_on_y(-100_000, 0) > auto_sort_on_y(-50_000, 0));
    assert!(auto_sort_on_y(10_000, -13_000) > auto_sort_on_y(10_000, 9_700));
}

#[test]
fn the_camera_stays_inside_its_bounds() {
    let bounds = CameraBounds(-714_000, 714_000);
    // Comfortably inside: untouched.
    assert_eq!(bounds.clamp_x(0, -500_000, 500_000), 0);
    // The left view edge pokes out: pushed right by the overshoot.
    assert_eq!(bounds.clamp_x(0, -800_000, 200_000), 86_000);
    // The right view edge pokes out: pushed left by the overshoot.
    assert_eq!(bounds.clamp_x(0, -100_000, 800_000), -86_000);
}

#[test]
fn a_view_wider_than_the_bounds_settles_on_the_right_bound() {
    let bounds = CameraBounds(-100_000, 100_000);
    assert_eq!(bounds.clamp_x(0, -200_000, 200_000), 0);
    let bounds = CameraBounds(-100_000, 50_000);
    // Pushed right by 100_000, then left by the right-edge overshoot.
    assert_eq!(bounds.clamp_x(0, -200_000, 200_000), -50_000);
}
