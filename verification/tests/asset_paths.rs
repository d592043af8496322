use house_adventure::assets::{audio_path, loading_transition, sprite_path, AppState, AudioEnum, LoadProgress, SpriteEnum};

#[test]
fn trunk_sprite_paths() {
    assert_eq!(sprite_path(SpriteEnum::TrunkIdle1), "sprites/trunk/jr_idle1.png");
    assert_eq!(sprite_path(SpriteEnum::TrunkIdle3), "sprites/trunk/jr_idle3.png");
    assert_eq!(sprite_path(SpriteEnum::TrunkWalk2), "sprites/trunk/jr_walk2.png");
}

#[test]
fn mousey_sprite_paths() {
    assert_eq!(sprite_path(SpriteEnum::MouseyIdle2), "sprites/mousey/mousey_idle2.png");
    assert_eq!(sprite_path(SpriteEnum::MouseyWalk1), "sprites/mousey/mouseywalk1.png");
    assert_eq!(sprite_path(SpriteEnum::MouseyWalk5), "sprites/mousey/mouseywalk5.png");
}

#[test]
fn scenery_sprite_paths() {
    assert_eq!(sprite_path(SpriteEnum::HouseFront), "sprites/house_front.png");
    assert_eq!(
        sprite_path(SpriteEnum::HouseFrontBackground),
        "sprites/house_front_background.png"
    );
    assert_eq!(sprite_path(SpriteEnum::HouseFrontTree1), "sprites/house_front_tree_1.png");
    assert_eq!(sprite_path(SpriteEnum::RoomBirdDoor), "sprites/Room_birddoor.png");
    assert_eq!(sprite_path(SpriteEnum::RoomSlidingDoor), "sprites/room_slidingdoor.png");
    assert_eq!(sprite_path(SpriteEnum::TrashCan), "sprites/trash_can.png");
    assert_eq!(sprite_path(SpriteEnum::Bug3), "sprites/bug/buggyboo3.png");
    assert_eq!(sprite_path(SpriteEnum::Shadow), "sprites/shadow.png");
    assert_eq!(sprite_path(SpriteEnum::DebugCircle), "sprites/debug_circle.png");
}

#[test]
fn main_theme_audio_path() {
    assert_eq!(audio_path(AudioEnum::MusicMainTheme), "audio/tree_game_theme.wav");
}

#[test]
fn loading_leaves_for_the_game_only_once_loaded() {
    assert_eq!(loading_transition(LoadProgress::Loaded), Some(AppState::InGame));
    assert_eq!(loading_transition(LoadProgress::Failed), None);
    assert_eq!(loading_transition(LoadProgress::Loading), None);
    assert_eq!(loading_transition(LoadProgress::NotLoaded), None);
    assert_eq!(loading_transition(LoadProgress::Unloaded), None);
}
