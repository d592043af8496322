//! The asset catalogue: every sprite and audio clip the game uses, the file
//! each one is loaded from, and the state transition taken once loading ends.
//!
//! The engine's asset server does the actual file I/O in the unverified shell;
//! this module is the single source of truth for which path belongs to which
//! asset, and for when the game may leave the loading screen.

use vstd::prelude::*;

verus! {

/// Top-level state of the application.
#[derive(Debug, Copy, Clone, PartialEq, Eq, Hash, Structural)]
pub enum AppState {
    Loading,
    MainMenu,
    InGame,
}

/// Which part of the world the player is in.
#[derive(Debug, Copy, Clone, PartialEq, Eq, Hash, Structural)]
pub enum LevelState {
    HouseFront,
    HouseInside,
    HouseBack,
}

/// Every audio clip the game plays.
#[derive(Debug, Copy, Clone, PartialEq, Eq, Hash, Structural)]
pub enum AudioEnum {
    MusicMainTheme,
}

/// Every sprite the game draws.
#[derive(Debug, Copy, Clone, PartialEq, Eq, Hash, Structural)]
pub enum SpriteEnum {
    TrunkIdle1,
    TrunkIdle2,
    TrunkIdle3,
    TrunkWalk1,
    TrunkWalk2,
    TrunkWalk3,
    HouseFront,
    HouseFrontHouse,
    HouseFrontBackground,
    HouseFrontTree1,
    HouseFrontTree2,
    HouseInside,
    RoomBackground,
    RoomBackground2,
    RoomFurniture1,
    RoomFurniture2,
    RoomFurniture3,
    RoomSlidingDoor,
    RoomDoor,
    RoomBirdDoor,
    LadyIdle,
    MouseyIdle1,
    MouseyIdle2,
    MouseyIdle3,
    MouseyWalk1,
    MouseyWalk2,
    MouseyWalk3,
    MouseyWalk4,
    MouseyWalk5,
    Bug1,
    Bug2,
    Bug3,
    Bug4,
    TrashCan,
    Shadow,
    DebugCircle,
}

/// The file each sprite is loaded from, as a sequence of characters.
pub open spec fn spec_sprite_path(sprite: SpriteEnum) -> Seq<char> {
    match sprite {
        SpriteEnum::TrunkIdle1 => "sprites/trunk/jr_idle1.png"@,
        SpriteEnum::TrunkIdle2 => "sprites/trunk/jr_idle2.png"@,
        SpriteEnum::TrunkIdle3 => "sprites/trunk/jr_idle3.png"@,
        SpriteEnum::TrunkWalk1 => "sprites/trunk/jr_walk1.png"@,
        SpriteEnum::TrunkWalk2 => "sprites/trunk/jr_walk2.png"@,
        SpriteEnum::TrunkWalk3 => "sprites/trunk/jr_walk3.png"@,
        SpriteEnum::HouseFront => "sprites/house_front.png"@,
        SpriteEnum::HouseFrontHouse => "sprites/house_front_house.png"@,
        SpriteEnum::HouseFrontBackground => "sprites/house_front_background.png"@,
        SpriteEnum::HouseFrontTree1 => "sprites/house_front_tree_1.png"@,
        SpriteEnum::HouseFrontTree2 => "sprites/house_front_tree_2.png"@,
        SpriteEnum::HouseInside => "sprites/house_inside.png"@,
        SpriteEnum::RoomBackground => "sprites/room_background.png"@,
        SpriteEnum::RoomBackground2 => "sprites/room_background2.png"@,
        SpriteEnum::RoomFurniture1 => "sprites/room_furniture1.png"@,
        SpriteEnum::RoomFurniture2 => "sprites/room_furniture2.png"@,
        SpriteEnum::RoomFurniture3 => "sprites/room_furniture3.png"@,
        SpriteEnum::RoomSlidingDoor => "sprites/room_slidingdoor.png"@,
        SpriteEnum::RoomDoor => "sprites/room_door.png"@,
        SpriteEnum::RoomBirdDoor => "sprites/Room_birddoor.png"@,
        SpriteEnum::LadyIdle => "sprites/lady_idle.png"@,
        SpriteEnum::MouseyIdle1 => "sprites/mousey/mousey_idle1.png"@,
        SpriteEnum::MouseyIdle2 => "sprites/mousey/mousey_idle2.png"@,
        SpriteEnum::MouseyIdle3 => "sprites/mousey/mousey_idle3.png"@,
        SpriteEnum::MouseyWalk1 => "sprites/mousey/mouseywalk1.png"@,
        SpriteEnum::MouseyWalk2 => "sprites/mousey/mouseywalk2.png"@,
        SpriteEnum::MouseyWalk3 => "sprites/mousey/mouseywalk3.png"@,
        SpriteEnum::MouseyWalk4 => "sprites/mousey/mouseywalk4.png"@,
        SpriteEnum::MouseyWalk5 => "sprites/mousey/mouseywalk5.png"@,
        SpriteEnum::Bug1 => "sprites/bug/buggyboo1.png"@,
        SpriteEnum::Bug2 => "sprites/bug/buggyboo2.png"@,
        SpriteEnum::Bug3 => "sprites/bug/buggyboo3.png"@,
        SpriteEnum::Bug4 => "sprites/bug/buggyboo4.png"@,
        SpriteEnum::TrashCan => "sprites/trash_can.png"@,
        SpriteEnum::Shadow => "sprites/shadow.png"@,
        SpriteEnum::DebugCircle => "sprites/debug_circle.png"@,
    }
}

/// The file each audio clip is loaded from.
pub open spec fn spec_audio_path(audio: AudioEnum) -> Seq<char> {
    match audio {
        AudioEnum::MusicMainTheme => "audio/tree_game_theme.wav"@,
    }
}

/// Path of the file a sprite is loaded from.
pub fn sprite_path(sprite: SpriteEnum) -> (path: &'static str)
    ensures
        path@ == spec_sprite_path(sprite),
{
    match sprite {
        SpriteEnum::TrunkIdle1 => "sprites/trunk/jr_idle1.png",
        SpriteEnum::TrunkIdle2 => "sprites/trunk/jr_idle2.png",
        SpriteEnum::TrunkIdle3 => "sprites/trunk/jr_idle3.png",
        SpriteEnum::TrunkWalk1 => "sprites/trunk/jr_walk1.png",
        SpriteEnum::TrunkWalk2 => "sprites/trunk/jr_walk2.png",
        SpriteEnum::TrunkWalk3 => "sprites/trunk/jr_walk3.png",
        SpriteEnum::HouseFront => "sprites/house_front.png",
        SpriteEnum::HouseFrontHouse => "sprites/house_front_house.png",
        SpriteEnum::HouseFrontBackground => "sprites/house_front_background.png",
        SpriteEnum::HouseFrontTree1 => "sprites/house_front_tree_1.png",
        SpriteEnum::HouseFrontTree2 => "sprites/house_front_tree_2.png",
        SpriteEnum::HouseInside => "sprites/house_inside.png",
        SpriteEnum::RoomBackground => "sprites/room_background.png",
        SpriteEnum::RoomBackground2 => "sprites/room_background2.png",
        SpriteEnum::RoomFurniture1 => "sprites/room_furniture1.png",
        SpriteEnum::RoomFurniture2 => "sprites/room_furniture2.png",
        SpriteEnum::RoomFurniture3 => "sprites/room_furniture3.png",
        SpriteEnum::RoomSlidingDoor => "sprites/room_slidingdoor.png",
        SpriteEnum::RoomDoor => "sprites/room_door.png",
        SpriteEnum::RoomBirdDoor => "sprites/Room_birddoor.png",
        SpriteEnum::LadyIdle => "sprites/lady_idle.png",
        SpriteEnum::MouseyIdle1 => "sprites/mousey/mousey_idle1.png",
        SpriteEnum::MouseyIdle2 => "sprites/mousey/mousey_idle2.png",
        SpriteEnum::MouseyIdle3 => "sprites/mousey/mousey_idle3.png",
        SpriteEnum::MouseyWalk1 => "sprites/mousey/mouseywalk1.png",
        SpriteEnum::MouseyWalk2 => "sprites/mousey/mouseywalk2.png",
        SpriteEnum::MouseyWalk3 => "sprites/mousey/mouseywalk3.png",
        SpriteEnum::MouseyWalk4 => "sprites/mousey/mouseywalk4.png",
        SpriteEnum::MouseyWalk5 => "sprites/mousey/mouseywalk5.png",
        SpriteEnum::Bug1 => "sprites/bug/buggyboo1.png",
        SpriteEnum::Bug2 => "sprites/bug/buggyboo2.png",
        SpriteEnum::Bug3 => "sprites/bug/buggyboo3.png",
        SpriteEnum::Bug4 => "sprites/bug/buggyboo4.png",
        SpriteEnum::TrashCan => "sprites/trash_can.png",
        SpriteEnum::Shadow => "sprites/shadow.png",
        SpriteEnum::DebugCircle => "sprites/debug_circle.png",
    }
}

/// Path of the file an audio clip is loaded from.
pub fn audio_path(audio: AudioEnum) -> (path: &'static str)
    ensures
        path@ == spec_audio_path(audio),
{
    match audio {
        AudioEnum::MusicMainTheme => "audio/tree_game_theme.wav",
    }
}

/// How far the asset server has come with the load group, as the loading
/// screen reads it back each frame.
#[derive(Debug, Copy, Clone, PartialEq, Eq, Structural)]
pub enum LoadProgress {
    NotLoaded,
    Loading,
    Loaded,
    Failed,
    Unloaded,
}

/// The game leaves the loading screen exactly when every asset has loaded;
/// a failed or still-running load keeps it there.
pub fn loading_transition(progress: LoadProgress) -> (next: Option<AppState>)
    ensures
        next == if progress is Loaded {
            Some(AppState::InGame)
        } else {
            None::<AppState>
        },
{
    match progress {
        LoadProgress::Loaded => Some(AppState::InGame),
        _ => None,
    }
}

} // verus!
