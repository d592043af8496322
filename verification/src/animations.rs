//! Sprite animations: the fixed animation table and the per-entity animator.
//!
//! An `Animator` advances through its animation's sprites at the animation's
//! framerate. Elapsed time is carried in whole nanoseconds; the shell that
//! drives the engine converts the frame delta at its edge.

use vstd::prelude::*;

use crate::assets::SpriteEnum;

verus! {

/// Every animation the game plays.
#[derive(Debug, Copy, Clone, PartialEq, Eq, Hash, Structural)]
pub enum AnimEnum {
    MouseyWalk,
    MouseyIdle,
    BugWalk,
    TrunkWalk,
    TrunkIdle,
    StaticSprite,
}

/// One animation: its identity, its sprites in playback order, its speed in
/// frames per second, and whether it plays once or loops.
pub struct Animation {
    pub anim_enum: AnimEnum,
    pub sprites: Vec<SpriteEnum>,
    pub framerate: u32,
    pub one_shot: bool,
}

impl Animation {
    /// An animation that can be played: at least one sprite, and a framerate
    /// that yields a whole, positive number of nanoseconds per frame.
    pub open spec fn wf(self) -> bool {
        &&& 0 < self.sprites@.len()
        &&& 1 <= self.framerate <= 1_000_000_000
    }
}

/// The sprites of each animation in the table, in playback order.
pub open spec fn spec_anim_sprites(anim_enum: AnimEnum) -> Seq<SpriteEnum> {
    match anim_enum {
        AnimEnum::MouseyIdle => seq![
            SpriteEnum::MouseyIdle1,
            SpriteEnum::MouseyIdle2,
            SpriteEnum::MouseyIdle3,
        ],
        AnimEnum::MouseyWalk => seq![
            SpriteEnum::MouseyWalk1,
            SpriteEnum::MouseyWalk2,
            SpriteEnum::MouseyWalk3,
            SpriteEnum::MouseyWalk4,
            SpriteEnum::MouseyWalk5,
        ],
        AnimEnum::BugWalk => seq![
            SpriteEnum::Bug1,
            SpriteEnum::Bug2,
            SpriteEnum::Bug3,
            SpriteEnum::Bug4,
        ],
        AnimEnum::TrunkWalk => seq![
            SpriteEnum::TrunkWalk2,
            SpriteEnum::TrunkWalk1,
            SpriteEnum::TrunkWalk3,
            SpriteEnum::TrunkWalk1,
        ],
        AnimEnum::TrunkIdle => seq![
            SpriteEnum::TrunkIdle1,
            SpriteEnum::TrunkIdle2,
            SpriteEnum::TrunkIdle3,
            SpriteEnum::TrunkIdle2,
        ],
        AnimEnum::StaticSprite => Seq::empty(),
    }
}

/// The framerate of each animation in the table, in frames per second.
pub open spec fn spec_anim_framerate(anim_enum: AnimEnum) -> u32 {
    match anim_enum {
        AnimEnum::MouseyIdle => 6,
        AnimEnum::MouseyWalk => 8,
        AnimEnum::BugWalk => 8,
        AnimEnum::TrunkWalk => 6,
        AnimEnum::TrunkIdle => 6,
        AnimEnum::StaticSprite => 1,
    }
}

/// An animation equals the table's entry for `anim_enum`. Every animation in
/// the table loops.
pub open spec fn is_table_anim(anim: Animation, anim_enum: AnimEnum) -> bool {
    &&& anim.anim_enum == anim_enum
    &&& anim.sprites@ == spec_anim_sprites(anim_enum)
    &&& anim.framerate == spec_anim_framerate(anim_enum)
    &&& !anim.one_shot
}

/// The animation table: one looping animation per playable `AnimEnum`.
/// `StaticSprite` stands for a single fixed sprite and has no entry.
pub struct Animations {
    pub anims: Vec<Animation>,
}

impl Animations {
    /// The table holds exactly the five playable animations.
    pub open spec fn wf(self) -> bool {
        &&& self.anims@.len() == 5
        &&& is_table_anim(self.anims@[0], AnimEnum::MouseyIdle)
        &&& is_table_anim(self.anims@[1], AnimEnum::MouseyWalk)
        &&& is_table_anim(self.anims@[2], AnimEnum::BugWalk)
        &&& is_table_anim(self.anims@[3], AnimEnum::TrunkWalk)
        &&& is_table_anim(self.anims@[4], AnimEnum::TrunkIdle)
    }

    pub fn new() -> (animations: Animations)
        ensures
            animations.wf(),
    {
        let mut anims: Vec<Animation> = Vec::new();
        anims.push(Animation {
            anim_enum: AnimEnum::MouseyIdle,
            sprites: vec![
                SpriteEnum::MouseyIdle1,
                SpriteEnum::MouseyIdle2,
                SpriteEnum::MouseyIdle3,
            ],
            framerate: 6,
            one_shot: false,
        });
        anims.push(Animation {
            anim_enum: AnimEnum::MouseyWalk,
            sprites: vec![
                SpriteEnum::MouseyWalk1,
                SpriteEnum::MouseyWalk2,
                SpriteEnum::MouseyWalk3,
                SpriteEnum::MouseyWalk4,
                SpriteEnum::MouseyWalk5,
            ],
            framerate: 8,
            one_shot: false,
        });
        anims.push(Animation {
            anim_enum: AnimEnum::BugWalk,
            sprites: vec![
                SpriteEnum::Bug1,
                SpriteEnum::Bug2,
                SpriteEnum::Bug3,
                SpriteEnum::Bug4,
            ],
            framerate: 8,
            one_shot: false,
        });
        anims.push(Animation {
            anim_enum: AnimEnum::TrunkWalk,
            sprites: vec![
                SpriteEnum::TrunkWalk2,
                SpriteEnum::TrunkWalk1,
                SpriteEnum::TrunkWalk3,
                SpriteEnum::TrunkWalk1,
            ],
            framerate: 6,
            one_shot: false,
        });
        anims.push(Animation {
            anim_enum: AnimEnum::TrunkIdle,
            sprites: vec![
                SpriteEnum::TrunkIdle1,
                SpriteEnum::TrunkIdle2,
                SpriteEnum::TrunkIdle3,
                SpriteEnum::TrunkIdle2,
            ],
            framerate: 6,
            one_shot: false,
        });
        Animations { anims }
    }

    /// Look the table's entry for `anim_enum` up. `StaticSprite` has no entry.
    pub fn get(&self, anim_enum: AnimEnum) -> (anim: Animation)
        requires
            self.wf(),
            anim_enum != AnimEnum::StaticSprite,
        ensures
            is_table_anim(anim, anim_enum),
            anim.wf(),
    {
        let index: usize = match anim_enum {
            AnimEnum::MouseyIdle => 0,
            AnimEnum::MouseyWalk => 1,
            AnimEnum::BugWalk => 2,
            AnimEnum::TrunkWalk => 3,
            AnimEnum::TrunkIdle => 4,
            // Ruled out by the caller: static sprites have no table entry.
            AnimEnum::StaticSprite => 0,
        };
        let entry = &self.anims[index];
        let anim = Animation {
            anim_enum: entry.anim_enum,
            sprites: clone_sprites(&entry.sprites),
            framerate: entry.framerate,
            one_shot: entry.one_shot,
        };
        proof {
            assert(spec_anim_sprites(anim_enum).len() > 0);
        }
        anim
    }
}

impl Default for Animations {
    /// The freshly built animation table.
    fn default() -> (animations: Animations)
        ensures
            animations.wf(),
    {
        Animations::new()
    }
}

/// Copy a sprite list element by element.
fn clone_sprites(sprites: &Vec<SpriteEnum>) -> (cloned: Vec<SpriteEnum>)
    ensures
        cloned@ == sprites@,
{
    let mut cloned: Vec<SpriteEnum> = Vec::new();
    let mut i: usize = 0;
    while i < sprites.len()
        invariant
            i <= sprites@.len(),
            cloned@ == sprites@.subrange(0, i as int),
        decreases sprites@.len() - i,
    {
        cloned.push(sprites[i]);
        i += 1;
        proof {
            assert(cloned@ == sprites@.subrange(0, i as int));
        }
    }
    proof {
        assert(sprites@.subrange(0, sprites@.len() as int) == sprites@);
    }
    cloned
}

/// How many nanoseconds one frame of an animation lasts.
pub open spec fn ns_per_frame(framerate: u32) -> int {
    1_000_000_000int / framerate as int
}

/// Plays one animation at a time on one entity, advancing a frame whenever
/// the elapsed time passes the next frame's start.
pub struct Animator {
    pub time_ns: u64,
    pub current_anim: Animation,
    pub playing: bool,
    pub current_frame: usize,
}

/// Whether one step of a playing animator advances to the next frame: the
/// elapsed time has passed the end of the current frame.
pub open spec fn spec_step_advances(animator: Animator) -> bool {
    ns_per_frame(animator.current_anim.framerate) * (animator.current_frame + 1)
        < animator.time_ns
}

/// The animator after one step with `delta_ns` more nanoseconds elapsed.
/// A paused animator is left alone. A playing one advances a frame when due,
/// wrapping to the start of the loop (and trimming the elapsed time to the
/// cycle) after the last frame; the new elapsed time saturates at the top of
/// the counter rather than wrap.
pub open spec fn spec_step(animator: Animator, delta_ns: u64) -> Animator {
    if !animator.playing {
        animator
    } else {
        let npf = ns_per_frame(animator.current_anim.framerate);
        let len = animator.current_anim.sprites@.len() as int;
        let frame = if spec_step_advances(animator) {
            (animator.current_frame + 1) % len
        } else {
            animator.current_frame as int
        };
        let trimmed = if spec_step_advances(animator) && frame == 0 {
            animator.time_ns as int % (npf * len)
        } else {
            animator.time_ns as int
        };
        let time = if trimmed + delta_ns > u64::MAX {
            u64::MAX as int
        } else {
            trimmed + delta_ns
        };
        Animator {
            time_ns: time as u64,
            current_frame: frame as usize,
            ..animator
        }
    }
}

/// The sprite one step of the animator asks the engine to show: the frame it
/// advanced to, or the first frame when the animation has just started, or
/// none when nothing changed.
pub open spec fn spec_step_output(animator: Animator) -> Option<SpriteEnum> {
    if !animator.playing {
        None
    } else if spec_step_advances(animator) {
        let len = animator.current_anim.sprites@.len() as int;
        Some(animator.current_anim.sprites@[(animator.current_frame + 1) % len])
    } else if animator.time_ns == 0 {
        Some(animator.current_anim.sprites@[0])
    } else {
        None
    }
}

impl Animator {
    /// The current frame always points into the current animation.
    pub open spec fn wf(self) -> bool {
        &&& self.current_anim.wf()
        &&& self.current_frame < self.current_anim.sprites@.len()
    }

    /// A fresh animator: paused at the first frame of `anim`.
    pub fn new(anim: Animation) -> (animator: Animator)
        requires
            anim.wf(),
        ensures
            animator == (Animator {
                time_ns: 0,
                current_anim: anim,
                playing: false,
                current_frame: 0,
            }),
            animator.wf(),
    {
        Animator { time_ns: 0, current_anim: anim, playing: false, current_frame: 0 }
    }

    /// Start `anim` from its first frame — unless the same looping animation
    /// is already playing, which keeps its place rather than restart.
    pub fn play_anim(&mut self, anim: Animation)
        requires
            old(self).wf(),
            anim.wf(),
        ensures
            final(self).wf(),
            (!anim.one_shot && old(self).current_anim.anim_enum == anim.anim_enum
                && old(self).playing) ==> *final(self) == *old(self),
            !(!anim.one_shot && old(self).current_anim.anim_enum == anim.anim_enum
                && old(self).playing) ==> *final(self) == (Animator {
                time_ns: 0,
                current_anim: anim,
                playing: true,
                current_frame: 0,
            }),
    {
        if !anim.one_shot && self.current_anim.anim_enum == anim.anim_enum && self.playing {
            return;
        }
        self.time_ns = 0;
        self.current_anim = anim;
        self.playing = true;
        self.current_frame = 0;
    }

    /// Stop advancing; everything else stays put.
    pub fn pause(&mut self)
        ensures
            *final(self) == (Animator { playing: false, ..*old(self) }),
    {
        self.playing = false;
    }

    /// Take up advancing again where the animator stood.
    pub fn resume(&mut self)
        ensures
            *final(self) == (Animator { playing: true, ..*old(self) }),
    {
        self.playing = true;
    }

    /// Show `sprite` alone: a one-shot animation of that single sprite.
    pub fn play_sprite(&mut self, sprite: SpriteEnum)
        ensures
            final(self).playing,
            final(self).time_ns == 0,
            final(self).current_frame == 0,
            final(self).current_anim.anim_enum == AnimEnum::StaticSprite,
            final(self).current_anim.sprites@ == seq![sprite],
            final(self).current_anim.framerate == 1,
            final(self).current_anim.one_shot,
            final(self).wf(),
    {
        self.playing = true;
        self.current_anim = Animation {
            anim_enum: AnimEnum::StaticSprite,
            sprites: vec![sprite],
            framerate: 1,
            one_shot: true,
        };
        self.time_ns = 0;
        self.current_frame = 0;
    }

    /// One engine frame of animation playback, `delta_ns` nanoseconds after
    /// the last one. Returns the sprite to show now, if it changed.
    pub fn step(&mut self, delta_ns: u64) -> (shown: Option<SpriteEnum>)
        requires
            old(self).wf(),
        ensures
            final(self).wf(),
            *final(self) == spec_step(*old(self), delta_ns),
            shown == spec_step_output(*old(self)),
    {
        if !self.playing {
            return None;
        }
        let mut shown: Option<SpriteEnum> = None;
        if self.time_ns == 0 {
            shown = Some(self.current_anim.sprites[0]);
        }
        let npf: u64 = 1_000_000_000 / (self.current_anim.framerate as u64);
        let len: usize = self.current_anim.sprites.len();
        proof {
            assert((npf as int) * (self.current_frame as int + 1)
                <= 1_000_000_000int * (usize::MAX as int + 1)) by (nonlinear_arith)
                requires
                    0 <= npf <= 1_000_000_000,
                    0 <= self.current_frame <= usize::MAX;
        }
        let threshold: u128 = (npf as u128) * ((self.current_frame as u128) + 1);
        if threshold < self.time_ns as u128 {
            self.current_frame = (self.current_frame + 1) % len;
            if self.current_frame == 0 {
                proof {
                    vstd::arithmetic::div_mod::lemma_div_is_ordered_by_denominator(
                        1_000_000_000int,
                        self.current_anim.framerate as int,
                        1_000_000_000int,
                    );
                    assert(1 <= (npf as int) * (len as int)
                        <= 1_000_000_000int * (usize::MAX as int)) by (nonlinear_arith)
                        requires
                            1 <= npf <= 1_000_000_000,
                            1 <= len <= usize::MAX;
                }
                let cycle: u128 = (npf as u128) * (len as u128);
                proof {
                    assert(0 < cycle);
                    assert(self.time_ns as u128 % cycle <= self.time_ns as u128)
                        by (nonlinear_arith)
                        requires 0 < cycle;
                }
                self.time_ns = ((self.time_ns as u128) % cycle) as u64;
            }
            shown = Some(self.current_anim.sprites[self.current_frame]);
        }
        self.time_ns = if delta_ns > u64::MAX - self.time_ns {
            u64::MAX
        } else {
            self.time_ns + delta_ns
        };
        shown
    }
}

} // verus!
