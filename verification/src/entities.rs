//! The player, enemies and collectibles: their starting stats and the
//! sprite animations they spawn with.
use vstd::prelude::*;
use crate::animation::{AnimationClip, SpriteSheetAnimation};
use crate::text::owned;

verus! {

/// The player's starting stats.
#[derive(Clone, Copy, PartialEq, Eq, Structural, Debug)]
pub struct Player {
    /// Movement speed, in pixels per second.
    pub speed: u32,
    pub health: i32,
}

impl Default for Player {
    /// Speed 500, health 100.
    fn default() -> (p: Self)
        ensures
            p.speed == 500,
            p.health == 100,
    {
        Player { speed: 500, health: 100 }
    }
}

#[derive(Clone, Copy, PartialEq, Eq, Structural, Debug)]
pub enum EnemyType {
    Goblin,
    Skeleton,
    Orc,
}

/// A heading, as steps along each axis.
#[derive(Clone, Copy, PartialEq, Eq, Structural, Debug)]
pub struct Heading {
    pub x: i32,
    pub y: i32,
}

/// An enemy's starting stats.
#[derive(Clone, Copy, PartialEq, Eq, Structural, Debug)]
pub struct Enemy {
    pub enemy_type: EnemyType,
    /// Movement speed, in pixels per second.
    pub speed: u32,
    pub health: i32,
    /// Initial heading, a unit step along one axis.
    pub direction: Heading,
    /// How close the player must come to be chased, in pixels.
    pub detection_range: u32,
}

/// The starting stats of each kind: goblins are fast and frail and head
/// right, skeletons head up, orcs are slow and tough and head left.
pub open spec fn spec_enemy(enemy_type: EnemyType) -> Enemy {
    match enemy_type {
        EnemyType::Goblin => Enemy { enemy_type, speed: 150, health: 30, direction: Heading { x: 1, y: 0 }, detection_range: 200 },
        EnemyType::Skeleton => Enemy { enemy_type, speed: 100, health: 50, direction: Heading { x: 0, y: 1 }, detection_range: 250 },
        EnemyType::Orc => Enemy { enemy_type, speed: 80, health: 100, direction: Heading { x: -1i32, y: 0i32 }, detection_range: 150 },
    }
}

impl Enemy {
    /// A fresh enemy of the given kind.
    pub fn new(enemy_type: EnemyType) -> (e: Self)
        ensures
            e == spec_enemy(enemy_type),
    {
        match enemy_type {
            EnemyType::Goblin => Enemy { enemy_type, speed: 150, health: 30, direction: Heading { x: 1, y: 0 }, detection_range: 200 },
            EnemyType::Skeleton => Enemy { enemy_type, speed: 100, health: 50, direction: Heading { x: 0, y: 1 }, detection_range: 250 },
            EnemyType::Orc => Enemy { enemy_type, speed: 80, health: 100, direction: Heading { x: -1, y: 0 }, detection_range: 150 },
        }
    }
}

#[derive(Clone, Copy, PartialEq, Eq, Structural, Debug)]
pub enum CollectibleType {
    Coin,
    Gem,
    HealthPotion,
    ManaPotion,
}

/// A pickup and what it is worth.
#[derive(Clone, Copy, PartialEq, Eq, Structural, Debug)]
pub struct Collectible {
    pub collectible_type: CollectibleType,
    pub value: i32,
}

/// Coins are worth 1, gems 10, health potions 50, mana potions 30.
pub open spec fn spec_collectible_value(t: CollectibleType) -> i32 {
    match t {
        CollectibleType::Coin => 1,
        CollectibleType::Gem => 10,
        CollectibleType::HealthPotion => 50,
        CollectibleType::ManaPotion => 30,
    }
}

/// The sprite sheet of each kind of enemy.
pub open spec fn spec_enemy_sheet(t: EnemyType) -> Seq<char> {
    match t {
        EnemyType::Goblin => "sprites/goblin_sheet.png"@,
        EnemyType::Skeleton => "sprites/skeleton_sheet.png"@,
        EnemyType::Orc => "sprites/orc_sheet.png"@,
    }
}

/// The sprite sheet of each kind of pickup.
pub open spec fn spec_collectible_sheet(t: CollectibleType) -> Seq<char> {
    match t {
        CollectibleType::Coin => "sprites/coin_sheet.png"@,
        CollectibleType::Gem => "sprites/gem_sheet.png"@,
        CollectibleType::HealthPotion => "sprites/health_potion_sheet.png"@,
        CollectibleType::ManaPotion => "sprites/mana_potion_sheet.png"@,
    }
}

/// A clip over `start..=end`, `duration` thousandths of a second a frame.
pub open spec fn clip(start: usize, end: usize, duration: u32) -> AnimationClip {
    AnimationClip { start_index: start, end_index: end, frame_duration: duration }
}

/// The player sprite's clips: idle (frames 0-3, 0.2 s), walk (4-7, 0.1 s)
/// and attack (8-11, 0.05 s), idle playing with a 0.1 s timer.
pub fn player_animation() -> (a: SpriteSheetAnimation)
    ensures
        a.animations.as_map() == map!["idle"@ => clip(0, 3, 200), "walk"@ => clip(4, 7, 100), "attack"@ => clip(8, 11, 50)],
        a.current_animation@ == "idle"@,
        a.timer_duration == 100,
        a.timer_repeating,
        a.current_frame == 0,
        a.is_looping,
        a.is_playing,
{
    let mut a = SpriteSheetAnimation::new(100);
    a.add_animation(owned("idle"), AnimationClip { start_index: 0, end_index: 3, frame_duration: 200 });
    a.add_animation(owned("walk"), AnimationClip { start_index: 4, end_index: 7, frame_duration: 100 });
    a.add_animation(owned("attack"), AnimationClip { start_index: 8, end_index: 11, frame_duration: 50 });
    assert(a.animations.as_map() =~= map!["idle"@ => clip(0, 3, 200), "walk"@ => clip(4, 7, 100), "attack"@ => clip(8, 11, 50)]);
    a
}

/// What an enemy spawns with.
pub struct EnemySpawn {
    pub enemy: Enemy,
    pub sheet: String,
    pub animation: SpriteSheetAnimation,
}

/// An enemy of the given kind: its stats, its kind's sheet, and the idle
/// (frames 0-3, 0.3 s) and walk (4-7, 0.15 s) clips with idle playing on a
/// 0.15 s timer.
pub fn spawn_enemy(enemy_type: EnemyType) -> (s: EnemySpawn)
    ensures
        s.enemy == spec_enemy(enemy_type),
        s.sheet@ == spec_enemy_sheet(enemy_type),
        s.animation.animations.as_map() == map!["idle"@ => clip(0, 3, 300), "walk"@ => clip(4, 7, 150)],
        s.animation.current_animation@ == "idle"@,
        s.animation.timer_duration == 150,
        s.animation.timer_repeating,
        s.animation.current_frame == 0,
        s.animation.is_looping,
        s.animation.is_playing,
{
    let sheet = match enemy_type {
        EnemyType::Goblin => owned("sprites/goblin_sheet.png"),
        EnemyType::Skeleton => owned("sprites/skeleton_sheet.png"),
        EnemyType::Orc => owned("sprites/orc_sheet.png"),
    };
    let mut animation = SpriteSheetAnimation::new(150);
    animation.add_animation(owned("idle"), AnimationClip { start_index: 0, end_index: 3, frame_duration: 300 });
    animation.add_animation(owned("walk"), AnimationClip { start_index: 4, end_index: 7, frame_duration: 150 });
    assert(animation.animations.as_map() =~= map!["idle"@ => clip(0, 3, 300), "walk"@ => clip(4, 7, 150)]);
    EnemySpawn { enemy: Enemy::new(enemy_type), sheet, animation }
}

/// What a pickup spawns with.
pub struct CollectibleSpawn {
    pub collectible: Collectible,
    pub sheet: String,
    pub animation: SpriteSheetAnimation,
}

/// A pickup of the given kind: its value, its kind's sheet, and a `spin`
/// clip (frames 0-7, 0.1 s) playing in a loop.
pub fn spawn_collectible(collectible_type: CollectibleType) -> (s: CollectibleSpawn)
    ensures
        s.collectible == (Collectible { collectible_type, value: spec_collectible_value(collectible_type) }),
        s.sheet@ == spec_collectible_sheet(collectible_type),
        s.animation.animations.as_map() == map!["spin"@ => clip(0, 7, 100)],
        s.animation.current_animation@ == "spin"@,
        s.animation.timer_duration == 100,
        s.animation.timer_repeating,
        s.animation.current_frame == 0,
        s.animation.is_looping,
        s.animation.is_playing,
{
    let (sheet, value) = match collectible_type {
        CollectibleType::Coin => (owned("sprites/coin_sheet.png"), 1),
        CollectibleType::Gem => (owned("sprites/gem_sheet.png"), 10),
        CollectibleType::HealthPotion => (owned("sprites/health_potion_sheet.png"), 50),
        CollectibleType::ManaPotion => (owned("sprites/mana_potion_sheet.png"), 30),
    };
    let mut animation = SpriteSheetAnimation::new(100);
    animation.add_animation(owned("spin"), AnimationClip { start_index: 0, end_index: 7, frame_duration: 100 });
    assert(animation.animations.as_map() =~= map!["spin"@ => clip(0, 7, 100)]);
    animation.play("spin", true);
    CollectibleSpawn { collectible: Collectible { collectible_type, value }, sheet, animation }
}

} // verus!
