//! Progression systems: combo scoring, shop, talents, achievements, loot,
//! quests and prestige.

pub mod combo;
pub mod shop;
pub mod talents;
pub mod achievements;
pub mod quests;
pub mod prestige;
pub mod loot;
pub mod collision;

use vstd::prelude::*;

verus! {

/// The running game statistics that achievements and quests measure
/// progress against.
#[derive(Clone, Copy, Debug)]
pub struct GameProgress {
    pub enemies_killed: u32,
    pub coins_collected: u32,
    pub current_level: u32,
    pub current_wave: u32,
    pub max_combo: u32,
}

} // verus!
