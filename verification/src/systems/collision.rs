//! What standing on a special tile does to the player.
use vstd::prelude::*;
use crate::tilemap::level_loader::{DamageZone, InteractionType, Interactive};

verus! {

/// What touching one tile did.
#[derive(Clone, Copy, PartialEq, Eq, Structural, Debug)]
pub struct ContactOutcome {
    /// The player's health afterwards.
    pub health: i32,
    /// Damage was dealt, so the damage cooldown starts over.
    pub damage_dealt: bool,
    /// The tile is a portal.
    pub entered_portal: bool,
}

/// The player touches a tile: a damage zone deals its damage when the
/// once-a-second damage cooldown is over, and a portal is entered. Doors
/// and chests do nothing on touch.
pub fn handle_tile_collisions(
    health: i32,
    damage_zone: Option<DamageZone>,
    interactive: Option<Interactive>,
    damage_ready: bool,
) -> (outcome: ContactOutcome)
    requires
        damage_ready && damage_zone is Some ==> i32::MIN <= health - damage_zone->Some_0.damage <= i32::MAX,
    ensures
        outcome.damage_dealt == (damage_ready && damage_zone is Some),
        outcome.health == (if outcome.damage_dealt { health - damage_zone->Some_0.damage } else { health as int }),
        outcome.entered_portal == (interactive == Some(Interactive { interaction_type: InteractionType::Portal })),
{
    let mut h = health;
    let mut dealt = false;
    if let Some(zone) = damage_zone {
        if damage_ready {
            h = health - zone.damage;
            dealt = true;
        }
    }
    let entered = match interactive {
        Some(i) => match i.interaction_type {
            InteractionType::Portal => true,
            InteractionType::Door => false,
            InteractionType::Chest => false,
        },
        None => false,
    };
    ContactOutcome { health: h, damage_dealt: dealt, entered_portal: entered }
}

} // verus!
