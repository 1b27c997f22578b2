use roguelite_core::systems::loot::{initialize_loot_tables, CollectedLoot, LootSource, LootTable, LootType, MaterialType, Rarity};
use roguelite_core::systems::talents::{
    bonus_per_rank, initialize_talent_tree, PlayerTalents, TalentTree, TalentTreeType, UnlockOutcome,
};

#[test]
fn talent_trees_are_installed() {
    let mut tree = TalentTree::new();
    initialize_talent_tree(&mut tree);
    assert_eq!(tree.trees.len(), 3);
    let offense = tree.trees.get(&TalentTreeType::Offense).unwrap();
    assert_eq!(offense.name, "Path of Destruction");
    let blade = offense.talents.get(&"sharp_blade".to_string()).unwrap();
    assert_eq!((blade.max_ranks, blade.cost_per_rank), (5, 1));
    let multishot = offense.talents.get(&"multishot".to_string()).unwrap();
    assert_eq!(multishot.requirements.points_in_tree, 10);
}

#[test]
fn unlocking_moves_points_into_the_tree() {
    let mut tree = TalentTree::default();
    initialize_talent_tree(&mut tree);
    let mut player = PlayerTalents::new();
    let blade = "sharp_blade".to_string();
    assert_eq!(player.unlock(&tree, TalentTreeType::Offense, &blade), UnlockOutcome::NotEnoughPoints);
    player.calculate_talent_points(6);
    assert_eq!(player.available_points, 6);
    assert_eq!(player.unlock(&tree, TalentTreeType::Offense, &"nothing".to_string()), UnlockOutcome::UnknownTalent);
    assert_eq!(player.unlock(&tree, TalentTreeType::Offense, &"critical_precision".to_string()), UnlockOutcome::TreeLocked);
    for rank in 1..=5 {
        assert_eq!(player.unlock(&tree, TalentTreeType::Offense, &blade), UnlockOutcome::Unlocked(rank));
    }
    assert_eq!(player.unlock(&tree, TalentTreeType::Offense, &blade), UnlockOutcome::MaxRank);
    assert_eq!(player.available_points, 1);
    assert_eq!(player.spent_points.get(&TalentTreeType::Offense), Some(&5));
    // Available plus spent stays the level's worth of points.
    assert_eq!(player.unlock(&tree, TalentTreeType::Offense, &"critical_precision".to_string()), UnlockOutcome::Unlocked(1));
    assert_eq!(player.available_points, 0);
    assert_eq!(player.spent_points.get(&TalentTreeType::Offense), Some(&6));
    player.calculate_talent_points(10);
    assert_eq!(player.available_points, 4);
    player.calculate_talent_points(3);
    assert_eq!(player.available_points, 0);
}

#[test]
fn talent_bonus_rates() {
    assert_eq!(bonus_per_rank("damage_increase", "sharp_blade"), Some(100));
    assert_eq!(bonus_per_rank("damage_increase", "big_damage_up"), Some(100));
    assert_eq!(bonus_per_rank("cooldown_reduction", "fast_cooldown"), Some(50));
    assert_eq!(bonus_per_rank("health_increase", "thick_skin"), Some(10_000));
    assert_eq!(bonus_per_rank("health_increase", "swift_feet"), None);
    assert_eq!(bonus_per_rank("speed", "sharp_blade"), None);
}

#[test]
fn rarity_chances_sum_to_one() {
    let all = [Rarity::Common, Rarity::Uncommon, Rarity::Rare, Rarity::Epic, Rarity::Legendary, Rarity::Mythic];
    let total: u32 = all.iter().map(|r| r.drop_chance()).sum();
    assert_eq!(total, 1000);
    assert_eq!(Rarity::Common.drop_chance(), 600);
    for w in all.windows(2) {
        assert!(w[0].drop_chance() > w[1].drop_chance());
    }
}

#[test]
fn loot_tables_cover_goblins() {
    let mut table = LootTable::new();
    initialize_loot_tables(&mut table);
    let drops = table.drops_for(&LootSource::Enemy("goblin".to_string())).unwrap();
    assert!(!drops.is_empty());
    assert!(table.drops_for(&LootSource::Enemy("dragon".to_string())).is_none());
    assert!(table.drops_for(&LootSource::Boss("goblin_king".to_string())).is_some());
}

#[test]
fn collecting_counts_by_rarity_and_material() {
    let mut got = CollectedLoot::new();
    got.record_collection(Rarity::Rare, LootType::Material(MaterialType::IronOre));
    got.record_collection(Rarity::Rare, LootType::Material(MaterialType::IronOre));
    got.record_collection(Rarity::Common, LootType::Experience(5));
    assert_eq!(got.total_items.get(&Rarity::Rare), Some(&2));
    assert_eq!(got.total_items.get(&Rarity::Common), Some(&1));
    assert_eq!(got.materials.get(&MaterialType::IronOre), Some(&2));
    assert_eq!(got.equipment.len(), 0);
}
