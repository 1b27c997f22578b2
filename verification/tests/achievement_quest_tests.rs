use roguelite_core::systems::achievements::{
    check_achievement_completion, handle_achievement_rewards, initialize_achievements, track_achievement_progress,
    AchievementRegistry, AchievementTier, PlayerAchievements,
};
use roguelite_core::systems::prestige::{
    check_prestige_eligibility, handle_prestige, MetaProgression, PrestigeOutcome, PrestigeSystem, PrestigeType,
};
use roguelite_core::systems::quests::{
    check_quest_completion, handle_quest_rewards, initialize_quests, update_quest_progress, ActiveQuest, ActiveQuests,
    CurrencyType as QuestCurrency, Quest, QuestManager, QuestObjective, QuestRewards, QuestType,
};
use roguelite_core::systems::shop::PlayerCurrency;
use roguelite_core::systems::GameProgress;
use roguelite_core::table::Table;

fn stats(kills: u32, coins: u32, level: u32, wave: u32, combo: u32) -> GameProgress {
    GameProgress { enemies_killed: kills, coins_collected: coins, current_level: level, current_wave: wave, max_combo: combo }
}

#[test]
fn tier_points() {
    assert_eq!(AchievementTier::Bronze.points(), 10);
    assert_eq!(AchievementTier::Silver.points(), 25);
    assert_eq!(AchievementTier::Gold.points(), 50);
    assert_eq!(AchievementTier::Platinum.points(), 100);
    assert_eq!(AchievementTier::Diamond.points(), 200);
}

#[test]
fn achievements_unlock_once_and_pay() {
    let mut registry = AchievementRegistry::new();
    initialize_achievements(&mut registry);
    assert_eq!(registry.achievements.len(), 5);
    let mut player = PlayerAchievements::new();
    track_achievement_progress(&mut player, &registry, &stats(1, 0, 3, 3, 60));
    assert_eq!(player.progress.get(&"first_blood".to_string()), Some(&1));
    assert_eq!(player.progress.get(&"wave_10".to_string()), Some(&3));
    assert_eq!(player.progress.get(&"combo_master".to_string()), Some(&50));
    let ids = check_achievement_completion(&mut player, &registry);
    assert_eq!(ids, vec!["first_blood".to_string(), "combo_master".to_string()]);
    assert_eq!(player.total_points, 60);
    assert_eq!(player.unlocked.get(&"first_blood".to_string()), Some(&true));
    // Unlocked achievements are not unlocked or paid for again.
    track_achievement_progress(&mut player, &registry, &stats(5, 0, 3, 3, 60));
    let again = check_achievement_completion(&mut player, &registry);
    assert!(again.is_empty());
    assert_eq!(player.total_points, 60);
    assert_eq!(player.progress.get(&"first_blood".to_string()), Some(&1));

    let mut money = PlayerCurrency::new();
    assert!(handle_achievement_rewards(&registry, &mut money, &"first_blood".to_string()));
    assert_eq!(money.coins, 150);
    assert!(handle_achievement_rewards(&registry, &mut money, &"combo_master".to_string()));
    assert_eq!(money.gems, 25);
    assert!(!handle_achievement_rewards(&registry, &mut money, &"unknown".to_string()));
    assert_eq!((money.coins, money.gems), (150, 25));
}

fn kill_quest(id: &str, target: u32) -> Quest {
    Quest {
        id: id.to_string(),
        name: "Slayer".to_string(),
        description: "Kill things".to_string(),
        quest_type: QuestType::Daily,
        objectives: vec![QuestObjective::KillEnemies("any".to_string(), target)],
        rewards: QuestRewards { experience: 10, currency: vec![(QuestCurrency::Coins, 40), (QuestCurrency::Gems, 2)], items: vec![], unlock: None },
        time_limit: None,
        repeatable: true,
    }
}

#[test]
fn quests_progress_complete_and_pay() {
    let mut manager = QuestManager::new();
    initialize_quests(&mut manager);
    assert_eq!(manager.available_quests.len(), 4);
    assert_eq!(manager.daily_quest_pool.len(), 3);
    assert_eq!(manager.wave_challenges.get(&5).map(|v| v.len()), Some(1));

    let mut active = ActiveQuests::new();
    active.daily_quests.push(ActiveQuest { quest: kill_quest("k5", 5), progress: Table::new(), start_time: 0, completed: false });
    active.story_quests.push(ActiveQuest { quest: kill_quest("k50", 50), progress: Table::new(), start_time: 0, completed: false });
    update_quest_progress(&mut active, &stats(7, 0, 1, 1, 0));
    assert_eq!(active.daily_quests[0].progress.get(&0), Some(&5));
    assert_eq!(active.story_quests[0].progress.get(&0), Some(&7));
    let done = check_quest_completion(&mut active);
    assert_eq!(done, vec!["k5".to_string()]);
    assert!(active.daily_quests[0].completed);
    assert!(!active.story_quests[0].completed);
    // A completed quest does not complete again.
    assert!(check_quest_completion(&mut active).is_empty());

    let mut money = PlayerCurrency::new();
    assert!(handle_quest_rewards(&manager, &mut money, &mut active, &"daily_slayer".to_string()));
    assert_eq!(active.completed_quests.get(&"daily_slayer".to_string()), Some(&1));
    assert_eq!(money.coins, 300);
    assert!(!handle_quest_rewards(&manager, &mut money, &mut active, &"nope".to_string()));
}

#[test]
fn prestige_needs_wave_50_or_level_100() {
    assert!(!check_prestige_eligibility(49, 99));
    assert!(check_prestige_eligibility(50, 1));
    assert!(check_prestige_eligibility(1, 100));
}

#[test]
fn prestige_kinds() {
    let mut p = PrestigeSystem::new();
    let mut meta = MetaProgression::new();
    let out = handle_prestige(&mut p, &mut meta, PrestigeType::Standard, 7);
    assert_eq!(out, PrestigeOutcome::Restart { level: 1, milestone: true });
    // The first-prestige milestone adds 10 prestige points.
    assert_eq!(p.prestige_points, 17);
    assert_eq!((p.current_prestige, p.total_prestiges), (1, 1));
    let out = handle_prestige(&mut p, &mut meta, PrestigeType::Standard, 3);
    assert_eq!(out, PrestigeOutcome::Restart { level: 1, milestone: false });
    assert_eq!(p.prestige_points, 20);
    for _ in 0..10 {
        handle_prestige(&mut p, &mut meta, PrestigeType::Standard, 0);
    }
    assert_eq!(p.current_prestige, 12);
    assert_eq!(handle_prestige(&mut p, &mut meta, PrestigeType::Ascension, 0), PrestigeOutcome::Ascended(1));
    assert_eq!((p.current_prestige, p.ascension_shards), (0, 2));
    assert_eq!(handle_prestige(&mut p, &mut meta, PrestigeType::Rebirth, 0), PrestigeOutcome::Reborn(2));
    assert_eq!((p.total_prestiges, p.current_prestige), (0, 0));
    assert_eq!(p.legacy_points, 3);
}
