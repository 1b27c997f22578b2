use roguelite_core::systems::combo::{ComboEvent, ComboTier, ComboTracker};
use roguelite_core::systems::prestige::{handle_prestige, prestige_fits, MetaProgression, PrestigeOutcome, PrestigeSystem, PrestigeType};
use roguelite_core::systems::quests::{check_quest_completion, ActiveQuest, ActiveQuests, Quest, QuestObjective, QuestRewards, QuestType};
use roguelite_core::systems::talents::{
    handle_talent_unlocks, initialize_talent_tree, PlayerTalents, TalentTree, TalentTreeType, UnlockOutcome, UnlockTalentEvent,
};
use roguelite_core::table::Table;
use roguelite_core::tilemap::pyxel_helper::debug_tile_indices;
use roguelite_core::tilemap::tilemap_config::tile_index;
use roguelite_core::ui::main_game_menu::GameState;
use roguelite_core::ui::talent_menu::{talent_menu_input, talent_menu_text, ButtonState};

#[test]
fn combo_event_batches() {
    let mut t = ComboTracker::new();
    let events = vec![ComboEvent::Kill, ComboEvent::Reset, ComboEvent::Hit, ComboEvent::SpecialKill("x".to_string())];
    assert!(t.can_take_events(&events));
    let step = t.handle_combo_events(&events);
    assert!(step.restart_timer);
    assert!(!step.tier_changed);
    assert_eq!(t.current_combo, 6);
    assert_eq!(t.max_combo, 6);
    assert_eq!(t.total_combo_points, 2 + 0 + 1 + 6);
    let resets = vec![ComboEvent::Reset];
    let step = t.handle_combo_events(&resets);
    assert!(!step.restart_timer);
    assert_eq!((t.current_combo, t.max_combo), (0, 6));
    let many: Vec<ComboEvent> = (0..3).map(|_| ComboEvent::SpecialKill("y".to_string())).collect();
    assert!(t.handle_combo_events(&many).tier_changed);
    assert_eq!(t.combo_tier, ComboTier::Bronze);
    let mut full = ComboTracker::new();
    full.current_combo = u32::MAX - 1;
    full.max_combo = u32::MAX - 1;
    full.combo_tier = ComboTier::Diamond;
    full.combo_multiplier = 5000;
    assert!(!full.can_take_event(&ComboEvent::Kill));
    assert!(full.can_take_event(&ComboEvent::Hit));
    assert!(!full.can_take_events(&vec![ComboEvent::Hit, ComboEvent::Hit]));
}

#[test]
fn talent_unlock_batches() {
    let mut tree = TalentTree::new();
    initialize_talent_tree(&mut tree);
    let mut player = PlayerTalents::new();
    player.calculate_talent_points(3);
    let req = |id: &str| UnlockTalentEvent { talent_id: id.to_string(), tree_type: TalentTreeType::Offense };
    let out = handle_talent_unlocks(&mut player, &tree, &vec![req("sharp_blade"), req("multishot"), req("sharp_blade"), req("none")]);
    assert_eq!(out, vec![UnlockOutcome::Unlocked(1), UnlockOutcome::NotEnoughPoints, UnlockOutcome::Unlocked(2), UnlockOutcome::UnknownTalent]);
    assert_eq!(player.available_points, 1);
    assert_eq!(player.spent_points.get(&TalentTreeType::Offense), Some(&2));
}

#[test]
fn talent_menu_texts() {
    let mut tree = TalentTree::new();
    initialize_talent_tree(&mut tree);
    let mut player = PlayerTalents::new();
    player.calculate_talent_points(1);
    player.unlock(&tree, TalentTreeType::Defense, &"thick_skin".to_string());
    let t = talent_menu_text(&tree, &player);
    assert_eq!(t.title, "Talent Tree");
    assert_eq!(t.points_line, "Available Points: 0");
    assert_eq!(t.instructions, "Press T to close talent menu");
    let defense = t.trees.iter().find(|x| x.name == "Path of Resilience").unwrap();
    assert_eq!(defense.buttons[0].level_line, "Level: 1/10");
    assert_eq!(defense.buttons[0].state, ButtonState::Unlocked);
    let offense = t.trees.iter().find(|x| x.name == "Path of Destruction").unwrap();
    assert_eq!(offense.buttons[0].state, ButtonState::Unaffordable);
    assert_eq!(offense.buttons[0].level_line, "Level: 0/5");
    assert_eq!(talent_menu_input(GameState::Playing), GameState::Paused);
    assert_eq!(talent_menu_input(GameState::InGame), GameState::InGame);
}

#[test]
fn prestige_from_default_meta() {
    let mut p = PrestigeSystem::default();
    let mut meta = MetaProgression::default();
    assert!(prestige_fits(&p, &meta, PrestigeType::Standard, 60));
    let out = handle_prestige(&mut p, &mut meta, PrestigeType::Standard, 60);
    assert_eq!(out, PrestigeOutcome::Restart { level: 1, milestone: true });
    assert_eq!((p.prestige_points, p.current_prestige, p.total_prestiges), (70, 1, 1));
    assert_eq!((p.legacy_points, p.ascension_shards), (0, 0));
    assert_eq!(meta.starting_bonuses.gold, 0);
    let gold = meta.permanent_upgrades.get(&"starting_gold".to_string()).unwrap();
    assert_eq!((gold.current_level, gold.max_level), (0, 10));
    p.prestige_points = u32::MAX - 5;
    assert!(!prestige_fits(&p, &meta, PrestigeType::Standard, 10));
    p.prestige_points = 0;
    p.total_prestiges = 0;
    // Reaching the first milestone again would pay 10 more points.
    p.prestige_points = u32::MAX - 10;
    assert!(!prestige_fits(&p, &meta, PrestigeType::Standard, 5));
    assert!(prestige_fits(&p, &meta, PrestigeType::Ascension, 0));
}

fn quest(id: &str, target: u32) -> ActiveQuest {
    ActiveQuest {
        quest: Quest {
            id: id.to_string(),
            name: id.to_string(),
            description: String::new(),
            quest_type: QuestType::Story,
            objectives: vec![QuestObjective::ReachWave(target)],
            rewards: QuestRewards { experience: 0, currency: vec![], items: vec![], unlock: None },
            time_limit: None,
            repeatable: false,
        },
        progress: Table::new(),
        start_time: 7,
        completed: false,
    }
}

#[test]
fn second_completion_pass_is_idle() {
    let mut active = ActiveQuests::new();
    let mut q = quest("a", 1);
    q.progress.insert(0, 1);
    active.wave_challenges.push(q);
    active.wave_challenges.push(quest("b", 3));
    assert_eq!(check_quest_completion(&mut active), vec!["a".to_string()]);
    assert!(check_quest_completion(&mut active).is_empty());
    assert!(active.wave_challenges[0].completed);
    assert!(!active.wave_challenges[1].completed);
    assert_eq!(active.wave_challenges[0].start_time, 7);
    assert_eq!(active.wave_challenges[0].progress.get(&0), Some(&1));
}

#[test]
fn grid_fields_are_indices() {
    let lines = debug_tile_indices();
    for r in 0..16 {
        let line = &lines[2 + r];
        assert_eq!(line.len(), 64);
        for c in 0..16 {
            assert_eq!(&line[4 * c..4 * c + 4], format!("{:3} ", tile_index(r, c)));
        }
    }
}

#[test]
fn ranks_stay_within_their_maximum() {
    let mut tree = TalentTree::new();
    initialize_talent_tree(&mut tree);
    let mut player = PlayerTalents::new();
    player.calculate_talent_points(20);
    let req = UnlockTalentEvent { talent_id: "sharp_blade".to_string(), tree_type: TalentTreeType::Offense };
    let requests: Vec<UnlockTalentEvent> =
        (0..8).map(|_| UnlockTalentEvent { talent_id: req.talent_id.clone(), tree_type: req.tree_type }).collect();
    let out = handle_talent_unlocks(&mut player, &tree, &requests);
    assert_eq!(out[4], UnlockOutcome::Unlocked(5));
    assert_eq!(out[5], UnlockOutcome::MaxRank);
    assert_eq!(out[7], UnlockOutcome::MaxRank);
    assert_eq!(player.unlocked_talents.get(&"sharp_blade".to_string()), Some(&5));
    assert_eq!(player.available_points, 15);
}
