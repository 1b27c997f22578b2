use roguelite_core::animation::{animate_sprites, movement_clip, AnimationClip, SpriteSheetAnimation};
use roguelite_core::entities::{
    player_animation, spawn_collectible, spawn_enemy, CollectibleType, Enemy, EnemyType, Heading, Player,
};
use roguelite_core::systems::collision::handle_tile_collisions;
use roguelite_core::systems::shop::PlayerCurrency;
use roguelite_core::tilemap::level_loader::{DamageZone, InteractionType, Interactive};
use roguelite_core::ui::health_bars::HealthBarSettings;
use roguelite_core::ui::main_game_menu::{
    currency_line, handle_close_button, tab_title, toggle_menu, update_tab_content, GameState, MenuState, MenuTab,
};
use roguelite_core::ui::pause_menu::{handle_pause_menu_input, PauseButton};

fn clip(start: usize, end: usize) -> AnimationClip {
    AnimationClip { start_index: start, end_index: end, frame_duration: 100 }
}

#[test]
fn new_animation_is_idle_and_playing() {
    let a = SpriteSheetAnimation::new(150);
    assert_eq!(a.current_animation, "idle");
    assert_eq!(a.timer_duration, 150);
    assert!(a.is_playing && a.is_looping && a.timer_repeating);
    assert_eq!(a.animations.len(), 0);
}

#[test]
fn play_switches_known_clips_only() {
    let mut a = SpriteSheetAnimation::new(100);
    a.add_animation("walk".to_string(), AnimationClip { start_index: 4, end_index: 7, frame_duration: 80 });
    a.play("run", false);
    assert_eq!(a.current_animation, "idle");
    a.play("walk", false);
    assert_eq!(a.current_animation, "walk");
    assert_eq!(a.current_frame, 4);
    assert_eq!(a.timer_duration, 80);
    assert!(!a.timer_repeating);
    assert!(!a.is_looping);
    a.stop();
    assert!(!a.is_playing);
}

#[test]
fn looping_clip_wraps_and_one_shot_stops() {
    let mut a = SpriteSheetAnimation::new(100);
    a.add_animation("spin".to_string(), clip(0, 2));
    a.play("spin", true);
    let shown: Vec<_> = (0..4).map(|_| animate_sprites(&mut a, true).unwrap()).collect();
    assert_eq!(shown, vec![1, 2, 0, 1]);
    assert_eq!(animate_sprites(&mut a, false), None);
    a.play("spin", false);
    let shown: Vec<_> = (0..3).map(|_| animate_sprites(&mut a, true)).collect();
    assert_eq!(shown, vec![Some(1), Some(2), Some(2)]);
    assert!(!a.is_playing);
    assert_eq!(animate_sprites(&mut a, true), None);
    assert_eq!(a.current_frame, 2);
}

#[test]
fn missing_clip_does_not_step() {
    let mut a = SpriteSheetAnimation::new(100);
    assert_eq!(animate_sprites(&mut a, true), None);
    assert_eq!(a.current_frame, 0);
}

#[test]
fn movement_switches_clips() {
    assert_eq!(movement_clip(true, "idle"), Some("walk".to_string()));
    assert_eq!(movement_clip(true, "walk"), None);
    assert_eq!(movement_clip(false, "walk"), Some("idle".to_string()));
    assert_eq!(movement_clip(false, "idle"), None);
}

#[test]
fn entity_stats() {
    let p = Player::default();
    assert_eq!((p.speed, p.health), (500, 100));
    let g = Enemy::new(EnemyType::Goblin);
    assert_eq!((g.speed, g.health, g.detection_range), (150, 30, 200));
    assert_eq!(g.direction, Heading { x: 1, y: 0 });
    let o = Enemy::new(EnemyType::Orc);
    assert_eq!((o.speed, o.health, o.direction), (80, 100, Heading { x: -1, y: 0 }));
    let s = Enemy::new(EnemyType::Skeleton);
    assert_eq!((s.health, s.direction), (50, Heading { x: 0, y: 1 }));
}

#[test]
fn spawns_carry_sheets_and_clips() {
    let a = player_animation();
    assert_eq!(a.animations.len(), 3);
    assert_eq!(a.animations.get(&"attack".to_string()).unwrap().frame_duration, 50);
    let e = spawn_enemy(EnemyType::Skeleton);
    assert_eq!(e.sheet, "sprites/skeleton_sheet.png");
    assert_eq!(e.animation.animations.get(&"idle".to_string()).unwrap().frame_duration, 300);
    let c = spawn_collectible(CollectibleType::HealthPotion);
    assert_eq!(c.collectible.value, 50);
    assert_eq!(c.sheet, "sprites/health_potion_sheet.png");
    assert_eq!(c.animation.current_animation, "spin");
    assert_eq!(spawn_collectible(CollectibleType::Coin).collectible.value, 1);
    assert_eq!(spawn_collectible(CollectibleType::Gem).collectible.value, 10);
    assert_eq!(spawn_collectible(CollectibleType::ManaPotion).collectible.value, 30);
}

#[test]
fn tile_contact_outcomes() {
    let spikes = Some(DamageZone { damage: 10 });
    let out = handle_tile_collisions(100, spikes, None, true);
    assert_eq!((out.health, out.damage_dealt, out.entered_portal), (90, true, false));
    let out = handle_tile_collisions(100, spikes, None, false);
    assert_eq!((out.health, out.damage_dealt), (100, false));
    let portal = Some(Interactive { interaction_type: InteractionType::Portal });
    assert!(handle_tile_collisions(5, None, portal, true).entered_portal);
    let door = Some(Interactive { interaction_type: InteractionType::Door });
    assert!(!handle_tile_collisions(5, None, door, true).entered_portal);
}

#[test]
fn menu_key_swaps_playing_and_paused() {
    assert_eq!(toggle_menu(GameState::Playing), GameState::Paused);
    assert_eq!(toggle_menu(GameState::Paused), GameState::Playing);
    assert_eq!(toggle_menu(GameState::MainMenu), GameState::MainMenu);
    assert_eq!(toggle_menu(toggle_menu(GameState::Playing)), GameState::Playing);
    assert_eq!(handle_close_button(), GameState::Playing);
}

#[test]
fn tabs_remember_the_previous_one() {
    let mut m = MenuState::default();
    assert_eq!(m.current_tab, MenuTab::Shop);
    assert_eq!(m.previous_tab, None);
    m.handle_tab_buttons(MenuTab::Quests);
    assert_eq!((m.current_tab, m.previous_tab), (MenuTab::Quests, Some(MenuTab::Shop)));
}

#[test]
fn tab_text() {
    let money = PlayerCurrency { coins: 1234, gems: 0, soul_shards: 7 };
    assert_eq!(currency_line(&money), "💰 Coins: 1234 | 💎 Gems: 0 | 🔮 Soul Shards: 7");
    let shop = update_tab_content(&MenuState::default(), &money);
    assert_eq!(shop.len(), 3);
    assert_eq!(shop[0], "🛒 Shop");
    assert!(shop[2].starts_with("\nShop items coming soon!"));
    let quests = update_tab_content(&MenuState { current_tab: MenuTab::Settings, previous_tab: None }, &money);
    assert_eq!(quests.len(), 2);
    assert_eq!(quests[0], tab_title(MenuTab::Settings));
    assert_eq!(quests[0], "⚙️ Settings");
}

#[test]
fn pause_menu_buttons() {
    let r = handle_pause_menu_input(PauseButton::Resume);
    assert_eq!((r.next_state, r.clear_world), (GameState::InGame, false));
    let m = handle_pause_menu_input(PauseButton::MainMenu);
    assert_eq!((m.next_state, m.clear_world), (GameState::MainMenu, true));
}

#[test]
fn health_bars_toggle() {
    let mut s = HealthBarSettings::default();
    assert!(s.enabled);
    assert!(!s.toggle_health_bars());
    assert!(s.toggle_health_bars());
}
