use roguelite_core::systems::combo::{combo_coin_bonus, trigger_combo_rewards, ComboEvent, ComboTier, ComboTracker};
use roguelite_core::systems::shop::{
    generate_shop_items, initialize_shop, CurrencyType, PlayerCurrency, PurchaseOutcome, PurchasedUpgrades,
    ShopInventory,
};
use roguelite_core::systems::GameProgress;

#[test]
fn combo_tiers_follow_thresholds() {
    assert_eq!(ComboTier::from_combo(0), ComboTier::NoTier);
    assert_eq!(ComboTier::from_combo(9), ComboTier::NoTier);
    assert_eq!(ComboTier::from_combo(10), ComboTier::Bronze);
    assert_eq!(ComboTier::from_combo(24), ComboTier::Bronze);
    assert_eq!(ComboTier::from_combo(25), ComboTier::Silver);
    assert_eq!(ComboTier::from_combo(50), ComboTier::Gold);
    assert_eq!(ComboTier::from_combo(100), ComboTier::Platinum);
    assert_eq!(ComboTier::from_combo(199), ComboTier::Platinum);
    assert_eq!(ComboTier::from_combo(200), ComboTier::Diamond);
}

#[test]
fn combo_multipliers_in_thousandths() {
    assert_eq!(ComboTier::NoTier.multiplier(), 1000);
    assert_eq!(ComboTier::Bronze.multiplier(), 1250);
    assert_eq!(ComboTier::Silver.multiplier(), 1500);
    assert_eq!(ComboTier::Gold.multiplier(), 2000);
    assert_eq!(ComboTier::Platinum.multiplier(), 3000);
    assert_eq!(ComboTier::Diamond.multiplier(), 5000);
}

#[test]
fn combo_events_build_and_reset() {
    let mut t = ComboTracker::new();
    let step = t.handle_event(&ComboEvent::Hit);
    assert!(step.restart_timer);
    assert!(!step.tier_changed);
    assert_eq!(t.current_combo, 1);
    assert_eq!(t.total_combo_points, 1);
    t.handle_event(&ComboEvent::Kill);
    assert_eq!(t.current_combo, 3);
    assert_eq!(t.total_combo_points, 4);
    t.handle_event(&ComboEvent::SpecialKill("boss".to_string()));
    t.handle_event(&ComboEvent::SpecialKill("boss".to_string()));
    assert_eq!(t.current_combo, 13);
    assert_eq!(t.combo_tier, ComboTier::Bronze);
    assert_eq!(t.combo_multiplier, 1250);
    assert_eq!(t.max_combo, 13);
    let step = t.handle_event(&ComboEvent::Reset);
    assert!(!step.restart_timer);
    assert!(step.tier_changed);
    assert_eq!(t.current_combo, 0);
    assert_eq!(t.max_combo, 13);
    assert_eq!(t.combo_tier, ComboTier::NoTier);
}

#[test]
fn combo_expires_only_when_timer_finishes() {
    let mut t = ComboTracker::new();
    t.handle_event(&ComboEvent::Kill);
    t.expire(false);
    assert_eq!(t.current_combo, 2);
    t.expire(true);
    assert_eq!(t.current_combo, 0);
    assert_eq!(t.max_combo, 2);
    assert_eq!(t.combo_multiplier, 1000);
}

#[test]
fn combo_rewards_pay_by_peak_tier() {
    assert_eq!(combo_coin_bonus(5), 0);
    assert_eq!(combo_coin_bonus(10), 10);
    assert_eq!(combo_coin_bonus(30), 25);
    assert_eq!(combo_coin_bonus(60), 50);
    assert_eq!(combo_coin_bonus(150), 100);
    assert_eq!(combo_coin_bonus(500), 250);
    let mut t = ComboTracker::new();
    for _ in 0..6 {
        t.handle_event(&ComboEvent::SpecialKill("x".to_string()));
    }
    let mut c = PlayerCurrency::new();
    // Still running: nothing paid.
    assert_eq!(trigger_combo_rewards(&t, &mut c), 0);
    t.expire(true);
    assert_eq!(trigger_combo_rewards(&t, &mut c), 25);
    assert_eq!(c.coins, 125);
}

#[test]
fn currency_starts_with_100_coins() {
    let c = PlayerCurrency::new();
    assert_eq!((c.coins, c.gems, c.soul_shards), (100, 0, 0));
    let d = PlayerCurrency::default();
    assert_eq!(d.balance(CurrencyType::Coins), 100);
    let mut e = PlayerCurrency::default();
    e.credit(CurrencyType::Gems, 7);
    assert_eq!(e.balance(CurrencyType::Gems), 7);
    assert_eq!(e.balance(CurrencyType::SoulShards), 0);
}

#[test]
fn shop_catalog_has_five_items() {
    let items = generate_shop_items();
    let ids: Vec<&str> = items.iter().map(|i| i.id.as_str()).collect();
    assert_eq!(ids, vec!["health_boost_1", "damage_boost_1", "crit_boost_1", "lifesteal_1", "thorns_1"]);
    assert_eq!(items[0].cost, 100);
    assert_eq!(items[3].stock, 1);
    assert_eq!(items[0].stock, -1);
    let mut shop = ShopInventory::new();
    initialize_shop(&mut shop);
    assert_eq!(shop.items.len(), 5);
    assert_eq!(shop.refresh_cost, 50);
}

#[test]
fn purchase_outcomes() {
    let mut shop = ShopInventory::default();
    initialize_shop(&mut shop);
    let mut money = PlayerCurrency::new();
    let mut bought = PurchasedUpgrades::new();
    assert_eq!(shop.purchase(&mut money, &mut bought, &"nope".to_string()), PurchaseOutcome::UnknownItem);
    assert_eq!(shop.purchase(&mut money, &mut bought, &"damage_boost_1".to_string()), PurchaseOutcome::CannotAfford(1));
    assert_eq!(money.coins, 100);
    assert_eq!(shop.purchase(&mut money, &mut bought, &"health_boost_1".to_string()), PurchaseOutcome::Bought(0));
    assert_eq!(money.coins, 0);
    assert_eq!(shop.items[0].stock, -1);
    assert_eq!(bought.upgrades.get(&"health_boost_1".to_string()), Some(&1));
    money.credit(CurrencyType::Coins, 1000);
    assert_eq!(shop.purchase(&mut money, &mut bought, &"lifesteal_1".to_string()), PurchaseOutcome::Bought(3));
    assert_eq!(shop.items[3].stock, 0);
    assert_eq!(money.coins, 700);
    assert_eq!(shop.purchase(&mut money, &mut bought, &"lifesteal_1".to_string()), PurchaseOutcome::SoldOut(3));
    assert_eq!(money.coins, 700);
}

#[test]
fn shop_refresh_marks_wave() {
    let mut shop = ShopInventory::new();
    shop.refresh_on_wave_clear(false, 3);
    assert_eq!(shop.last_refresh_wave, 0);
    shop.refresh_on_wave_clear(true, 3);
    assert_eq!(shop.last_refresh_wave, 3);
    let found = shop.find_item("health_boost_1");
    assert_eq!(found, None);
}

#[test]
fn progress_record_is_plain_data() {
    let p = GameProgress { enemies_killed: 1, coins_collected: 2, current_level: 3, current_wave: 4, max_combo: 5 };
    let q = p;
    assert_eq!(q.max_combo, 5);
}
