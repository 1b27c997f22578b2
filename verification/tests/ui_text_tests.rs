use roguelite_core::systems::prestige::{MetaProgression, PrestigeSystem, PrestigeType};
use roguelite_core::systems::shop::{initialize_shop, PlayerCurrency, ShopInventory};
use roguelite_core::systems::talents::{initialize_talent_tree, PlayerTalents, TalentTree, TalentTreeType};
use roguelite_core::ui::prestige_tab::render_prestige_tab;
use roguelite_core::ui::shop_tab::render_shop_tab;
use roguelite_core::ui::talent_tab::{render_talent_tab, NodeState};

#[test]
fn prestige_tab_text() {
    let mut p = PrestigeSystem::new();
    p.current_prestige = 3;
    p.prestige_points = 120;
    let meta = MetaProgression::new();
    let t = render_prestige_tab(&p, &meta);
    assert_eq!(t.title, "♾️ Prestige & Meta-Progression");
    assert_eq!(t.stats, vec!["Prestige Level: 3", "Prestige Points: 120", "Legacy Points: 0", "Ascension Shards: 0"]);
    assert_eq!(t.options.len(), 3);
    assert_eq!(t.options[1].prestige_type, PrestigeType::Ascension);
    assert_eq!(t.options[2].description, "Complete reset for legacy points\nRequires: Prestige 25");
    assert_eq!(t.upgrades_heading, "Meta Upgrades");
    assert_eq!(t.upgrade_cards.len(), 4);
    let gold = t.upgrade_cards.iter().find(|c| c.name == "Golden Start").unwrap();
    assert_eq!(gold.level, "Level: 0/10");
}

#[test]
fn talent_tab_text() {
    let mut tree = TalentTree::new();
    initialize_talent_tree(&mut tree);
    let mut player = PlayerTalents::new();
    player.calculate_talent_points(2);
    player.unlock(&tree, TalentTreeType::Offense, &"sharp_blade".to_string());
    let t = render_talent_tab(&tree, &player);
    assert_eq!(t.heading, "⭐ Talent Trees");
    assert_eq!(t.points_line, "Available Points: 1");
    assert_eq!(t.trees.len(), 3);
    let offense = t.trees.iter().find(|x| x.tree_type == TalentTreeType::Offense).unwrap();
    assert_eq!(offense.points_line, "Points: 1");
    let blade = offense.nodes.iter().find(|n| n.talent_id == "sharp_blade").unwrap();
    assert_eq!(blade.rank_line, "1/5");
    assert_eq!(blade.state, NodeState::Owned);
    assert_eq!(blade.cost_line.as_deref(), Some("Cost: 1 points"));
    let multishot = offense.nodes.iter().find(|n| n.talent_id == "multishot").unwrap();
    assert_eq!(multishot.state, NodeState::Locked);
    assert_eq!(multishot.rank_line, "0/3");
    let crit = offense.nodes.iter().find(|n| n.talent_id == "critical_precision").unwrap();
    assert_eq!(crit.state, NodeState::Available);
    let defense = t.trees.iter().find(|x| x.tree_type == TalentTreeType::Defense).unwrap();
    assert_eq!(defense.points_line, "Points: 0");
}

#[test]
fn shop_tab_text() {
    let mut shop = ShopInventory::new();
    initialize_shop(&mut shop);
    let money = PlayerCurrency { coins: 42, gems: 3, soul_shards: 0 };
    let t = render_shop_tab(&shop, &money);
    assert_eq!(t.title, "🛒 Shop");
    assert_eq!(t.balances, vec!["💰 Coins: 42", "💎 Gems: 3", "👻 Soul Shards: 0"]);
    assert_eq!(t.cards.len(), 5);
    assert_eq!(t.cards[0].cost_line, "Cost: 100");
    assert_eq!(t.cards[0].stock_line, None);
    assert_eq!(t.cards[4].stock_line.as_deref(), Some("Stock: 1"));
    assert_eq!(t.cards[4].name, "Thorned Armor");
}
