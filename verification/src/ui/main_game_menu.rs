//! The tabbed pause menu: opening and closing it, switching tabs, and the
//! text of each tab.
use vstd::prelude::*;
use crate::systems::shop::PlayerCurrency;
use crate::text::{decimal, owned, push_str, spec_decimal, string_from_chars};

verus! {

/// The screen the game is on.
#[derive(Clone, Copy, PartialEq, Eq, Structural, Debug)]
pub enum GameState {
    MainMenu,
    Playing,
    Paused,
    InGame,
}

/// The screen after the menu key is pressed: playing and paused swap,
/// any other screen stays.
pub open spec fn spec_toggle_menu(state: GameState) -> GameState {
    match state {
        GameState::Playing => GameState::Paused,
        GameState::Paused => GameState::Playing,
        other => other,
    }
}

/// The screen after the menu key is pressed.
pub fn toggle_menu(state: GameState) -> (next: GameState)
    ensures
        next == spec_toggle_menu(state),
{
    match state {
        GameState::Playing => GameState::Paused,
        GameState::Paused => GameState::Playing,
        other => other,
    }
}

/// Pressing the menu key twice returns to the screen one started on.
pub proof fn lemma_toggle_twice(state: GameState)
    ensures
        spec_toggle_menu(spec_toggle_menu(state)) == state,
{
}

/// The screen after the menu's close button is pressed.
pub fn handle_close_button() -> (next: GameState)
    ensures
        next == GameState::Playing,
{
    GameState::Playing
}

#[derive(Clone, Copy, PartialEq, Eq, Structural, Debug)]
pub enum MenuTab {
    Shop,
    Talents,
    Achievements,
    Quests,
    Inventory,
    Prestige,
    Settings,
}

/// The open tab and the one open before it.
#[derive(Clone, Copy, PartialEq, Eq, Structural, Debug)]
pub struct MenuState {
    pub current_tab: MenuTab,
    pub previous_tab: Option<MenuTab>,
}

impl Default for MenuState {
    /// The shop tab, with no earlier tab.
    fn default() -> (s: Self)
        ensures
            s == (MenuState { current_tab: MenuTab::Shop, previous_tab: None }),
    {
        MenuState { current_tab: MenuTab::Shop, previous_tab: None }
    }
}

impl MenuState {
    /// Opens `tab`; the tab that was open becomes the previous one.
    pub fn handle_tab_buttons(&mut self, tab: MenuTab)
        ensures
            final(self).current_tab == tab,
            final(self).previous_tab == Some(old(self).current_tab),
    {
        self.previous_tab = Some(self.current_tab);
        self.current_tab = tab;
    }
}

/// The heading of each tab.
pub open spec fn spec_tab_title(tab: MenuTab) -> Seq<char> {
    match tab {
        MenuTab::Shop => "🛒 Shop"@,
        MenuTab::Talents => "⭐ Talents"@,
        MenuTab::Achievements => "🏆 Achievements"@,
        MenuTab::Quests => "📋 Quests"@,
        MenuTab::Inventory => "🎒 Inventory"@,
        MenuTab::Prestige => "♾️ Prestige"@,
        MenuTab::Settings => "⚙️ Settings"@,
    }
}

/// The note under each tab's heading about what the tab will hold.
pub open spec fn spec_tab_placeholder(tab: MenuTab) -> Seq<char> {
    match tab {
        MenuTab::Shop => "\nShop items coming soon!\n\n• Power upgrades\n• Equipment\n• Consumables\n• Special abilities"@,
        MenuTab::Talents => "\nTalent trees coming soon!\n\n• Offensive specializations\n• Defensive abilities\n• Utility skills\n• Progression paths"@,
        MenuTab::Achievements => "\nAchievement system coming soon!\n\n• Combat milestones\n• Collection goals\n• Exploration rewards\n• Challenge completions"@,
        MenuTab::Quests => "\nQuest system coming soon!\n\n• Daily challenges\n• Wave objectives\n• Story progression\n• Special missions"@,
        MenuTab::Inventory => "\nInventory system coming soon!\n\n• Equipment management\n• Item storage\n• Loot organization\n• Gear optimization"@,
        MenuTab::Prestige => "\nPrestige system coming soon!\n\n• Meta progression\n• Permanent upgrades\n• Rebirth bonuses\n• Ascension rewards"@,
        MenuTab::Settings => "\nSettings menu coming soon!\n\n• Audio controls\n• Graphics options\n• Key bindings\n• Gameplay preferences"@,
    }
}

/// The shop tab's line of the player's balances.
pub open spec fn spec_currency_line(c: PlayerCurrency) -> Seq<char> {
    "💰 Coins: "@ + spec_decimal(c.coins as nat) + " | 💎 Gems: "@ + spec_decimal(c.gems as nat)
        + " | 🔮 Soul Shards: "@ + spec_decimal(c.soul_shards as nat)
}

/// The text blocks of a tab, top to bottom: its heading, the balances on
/// the shop tab, and its note.
pub open spec fn spec_tab_content(tab: MenuTab, c: PlayerCurrency) -> Seq<Seq<char>> {
    if tab == MenuTab::Shop {
        seq![spec_tab_title(tab), spec_currency_line(c), spec_tab_placeholder(tab)]
    } else {
        seq![spec_tab_title(tab), spec_tab_placeholder(tab)]
    }
}

/// The heading of a tab.
pub fn tab_title(tab: MenuTab) -> (s: String)
    ensures
        s@ == spec_tab_title(tab),
{
    match tab {
        MenuTab::Shop => owned("🛒 Shop"),
        MenuTab::Talents => owned("⭐ Talents"),
        MenuTab::Achievements => owned("🏆 Achievements"),
        MenuTab::Quests => owned("📋 Quests"),
        MenuTab::Inventory => owned("🎒 Inventory"),
        MenuTab::Prestige => owned("♾️ Prestige"),
        MenuTab::Settings => owned("⚙️ Settings"),
    }
}

/// The note of a tab.
pub fn tab_placeholder(tab: MenuTab) -> (s: String)
    ensures
        s@ == spec_tab_placeholder(tab),
{
    match tab {
        MenuTab::Shop => owned("\nShop items coming soon!\n\n• Power upgrades\n• Equipment\n• Consumables\n• Special abilities"),
        MenuTab::Talents => owned("\nTalent trees coming soon!\n\n• Offensive specializations\n• Defensive abilities\n• Utility skills\n• Progression paths"),
        MenuTab::Achievements => owned("\nAchievement system coming soon!\n\n• Combat milestones\n• Collection goals\n• Exploration rewards\n• Challenge completions"),
        MenuTab::Quests => owned("\nQuest system coming soon!\n\n• Daily challenges\n• Wave objectives\n• Story progression\n• Special missions"),
        MenuTab::Inventory => owned("\nInventory system coming soon!\n\n• Equipment management\n• Item storage\n• Loot organization\n• Gear optimization"),
        MenuTab::Prestige => owned("\nPrestige system coming soon!\n\n• Meta progression\n• Permanent upgrades\n• Rebirth bonuses\n• Ascension rewards"),
        MenuTab::Settings => owned("\nSettings menu coming soon!\n\n• Audio controls\n• Graphics options\n• Key bindings\n• Gameplay preferences"),
    }
}

/// The shop tab's line of balances.
pub fn currency_line(c: &PlayerCurrency) -> (s: String)
    ensures
        s@ == spec_currency_line(*c),
{
    let mut v: Vec<char> = Vec::new();
    push_str(&mut v, "💰 Coins: ");
    let mut d = decimal(c.coins as u64);
    v.append(&mut d);
    push_str(&mut v, " | 💎 Gems: ");
    let mut d = decimal(c.gems as u64);
    v.append(&mut d);
    push_str(&mut v, " | 🔮 Soul Shards: ");
    let mut d = decimal(c.soul_shards as u64);
    v.append(&mut d);
    string_from_chars(&v)
}

/// The text blocks the open tab shows, top to bottom.
pub fn update_tab_content(menu_state: &MenuState, currency: &PlayerCurrency) -> (blocks: Vec<String>)
    ensures
        blocks@.map_values(|b: String| b@) == spec_tab_content(menu_state.current_tab, *currency),
{
    let tab = menu_state.current_tab;
    let mut blocks: Vec<String> = Vec::new();
    blocks.push(tab_title(tab));
    if tab == MenuTab::Shop {
        blocks.push(currency_line(currency));
    }
    blocks.push(tab_placeholder(tab));
    assert(blocks@.map_values(|b: String| b@) =~= spec_tab_content(tab, *currency));
    blocks
}

} // verus!
