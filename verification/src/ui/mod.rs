//! What the menus decide: which screen shows, which tab is open, and the
//! text each tab carries.

pub mod main_game_menu;
pub mod pause_menu;
pub mod health_bars;
pub mod prestige_tab;
pub mod talent_tab;
pub mod shop_tab;
pub mod talent_menu;
