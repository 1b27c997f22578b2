//! The talent menu: available points, each tree's talents with their
//! levels, and how each talent's button is shown.
use vstd::prelude::*;
use crate::systems::talents::{count_or_zero, PlayerTalents, Talent, TalentTree, TreeData};
use crate::text::{clone_string, decimal, owned, push_str, spec_decimal, string_from_chars};
use super::main_game_menu::{spec_toggle_menu, GameState};

verus! {

/// How a talent button is shown.
#[derive(Clone, Copy, PartialEq, Eq, Structural, Debug)]
pub enum ButtonState {
    /// At least one level is owned.
    Unlocked,
    /// None owned, and the player has points to spend.
    Affordable,
    /// None owned and no points to spend.
    Unaffordable,
}

/// One talent's button.
pub struct TalentButtonText {
    pub talent_id: String,
    pub name: String,
    /// `Level: current/max`.
    pub level_line: String,
    pub state: ButtonState,
}

/// One tree of the menu.
pub struct TalentMenuTree {
    pub name: String,
    /// One button per talent, in the tree's order.
    pub buttons: Vec<TalentButtonText>,
}

/// Everything the talent menu writes.
pub struct TalentMenuText {
    pub title: String,
    /// `Available Points: n`.
    pub points_line: String,
    /// One entry per tree, in the order the trees were added.
    pub trees: Vec<TalentMenuTree>,
    pub instructions: String,
}

/// A button's state for a talent at `level` when `available` points are free.
pub open spec fn spec_button_state(level: u32, available: u32) -> ButtonState {
    if level > 0 {
        ButtonState::Unlocked
    } else if available > 0 {
        ButtonState::Affordable
    } else {
        ButtonState::Unaffordable
    }
}

/// `Level: level/max`.
pub open spec fn spec_level_line(level: u32, max: u32) -> Seq<char> {
    "Level: "@ + spec_decimal(level as nat) + "/"@ + spec_decimal(max as nat)
}

/// `b` is the button of talent `t` for `player`.
pub open spec fn button_matches(b: TalentButtonText, t: Talent, player: PlayerTalents) -> bool {
    let level = count_or_zero(player.unlocked_talents.as_map(), t.id@);
    &&& b.talent_id@ == t.id@
    &&& b.name@ == t.name@
    &&& b.level_line@ == spec_level_line(level, t.max_ranks)
    &&& b.state == spec_button_state(level, player.available_points)
}

/// `m` is the menu entry of tree `td` for `player`.
pub open spec fn menu_tree_matches(m: TalentMenuTree, td: TreeData, player: PlayerTalents) -> bool {
    &&& m.name@ == td.name@
    &&& m.buttons@.len() == td.talents.values().len()
    &&& forall|i: int| 0 <= i < m.buttons@.len() ==> button_matches(#[trigger] m.buttons@[i], td.talents.values()[i], player)
}

fn level_line(level: u32, max: u32) -> (s: String)
    ensures
        s@ == spec_level_line(level, max),
{
    let mut v: Vec<char> = Vec::new();
    push_str(&mut v, "Level: ");
    let mut d = decimal(level as u64);
    v.append(&mut d);
    push_str(&mut v, "/");
    let mut m = decimal(max as u64);
    v.append(&mut m);
    string_from_chars(&v)
}

fn talent_button(talent: &Talent, player: &PlayerTalents) -> (b: TalentButtonText)
    ensures
        button_matches(b, *talent, *player),
{
    let level: u32 = match player.unlocked_talents.get(&talent.id) {
        Some(l) => *l,
        None => 0,
    };
    let state = if level > 0 {
        ButtonState::Unlocked
    } else if player.available_points > 0 {
        ButtonState::Affordable
    } else {
        ButtonState::Unaffordable
    };
    TalentButtonText {
        talent_id: clone_string(&talent.id),
        name: clone_string(&talent.name),
        level_line: level_line(level, talent.max_ranks),
        state,
    }
}

fn menu_tree(tree_data: &TreeData, player: &PlayerTalents) -> (m: TalentMenuTree)
    ensures
        menu_tree_matches(m, *tree_data, *player),
{
    let n = tree_data.talents.len();
    let mut buttons: Vec<TalentButtonText> = Vec::new();
    let mut i: usize = 0;
    while i < n
        invariant
            i <= n,
            n == tree_data.talents.values().len(),
            n == tree_data.talents.keys().len(),
            buttons@.len() == i,
            forall|k: int| 0 <= k < i ==> button_matches(#[trigger] buttons@[k], tree_data.talents.values()[k], *player),
        decreases n - i,
    {
        buttons.push(talent_button(tree_data.talents.value(i), player));
        i = i + 1;
    }
    TalentMenuTree { name: clone_string(&tree_data.name), buttons }
}

/// The talent menu's text: a title, the available points, each tree with a
/// button per talent (its name, `Level: current/max`, and whether it is
/// unlocked, affordable or not), and how to close the menu.
pub fn talent_menu_text(tree: &TalentTree, player: &PlayerTalents) -> (t: TalentMenuText)
    ensures
        t.title@ == "Talent Tree"@,
        t.points_line@ == "Available Points: "@ + spec_decimal(player.available_points as nat),
        t.trees@.len() == tree.trees.values().len(),
        forall|i: int| 0 <= i < t.trees@.len() ==> menu_tree_matches(#[trigger] t.trees@[i], tree.trees.values()[i], *player),
        t.instructions@ == "Press T to close talent menu"@,
{
    let n = tree.trees.len();
    let mut trees: Vec<TalentMenuTree> = Vec::new();
    let mut i: usize = 0;
    while i < n
        invariant
            i <= n,
            n == tree.trees.values().len(),
            n == tree.trees.keys().len(),
            trees@.len() == i,
            forall|k: int| 0 <= k < i ==> menu_tree_matches(#[trigger] trees@[k], tree.trees.values()[k], *player),
        decreases n - i,
    {
        trees.push(menu_tree(tree.trees.value(i), player));
        i = i + 1;
    }
    let mut points: Vec<char> = Vec::new();
    push_str(&mut points, "Available Points: ");
    let mut d = decimal(player.available_points as u64);
    points.append(&mut d);
    TalentMenuText {
        title: owned("Talent Tree"),
        points_line: string_from_chars(&points),
        trees,
        instructions: owned("Press T to close talent menu"),
    }
}

/// The talent key opens and closes the menu: playing and paused swap, any
/// other screen stays.
pub fn talent_menu_input(state: GameState) -> (next: GameState)
    ensures
        next == spec_toggle_menu(state),
{
    match state {
        GameState::Playing => GameState::Paused,
        GameState::Paused => GameState::Playing,
        other => other,
    }
}

} // verus!
