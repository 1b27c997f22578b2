//! The talent tab: each tree with the points spent in it, and a node per
//! talent showing its rank, whether it can be raised, and its cost.
use vstd::prelude::*;
use crate::systems::talents::{count_or_zero, PlayerTalents, Talent, TalentTree, TalentTreeType, TreeData};
use crate::text::{clone_string, decimal, owned, push_str, spec_decimal, string_from_chars};

verus! {

/// How a talent node is shown.
#[derive(Clone, Copy, PartialEq, Eq, Structural, Debug)]
pub enum NodeState {
    /// At least one rank is owned.
    Owned,
    /// Not owned yet, and the player can afford a rank.
    Available,
    /// Not owned and out of reach for now.
    Locked,
}

/// The text and state of one talent node.
pub struct TalentNodeText {
    pub talent_id: String,
    pub name: String,
    /// `rank/max`.
    pub rank_line: String,
    pub description: String,
    /// `Cost: n points`, while a rank is left to buy.
    pub cost_line: Option<String>,
    pub state: NodeState,
}

/// A talent's node state for a player with `available` points and `rank` ranks of it.
pub open spec fn spec_node_state(t: Talent, rank: u32, available: u32) -> NodeState {
    if rank > 0 {
        NodeState::Owned
    } else if available >= t.cost_per_rank && rank < t.max_ranks {
        NodeState::Available
    } else {
        NodeState::Locked
    }
}

/// The rank line `rank/max`.
pub open spec fn spec_rank_line(rank: u32, max: u32) -> Seq<char> {
    spec_decimal(rank as nat) + "/"@ + spec_decimal(max as nat)
}

/// `n` then `suffix`, after `prefix`.
pub open spec fn spec_framed(prefix: Seq<char>, n: u32, suffix: Seq<char>) -> Seq<char> {
    prefix + spec_decimal(n as nat) + suffix
}

/// `node` is the node of talent `t` for `player`.
pub open spec fn node_matches(node: TalentNodeText, t: Talent, player: PlayerTalents) -> bool {
    let rank = count_or_zero(player.unlocked_talents.as_map(), t.id@);
    &&& node.talent_id@ == t.id@
    &&& node.name@ == t.name@
    &&& node.rank_line@ == spec_rank_line(rank, t.max_ranks)
    &&& node.description@ == t.description@
    &&& match node.cost_line {
        Some(c) => rank < t.max_ranks && c@ == spec_framed("Cost: "@, t.cost_per_rank, " points"@),
        None => rank >= t.max_ranks,
    }
    &&& node.state == spec_node_state(t, rank, player.available_points)
}

fn framed(prefix: &str, n: u32, suffix: &str) -> (s: String)
    ensures
        s@ == spec_framed(prefix@, n, suffix@),
{
    let mut v: Vec<char> = Vec::new();
    push_str(&mut v, prefix);
    let mut d = decimal(n as u64);
    v.append(&mut d);
    push_str(&mut v, suffix);
    string_from_chars(&v)
}

fn rank_line(rank: u32, max: u32) -> (s: String)
    ensures
        s@ == spec_rank_line(rank, max),
{
    let mut v = decimal(rank as u64);
    push_str(&mut v, "/");
    let mut m = decimal(max as u64);
    v.append(&mut m);
    string_from_chars(&v)
}

/// The node of one talent: its name, `rank/max`, description, the cost of
/// the next rank while one is left, and whether it is owned, affordable or
/// out of reach.
pub fn spawn_talent_node(talent: &Talent, player: &PlayerTalents) -> (node: TalentNodeText)
    ensures
        node_matches(node, *talent, *player),
{
    let rank: u32 = match player.unlocked_talents.get(&talent.id) {
        Some(r) => *r,
        None => 0,
    };
    let state = if rank > 0 {
        NodeState::Owned
    } else if player.available_points >= talent.cost_per_rank && rank < talent.max_ranks {
        NodeState::Available
    } else {
        NodeState::Locked
    };
    let cost_line = if rank < talent.max_ranks {
        Some(framed("Cost: ", talent.cost_per_rank, " points"))
    } else {
        None
    };
    TalentNodeText {
        talent_id: clone_string(&talent.id),
        name: clone_string(&talent.name),
        rank_line: rank_line(rank, talent.max_ranks),
        description: clone_string(&talent.description),
        cost_line,
        state,
    }
}

/// The text of one tree.
pub struct TalentTreeText {
    pub tree_type: TalentTreeType,
    pub name: String,
    /// `Points: n`, the points spent in the tree.
    pub points_line: String,
    /// One node per talent, in the tree's order.
    pub nodes: Vec<TalentNodeText>,
}

/// `text` shows the tree `td` of type `tt` for `player`.
pub open spec fn tree_matches(text: TalentTreeText, tt: TalentTreeType, td: TreeData, player: PlayerTalents) -> bool {
    &&& text.tree_type == tt
    &&& text.name@ == td.name@
    &&& text.points_line@ == spec_framed("Points: "@, count_or_zero(player.spent_points.as_map(), tt), ""@)
    &&& text.nodes@.len() == td.talents.values().len()
    &&& forall|i: int| 0 <= i < text.nodes@.len() ==> node_matches(#[trigger] text.nodes@[i], td.talents.values()[i], player)
}

/// The text of one tree: its name, the points spent in it, and its nodes.
pub fn spawn_talent_tree(tree_type: TalentTreeType, tree_data: &TreeData, player: &PlayerTalents) -> (text: TalentTreeText)
    ensures
        tree_matches(text, tree_type, *tree_data, *player),
{
    let spent: u32 = match player.spent_points.get(&tree_type) {
        Some(s) => *s,
        None => 0,
    };
    let n = tree_data.talents.len();
    let mut nodes: Vec<TalentNodeText> = Vec::new();
    let mut i: usize = 0;
    while i < n
        invariant
            i <= n,
            n == tree_data.talents.values().len(),
            n == tree_data.talents.keys().len(),
            nodes@.len() == i,
            forall|k: int| 0 <= k < i ==> node_matches(#[trigger] nodes@[k], tree_data.talents.values()[k], *player),
        decreases n - i,
    {
        nodes.push(spawn_talent_node(tree_data.talents.value(i), player));
        i = i + 1;
    }
    proof {
        reveal_strlit("");
    }
    TalentTreeText { tree_type, name: clone_string(&tree_data.name), points_line: framed("Points: ", spent, ""), nodes }
}

/// Everything the talent tab writes.
pub struct TalentTabText {
    pub heading: String,
    /// `Available Points: n`.
    pub points_line: String,
    /// One entry per tree, in the order the trees were added.
    pub trees: Vec<TalentTreeText>,
}

/// The talent tab's text.
pub fn render_talent_tab(talent_tree: &TalentTree, player: &PlayerTalents) -> (text: TalentTabText)
    ensures
        text.heading@ == "⭐ Talent Trees"@,
        text.points_line@ == spec_framed("Available Points: "@, player.available_points, ""@),
        text.trees@.len() == talent_tree.trees.values().len(),
        forall|i: int| 0 <= i < text.trees@.len() ==> tree_matches(
            #[trigger] text.trees@[i],
            talent_tree.trees.keys()[i],
            talent_tree.trees.values()[i],
            *player,
        ),
{
    let n = talent_tree.trees.len();
    let mut trees: Vec<TalentTreeText> = Vec::new();
    let mut i: usize = 0;
    while i < n
        invariant
            i <= n,
            n == talent_tree.trees.values().len(),
            n == talent_tree.trees.keys().len(),
            trees@.len() == i,
            forall|k: int| 0 <= k < i ==> tree_matches(
                #[trigger] trees@[k],
                talent_tree.trees.keys()[k],
                talent_tree.trees.values()[k],
                *player,
            ),
        decreases n - i,
    {
        let tt = *talent_tree.trees.key(i);
        trees.push(spawn_talent_tree(tt, talent_tree.trees.value(i), player));
        i = i + 1;
    }
    TalentTabText {
        heading: owned("⭐ Talent Trees"),
        points_line: framed("Available Points: ", player.available_points, ""),
        trees,
    }
}

} // verus!
