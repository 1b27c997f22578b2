//! Talent trees: talents bought rank by rank with talent points, one tree per
//! play style. Positions and effect strengths are held in thousandths.
use vstd::prelude::*;
use crate::table::{Table, TableKey, spec_sum, lemma_sum_push, lemma_sum_update, lemma_sum_bounds, lemma_sum_nonneg, checked_total};
use crate::text::{owned, str_eq, contains, spec_contains};

verus! {

#[derive(Clone, Copy, PartialEq, Eq, Structural, Debug)]
pub enum TalentTreeType {
    Offense,
    Defense,
    Utility,
}

impl View for TalentTreeType {
    type V = TalentTreeType;

    open spec fn view(&self) -> TalentTreeType {
        *self
    }
}

impl TableKey for TalentTreeType {
    fn same_key(&self, other: &Self) -> (same: bool) {
        *self == *other
    }

    fn copy_key(&self) -> (copy: Self) {
        *self
    }
}

#[derive(Clone, Copy, PartialEq, Eq, Structural, Debug)]
pub enum StatType {
    Health,
    Damage,
    Speed,
    AttackSpeed,
    CritChance,
    CritDamage,
    Armor,
    CooldownReduction,
}

/// How a talent changes an ability; radii and cooldowns in thousandths.
pub enum AbilityModification {
    ExtraProjectiles(u32),
    IncreaseRadius(i32),
    AddEffect(String),
    ReduceCooldown(i32),
}

/// What a talent rank grants; amounts in thousandths.
pub enum TalentEffect {
    StatIncrease(StatType, i32),
    PercentIncrease(StatType, i32),
    UnlockFeature(String),
    ModifyAbility(String, AbilityModification),
}

pub struct TalentRequirements {
    pub level: u32,
    pub prerequisite_talents: Vec<String>,
    pub points_in_tree: u32,
}

pub struct Talent {
    pub id: String,
    pub name: String,
    pub description: String,
    pub icon: String,
    pub max_ranks: u32,
    pub cost_per_rank: u32,
    /// Position in the tree view, in thousandths of a pixel (x, y).
    pub position: (i32, i32),
    pub requirements: TalentRequirements,
    pub effects: Vec<TalentEffect>,
}

pub struct TreeData {
    pub name: String,
    pub talents: Table<String, Talent>,
    /// Talent id to the talents it requires.
    pub connections: Table<String, Vec<String>>,
}

/// All talent trees, by tree type.
pub struct TalentTree {
    pub trees: Table<TalentTreeType, TreeData>,
}

impl TalentTree {
    /// No trees.
    pub fn new() -> (t: TalentTree)
        ensures
            t.trees.as_map() == Map::<TalentTreeType, TreeData>::empty(),
    {
        TalentTree { trees: Table::new() }
    }
}

impl Default for TalentTree {
    fn default() -> (t: TalentTree)
        ensures
            t.trees.as_map() == Map::<TalentTreeType, TreeData>::empty(),
    {
        TalentTree::new()
    }
}

/// A request to raise a talent by one rank.
pub struct UnlockTalentEvent {
    pub talent_id: String,
    pub tree_type: TalentTreeType,
}

/// The talent points of a player as maps: ranks by talent id, available
/// points, points spent by tree.
pub open spec fn talent_state(p: PlayerTalents) -> (Map<Seq<char>, u32>, u32, Map<TalentTreeType, u32>) {
    (p.unlocked_talents.as_map(), p.available_points, p.spent_points.as_map())
}

/// One unlock attempt on a talent state: the state after it and its outcome.
/// An unknown talent, a talent at its maximum rank, too few points, or too
/// few points spent in the tree change nothing; otherwise the rank goes up
/// by one and the cost moves from the available points into the tree.
pub open spec fn spec_unlock_step(
    st: (Map<Seq<char>, u32>, u32, Map<TalentTreeType, u32>),
    talents: TalentTree,
    tree_type: TalentTreeType,
    id: Seq<char>,
) -> ((Map<Seq<char>, u32>, u32, Map<TalentTreeType, u32>), UnlockOutcome) {
    let known = talents.trees.as_map().contains_key(tree_type)
        && talents.trees.as_map()[tree_type].talents.as_map().contains_key(id);
    let talent = talents.trees.as_map()[tree_type].talents.as_map()[id];
    let rank = count_or_zero(st.0, id);
    let spent = count_or_zero(st.2, tree_type);
    if !known {
        (st, UnlockOutcome::UnknownTalent)
    } else if rank >= talent.max_ranks {
        (st, UnlockOutcome::MaxRank)
    } else if st.1 < talent.cost_per_rank {
        (st, UnlockOutcome::NotEnoughPoints)
    } else if spent < talent.requirements.points_in_tree {
        (st, UnlockOutcome::TreeLocked)
    } else {
        (
            (
                st.0.insert(id, (rank + 1) as u32),
                (st.1 - talent.cost_per_rank) as u32,
                st.2.insert(tree_type, (spent + talent.cost_per_rank) as u32),
            ),
            UnlockOutcome::Unlocked((rank + 1) as u32),
        )
    }
}

/// A list of unlock requests handled in order: the final state and the
/// outcome of each request.
pub open spec fn spec_unlock_all(
    st: (Map<Seq<char>, u32>, u32, Map<TalentTreeType, u32>),
    talents: TalentTree,
    events: Seq<UnlockTalentEvent>,
) -> ((Map<Seq<char>, u32>, u32, Map<TalentTreeType, u32>), Seq<UnlockOutcome>)
    decreases events.len(),
{
    if events.len() == 0 {
        (st, Seq::empty())
    } else {
        let before = spec_unlock_all(st, talents, events.drop_last());
        let step = spec_unlock_step(before.0, talents, events.last().tree_type, events.last().talent_id@);
        (step.0, before.1.push(step.1))
    }
}

/// A talent id that occurs in more than one tree has the same maximum rank
/// in each.
pub open spec fn max_ranks_agree(talents: TalentTree) -> bool {
    forall|a: TalentTreeType, b: TalentTreeType, id: Seq<char>|
        #![trigger talents.trees.as_map()[a].talents.as_map()[id], talents.trees.as_map()[b].talents.as_map()[id]]
        talents.trees.as_map().contains_key(a) && talents.trees.as_map()[a].talents.as_map().contains_key(id)
            && talents.trees.as_map().contains_key(b) && talents.trees.as_map()[b].talents.as_map().contains_key(id)
            ==> talents.trees.as_map()[a].talents.as_map()[id].max_ranks
                == talents.trees.as_map()[b].talents.as_map()[id].max_ranks
}

/// Every talent's rank is at most its maximum rank.
pub open spec fn ranks_within(unlocked: Map<Seq<char>, u32>, talents: TalentTree) -> bool {
    forall|t: TalentTreeType, id: Seq<char>|
        #![trigger talents.trees.as_map()[t].talents.as_map()[id], count_or_zero(unlocked, id)]
        talents.trees.as_map().contains_key(t) && talents.trees.as_map()[t].talents.as_map().contains_key(id)
            ==> count_or_zero(unlocked, id) <= talents.trees.as_map()[t].talents.as_map()[id].max_ranks
}

/// One unlock attempt never takes a rank above its talent's maximum: where
/// a talent id's maximum rank is the same in every tree, ranks within their
/// maxima stay within them.
pub proof fn lemma_unlock_step_keeps_ranks(
    st: (Map<Seq<char>, u32>, u32, Map<TalentTreeType, u32>),
    talents: TalentTree,
    tree_type: TalentTreeType,
    id: Seq<char>,
)
    requires
        max_ranks_agree(talents),
        ranks_within(st.0, talents),
    ensures
        ranks_within(spec_unlock_step(st, talents, tree_type, id).0.0, talents),
{
    let after = spec_unlock_step(st, talents, tree_type, id).0.0;
    assert forall|t: TalentTreeType, k: Seq<char>|
        #![trigger talents.trees.as_map()[t].talents.as_map()[k], count_or_zero(after, k)]
        talents.trees.as_map().contains_key(t) && talents.trees.as_map()[t].talents.as_map().contains_key(k)
        implies count_or_zero(after, k) <= talents.trees.as_map()[t].talents.as_map()[k].max_ranks by {
        assert(count_or_zero(st.0, k) <= talents.trees.as_map()[t].talents.as_map()[k].max_ranks);
        if k == id && talents.trees.as_map().contains_key(tree_type)
            && talents.trees.as_map()[tree_type].talents.as_map().contains_key(id) {
            assert(talents.trees.as_map()[tree_type].talents.as_map()[id].max_ranks
                == talents.trees.as_map()[t].talents.as_map()[id].max_ranks);
        }
    }
}

/// The player's talent ranks and points.
pub struct PlayerTalents {
    /// Talent id to current rank.
    pub unlocked_talents: Table<String, u32>,
    pub available_points: u32,
    /// Points spent in each tree.
    pub spent_points: Table<TalentTreeType, u32>,
}

/// The value under `k`, or 0.
pub open spec fn count_or_zero<K>(m: Map<K, u32>, k: K) -> u32 {
    if m.contains_key(k) { m[k] } else { 0 }
}

/// The outcome of one attempt to raise a talent by one rank.
#[derive(Clone, Copy, PartialEq, Eq, Structural, Debug)]
pub enum UnlockOutcome {
    /// The talent now has this rank.
    Unlocked(u32),
    /// The tree or the talent does not exist.
    UnknownTalent,
    /// The talent is at its maximum rank.
    MaxRank,
    /// Too few available points.
    NotEnoughPoints,
    /// Too few points spent in the tree so far.
    TreeLocked,
}

impl PlayerTalents {
    /// No talents, no points.
    pub fn new() -> (p: PlayerTalents)
        ensures
            p.unlocked_talents.as_map() == Map::<Seq<char>, u32>::empty(),
            p.available_points == 0,
            p.spent_points.as_map() == Map::<TalentTreeType, u32>::empty(),
            spec_sum(p.spent_points.values()) == 0,
    {
        let p = PlayerTalents { unlocked_talents: Table::new(), available_points: 0, spent_points: Table::new() };
        proof {
            p.spent_points.lemma_lengths();
        }
        assert(p.spent_points.values() =~= Seq::<u32>::empty());
        p
    }

    /// Raises talent `talent_id` of tree `tree_type` by one rank: the talent
    /// must exist, be below its maximum rank, cost no more than the available
    /// points, and the tree must already hold the talent's required points.
    /// The cost moves from the available points to the tree's spent points.
    /// Level and prerequisite-talent requirements are not enforced here.
    pub fn unlock(&mut self, talents: &TalentTree, tree_type: TalentTreeType, talent_id: &String) -> (outcome: UnlockOutcome)
        requires
            ({
                let known = talents.trees.as_map().contains_key(tree_type)
                    && talents.trees.as_map()[tree_type].talents.as_map().contains_key(talent_id@);
                let talent = talents.trees.as_map()[tree_type].talents.as_map()[talent_id@];
                let spent = count_or_zero(old(self).spent_points.as_map(), tree_type);
                known && count_or_zero(old(self).unlocked_talents.as_map(), talent_id@) < talent.max_ranks
                    && old(self).available_points >= talent.cost_per_rank
                    && spent >= talent.requirements.points_in_tree
                    ==> spent + talent.cost_per_rank <= u32::MAX
            }),
        ensures
            ({
                let known = talents.trees.as_map().contains_key(tree_type)
                    && talents.trees.as_map()[tree_type].talents.as_map().contains_key(talent_id@);
                let talent = talents.trees.as_map()[tree_type].talents.as_map()[talent_id@];
                let rank = count_or_zero(old(self).unlocked_talents.as_map(), talent_id@);
                let spent = count_or_zero(old(self).spent_points.as_map(), tree_type);
                match outcome {
                    UnlockOutcome::UnknownTalent => !known,
                    UnlockOutcome::MaxRank => known && rank >= talent.max_ranks,
                    UnlockOutcome::NotEnoughPoints => known && rank < talent.max_ranks
                        && old(self).available_points < talent.cost_per_rank,
                    UnlockOutcome::TreeLocked => known && rank < talent.max_ranks
                        && old(self).available_points >= talent.cost_per_rank
                        && spent < talent.requirements.points_in_tree,
                    UnlockOutcome::Unlocked(r) => {
                        &&& known
                        &&& rank < talent.max_ranks
                        &&& old(self).available_points >= talent.cost_per_rank
                        &&& spent >= talent.requirements.points_in_tree
                        &&& r == rank + 1
                        &&& final(self).unlocked_talents.as_map() == old(self).unlocked_talents.as_map().insert(talent_id@, r)
                        &&& final(self).available_points == old(self).available_points - talent.cost_per_rank
                        &&& final(self).spent_points.as_map() == old(self).spent_points.as_map().insert(
                            tree_type,
                            (spent + talent.cost_per_rank) as u32,
                        )
                    },
                }
            }),
            !(outcome is Unlocked) ==> {
                &&& final(self).unlocked_talents.as_map() == old(self).unlocked_talents.as_map()
                &&& final(self).available_points == old(self).available_points
                &&& final(self).spent_points.as_map() == old(self).spent_points.as_map()
                &&& final(self).spent_points.values() == old(self).spent_points.values()
            },
            final(self).available_points + spec_sum(final(self).spent_points.values())
                == old(self).available_points + spec_sum(old(self).spent_points.values()),
            forall|k: Seq<char>| #[trigger] count_or_zero(final(self).unlocked_talents.as_map(), k)
                >= count_or_zero(old(self).unlocked_talents.as_map(), k),
            (talent_state(*final(self)), outcome) == spec_unlock_step(talent_state(*old(self)), *talents, tree_type, talent_id@),
            max_ranks_agree(*talents) && ranks_within(old(self).unlocked_talents.as_map(), *talents)
                ==> ranks_within(final(self).unlocked_talents.as_map(), *talents),
    {
        proof {
            if max_ranks_agree(*talents) && ranks_within(self.unlocked_talents.as_map(), *talents) {
                lemma_unlock_step_keeps_ranks(talent_state(*self), *talents, tree_type, talent_id@);
            }
        }
        let tree = match talents.trees.get(&tree_type) {
            Some(t) => t,
            None => return UnlockOutcome::UnknownTalent,
        };
        let talent = match tree.talents.get(talent_id) {
            Some(t) => t,
            None => return UnlockOutcome::UnknownTalent,
        };
        let current_rank = match self.unlocked_talents.get(talent_id) {
            Some(r) => *r,
            None => 0,
        };
        if current_rank >= talent.max_ranks {
            return UnlockOutcome::MaxRank;
        }
        if self.available_points < talent.cost_per_rank {
            return UnlockOutcome::NotEnoughPoints;
        }
        let points_in_tree = match self.spent_points.get(&tree_type) {
            Some(p) => *p,
            None => 0,
        };
        if points_in_tree < talent.requirements.points_in_tree {
            return UnlockOutcome::TreeLocked;
        }
        let new_rank = current_rank + 1;
        self.unlocked_talents.insert(crate::text::clone_string(talent_id), new_rank);
        self.available_points = self.available_points - talent.cost_per_rank;
        let ghost old_values = self.spent_points.values();
        let ghost old_keys = self.spent_points.keys();
        let pos = self.spent_points.position(&tree_type);
        proof {
            self.spent_points.lemma_lengths();
        }
        self.spent_points.insert(tree_type, points_in_tree + talent.cost_per_rank);
        proof {
            match pos {
                Some(i) => {
                    assert(old_keys[i as int] == tree_type);
                    assert(self.spent_points.values() == old_values.update(i as int, (points_in_tree + talent.cost_per_rank) as u32));
                    lemma_sum_update(old_values, i as int, (points_in_tree + talent.cost_per_rank) as u32);
                    lemma_sum_bounds(old_values, i as int);
                },
                None => {
                    lemma_sum_push(old_values, (points_in_tree + talent.cost_per_rank) as u32);
                },
            }
        }
        UnlockOutcome::Unlocked(new_rank)
    }

    /// Grants one talent point per player level: the available points become
    /// the level minus the points already spent (never below zero).
    pub fn calculate_talent_points(&mut self, level: u32)
        requires
            spec_sum(old(self).spent_points.values()) <= u32::MAX,
        ensures
            final(self).available_points == (if level >= spec_sum(old(self).spent_points.values()) {
                level - spec_sum(old(self).spent_points.values())
            } else {
                0
            }),
            final(self).spent_points.as_map() == old(self).spent_points.as_map(),
            final(self).unlocked_talents.as_map() == old(self).unlocked_talents.as_map(),
    {
        let spent = match checked_total(&self.spent_points) {
            Some(n) => n,
            None => 0,
        };
        self.available_points = level.saturating_sub(spent);
    }
}

impl Default for PlayerTalents {
    fn default() -> (p: PlayerTalents)
        ensures
            p.unlocked_talents.as_map() == Map::<Seq<char>, u32>::empty(),
            p.available_points == 0,
            p.spent_points.as_map() == Map::<TalentTreeType, u32>::empty(),
    {
        PlayerTalents::new()
    }
}

/// The points spent in one tree are part of the points spent overall.
fn spent_within_total(points: &Table<TalentTreeType, u32>, tree_type: TalentTreeType)
    ensures
        count_or_zero(points.as_map(), tree_type) <= spec_sum(points.values()),
{
    let _entries: usize = points.len();
    proof {
        if points.as_map().contains_key(tree_type) {
            let j = choose|j: int| 0 <= j < points.keys().len() && points.keys()[j] == tree_type;
            assert(points.as_map()[points.keys()[j]] == points.values()[j]);
            lemma_sum_bounds(points.values(), j);
        } else {
            lemma_sum_nonneg(points.values());
        }
    }
}

/// Handles unlock requests in order, each as [`PlayerTalents::unlock`]
/// does, and returns their outcomes. Available plus spent points stay what
/// they were, and no rank ever goes down.
pub fn handle_talent_unlocks(
    player: &mut PlayerTalents,
    talent_tree: &TalentTree,
    events: &Vec<UnlockTalentEvent>,
) -> (outcomes: Vec<UnlockOutcome>)
    requires
        old(player).available_points + spec_sum(old(player).spent_points.values()) <= u32::MAX,
    ensures
        (talent_state(*final(player)), outcomes@) == spec_unlock_all(talent_state(*old(player)), *talent_tree, events@),
        final(player).available_points + spec_sum(final(player).spent_points.values())
            == old(player).available_points + spec_sum(old(player).spent_points.values()),
        forall|k: Seq<char>| #[trigger] count_or_zero(final(player).unlocked_talents.as_map(), k)
            >= count_or_zero(old(player).unlocked_talents.as_map(), k),
        max_ranks_agree(*talent_tree) && ranks_within(old(player).unlocked_talents.as_map(), *talent_tree)
            ==> ranks_within(final(player).unlocked_talents.as_map(), *talent_tree),
{
    let ghost start = *player;
    let ghost total = player.available_points + spec_sum(player.spent_points.values());
    let mut outcomes: Vec<UnlockOutcome> = Vec::new();
    let mut i: usize = 0;
    while i < events.len()
        invariant
            i <= events@.len(),
            total <= u32::MAX,
            total == start.available_points + spec_sum(start.spent_points.values()),
            player.available_points + spec_sum(player.spent_points.values()) == total,
            (talent_state(*player), outcomes@) == spec_unlock_all(talent_state(start), *talent_tree, events@.take(i as int)),
            forall|k: Seq<char>| #[trigger] count_or_zero(player.unlocked_talents.as_map(), k)
                >= count_or_zero(start.unlocked_talents.as_map(), k),
            max_ranks_agree(*talent_tree) && ranks_within(start.unlocked_talents.as_map(), *talent_tree)
                ==> ranks_within(player.unlocked_talents.as_map(), *talent_tree),
        decreases events@.len() - i,
    {
        let event = &events[i];
        assert(events@.take(i as int + 1).drop_last() =~= events@.take(i as int));
        assert(events@.take(i as int + 1).last() == events@[i as int]);
        spent_within_total(&player.spent_points, event.tree_type);
        proof {
            lemma_sum_nonneg(player.spent_points.values());
        }
        let ghost mid = *player;
        let outcome = player.unlock(talent_tree, event.tree_type, &event.talent_id);
        proof {
            assert forall|k: Seq<char>| #[trigger] count_or_zero(player.unlocked_talents.as_map(), k)
                >= count_or_zero(start.unlocked_talents.as_map(), k) by {
                assert(count_or_zero(mid.unlocked_talents.as_map(), k) >= count_or_zero(start.unlocked_talents.as_map(), k));
            }
        }
        outcomes.push(outcome);
        i = i + 1;
    }
    assert(events@.take(i as int) =~= events@);
    outcomes
}

/// The per-rank bonus, in thousandths, that talent `talent_id` lends to
/// bonus kind `bonus_type`: cooldown talents 5% cooldown reduction, damage
/// talents (and "sharp_blade") 10% damage, "thick_skin" 10 health.
pub open spec fn spec_bonus_per_rank(bonus_type: Seq<char>, talent_id: Seq<char>) -> Option<u32> {
    if bonus_type == "cooldown_reduction"@ && spec_contains(talent_id, "cooldown"@) {
        Some(50)
    } else if bonus_type == "damage_increase"@ && (spec_contains(talent_id, "damage"@) || talent_id == "sharp_blade"@) {
        Some(100)
    } else if bonus_type == "health_increase"@ && talent_id == "thick_skin"@ {
        Some(10_000)
    } else {
        None
    }
}

/// The per-rank bonus, in thousandths, that a talent lends to a bonus kind,
/// if it lends any.
pub fn bonus_per_rank(bonus_type: &str, talent_id: &str) -> (b: Option<u32>)
    ensures
        b == spec_bonus_per_rank(bonus_type@, talent_id@),
{
    if str_eq(bonus_type, "cooldown_reduction") && contains(talent_id, "cooldown") {
        Some(50)
    } else if str_eq(bonus_type, "damage_increase") && (contains(talent_id, "damage") || str_eq(talent_id, "sharp_blade")) {
        Some(100)
    } else if str_eq(bonus_type, "health_increase") && str_eq(talent_id, "thick_skin") {
        Some(10_000)
    } else {
        None
    }
}


/// Whether talent `t` has these fields.
pub open spec fn talent_is(
    t: Talent,
    id: Seq<char>,
    name: Seq<char>,
    description: Seq<char>,
    icon: Seq<char>,
    max_ranks: u32,
    cost_per_rank: u32,
    position: (i32, i32),
    level: u32,
    points_in_tree: u32,
) -> bool {
    &&& t.id@ == id
    &&& t.name@ == name
    &&& t.description@ == description
    &&& t.icon@ == icon
    &&& t.max_ranks == max_ranks
    &&& t.cost_per_rank == cost_per_rank
    &&& t.position == position
    &&& t.requirements.level == level
    &&& t.requirements.points_in_tree == points_in_tree
}

/// The talent has no prerequisite talents.
pub open spec fn no_prerequisites(t: Talent) -> bool {
    t.requirements.prerequisite_talents@.len() == 0
}

/// The talent's only prerequisite is "sharp_blade".
pub open spec fn requires_sharp_blade(t: Talent) -> bool {
    &&& t.requirements.prerequisite_talents@.len() == 1
    &&& t.requirements.prerequisite_talents@[0]@ == "sharp_blade"@
}

/// The talent's single effect is a percentage increase of `stat` by `amount` thousandths.
pub open spec fn single_percent(t: Talent, stat: StatType, amount: i32) -> bool {
    &&& t.effects@.len() == 1
    &&& (t.effects@[0] matches TalentEffect::PercentIncrease(s, a) && s == stat && a == amount)
}

/// The Path of Destruction tree.
pub open spec fn is_offense_tree(td: TreeData) -> bool {
    let m = td.talents.as_map();
    &&& td.name@ == "Path of Destruction"@
    &&& m.dom() == set!["sharp_blade"@, "critical_precision"@, "multishot"@]
    &&& td.connections.as_map() == Map::<Seq<char>, Vec<String>>::empty()
    &&& talent_is(m["sharp_blade"@], "sharp_blade"@, "Sharp Blade"@, "+3% damage per rank"@, "icons/sword.png"@,
        5, 1, (0, 0), 1, 0)
    &&& no_prerequisites(m["sharp_blade"@])
    &&& single_percent(m["sharp_blade"@], StatType::Damage, 30)
    &&& talent_is(m["critical_precision"@], "critical_precision"@, "Critical Precision"@, "+2% crit chance per rank"@,
        "icons/crit.png"@, 10, 1, (-50_000i32, -50_000i32), 3, 5)
    &&& requires_sharp_blade(m["critical_precision"@])
    &&& single_percent(m["critical_precision"@], StatType::CritChance, 20)
    &&& talent_is(m["multishot"@], "multishot"@, "Multishot"@, "Projectiles fire +1 additional projectile"@,
        "icons/multishot.png"@, 3, 3, (50_000i32, -50_000i32), 10, 10)
    &&& requires_sharp_blade(m["multishot"@])
    &&& m["multishot"@].effects@.len() == 1
    &&& (m["multishot"@].effects@[0] matches TalentEffect::ModifyAbility(ability, modification)
        && ability@ == "projectile"@ && modification matches AbilityModification::ExtraProjectiles(1))
}

/// The Path of Resilience tree.
pub open spec fn is_defense_tree(td: TreeData) -> bool {
    let m = td.talents.as_map();
    &&& td.name@ == "Path of Resilience"@
    &&& m.dom() == set!["thick_skin"@]
    &&& td.connections.as_map() == Map::<Seq<char>, Vec<String>>::empty()
    &&& talent_is(m["thick_skin"@], "thick_skin"@, "Thick Skin"@, "+10 health per rank"@, "icons/shield.png"@,
        10, 1, (0, 0), 1, 0)
    &&& no_prerequisites(m["thick_skin"@])
    &&& m["thick_skin"@].effects@.len() == 1
    &&& (m["thick_skin"@].effects@[0] matches TalentEffect::StatIncrease(s, a) && s == StatType::Health && a == 10_000)
}

/// The Path of Wisdom tree.
pub open spec fn is_utility_tree(td: TreeData) -> bool {
    let m = td.talents.as_map();
    &&& td.name@ == "Path of Wisdom"@
    &&& m.dom() == set!["swift_feet"@]
    &&& td.connections.as_map() == Map::<Seq<char>, Vec<String>>::empty()
    &&& talent_is(m["swift_feet"@], "swift_feet"@, "Swift Feet"@, "+5% movement speed per rank"@, "icons/boots.png"@,
        5, 1, (0, 0), 1, 0)
    &&& no_prerequisites(m["swift_feet"@])
    &&& single_percent(m["swift_feet"@], StatType::Speed, 50)
}

fn make_talent(
    id: &str,
    name: &str,
    description: &str,
    icon: &str,
    max_ranks: u32,
    cost_per_rank: u32,
    position: (i32, i32),
    level: u32,
    prerequisite_talents: Vec<String>,
    points_in_tree: u32,
    effects: Vec<TalentEffect>,
) -> (t: Talent)
    ensures
        talent_is(t, id@, name@, description@, icon@, max_ranks, cost_per_rank, position, level, points_in_tree),
        t.requirements.prerequisite_talents == prerequisite_talents,
        t.effects == effects,
{
    Talent {
        id: owned(id),
        name: owned(name),
        description: owned(description),
        icon: owned(icon),
        max_ranks,
        cost_per_rank,
        position,
        requirements: TalentRequirements { level, prerequisite_talents, points_in_tree },
        effects,
    }
}

fn sharp_blade_only() -> (v: Vec<String>)
    ensures
        v@.len() == 1,
        v@[0]@ == "sharp_blade"@,
{
    let mut v = Vec::new();
    v.push(owned("sharp_blade"));
    v
}

fn offense_tree() -> (td: TreeData)
    ensures
        is_offense_tree(td),
{
    let mut talents: Table<String, Talent> = Table::new();
    let mut e1 = Vec::new();
    e1.push(TalentEffect::PercentIncrease(StatType::Damage, 30));
    talents.insert(owned("sharp_blade"), make_talent("sharp_blade", "Sharp Blade", "+3% damage per rank",
        "icons/sword.png", 5, 1, (0, 0), 1, Vec::new(), 0, e1));
    let mut e2 = Vec::new();
    e2.push(TalentEffect::PercentIncrease(StatType::CritChance, 20));
    talents.insert(owned("critical_precision"), make_talent("critical_precision", "Critical Precision",
        "+2% crit chance per rank", "icons/crit.png", 10, 1, (-50_000, -50_000), 3, sharp_blade_only(), 5, e2));
    let mut e3 = Vec::new();
    e3.push(TalentEffect::ModifyAbility(owned("projectile"), AbilityModification::ExtraProjectiles(1)));
    talents.insert(owned("multishot"), make_talent("multishot", "Multishot",
        "Projectiles fire +1 additional projectile", "icons/multishot.png", 3, 3, (50_000, -50_000), 10,
        sharp_blade_only(), 10, e3));
    proof {
        reveal_strlit("sharp_blade");
        reveal_strlit("critical_precision");
        reveal_strlit("multishot");
        assert("sharp_blade"@.len() == 11);
        assert("critical_precision"@.len() == 18);
        assert("multishot"@.len() == 9);
    }
    let td = TreeData { name: owned("Path of Destruction"), talents, connections: Table::new() };
    assert(td.talents.as_map().dom() =~= set!["sharp_blade"@, "critical_precision"@, "multishot"@]);
    td
}

fn defense_tree() -> (td: TreeData)
    ensures
        is_defense_tree(td),
{
    let mut talents: Table<String, Talent> = Table::new();
    let mut e = Vec::new();
    e.push(TalentEffect::StatIncrease(StatType::Health, 10_000));
    talents.insert(owned("thick_skin"), make_talent("thick_skin", "Thick Skin", "+10 health per rank",
        "icons/shield.png", 10, 1, (0, 0), 1, Vec::new(), 0, e));
    let td = TreeData { name: owned("Path of Resilience"), talents, connections: Table::new() };
    assert(td.talents.as_map().dom() =~= set!["thick_skin"@]);
    td
}

fn utility_tree() -> (td: TreeData)
    ensures
        is_utility_tree(td),
{
    let mut talents: Table<String, Talent> = Table::new();
    let mut e = Vec::new();
    e.push(TalentEffect::PercentIncrease(StatType::Speed, 50));
    talents.insert(owned("swift_feet"), make_talent("swift_feet", "Swift Feet", "+5% movement speed per rank",
        "icons/boots.png", 5, 1, (0, 0), 1, Vec::new(), 0, e));
    let td = TreeData { name: owned("Path of Wisdom"), talents, connections: Table::new() };
    assert(td.talents.as_map().dom() =~= set!["swift_feet"@]);
    td
}

/// Installs the three starting trees (offense, defense, utility), replacing
/// any trees of the same types.
pub fn initialize_talent_tree(talent_tree: &mut TalentTree)
    ensures
        final(talent_tree).trees.as_map().dom() == old(talent_tree).trees.as_map().dom().insert(TalentTreeType::Offense)
            .insert(TalentTreeType::Defense).insert(TalentTreeType::Utility),
        is_offense_tree(final(talent_tree).trees.as_map()[TalentTreeType::Offense]),
        is_defense_tree(final(talent_tree).trees.as_map()[TalentTreeType::Defense]),
        is_utility_tree(final(talent_tree).trees.as_map()[TalentTreeType::Utility]),
{
    talent_tree.trees.insert(TalentTreeType::Offense, offense_tree());
    talent_tree.trees.insert(TalentTreeType::Defense, defense_tree());
    talent_tree.trees.insert(TalentTreeType::Utility, utility_tree());
    assert(talent_tree.trees.as_map().dom() =~= old(talent_tree).trees.as_map().dom().insert(TalentTreeType::Offense)
        .insert(TalentTreeType::Defense).insert(TalentTreeType::Utility));
}

/// Raising a talent never changes the total of available and spent points:
/// the cost only moves from one to the other.
pub proof fn lemma_unlock_moves_points(available: u32, spent: Seq<u32>, i: int, cost: u32)
    requires
        0 <= i < spent.len(),
        available >= cost,
        spent[i] + cost <= u32::MAX,
    ensures
        (available - cost) + spec_sum(spent.update(i, (spent[i] + cost) as u32)) == available + spec_sum(spent),
{
    lemma_sum_update(spent, i, (spent[i] + cost) as u32);
}

} // verus!
