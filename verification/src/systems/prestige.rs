//! Prestige: resetting a run for prestige points, ascension shards or legacy
//! points, with milestone rewards and permanent meta upgrades. Fractional
//! amounts are held in thousandths.
use vstd::prelude::*;
use crate::table::{Table, TableKey};
use crate::text::{owned, clone_string};
use crate::systems::shop::PlayerCurrency;

verus! {

/// Prestige counters and currencies.
#[derive(Clone, Copy, PartialEq, Eq, Structural, Debug)]
pub struct PrestigeSystem {
    pub current_prestige: u32,
    pub total_prestiges: u32,
    pub prestige_points: u32,
    pub legacy_points: u32,
    pub ascension_shards: u32,
}

impl PrestigeSystem {
    /// All counters at zero.
    pub fn new() -> (p: PrestigeSystem)
        ensures
            p == (PrestigeSystem {
                current_prestige: 0,
                total_prestiges: 0,
                prestige_points: 0,
                legacy_points: 0,
                ascension_shards: 0,
            }),
    {
        PrestigeSystem { current_prestige: 0, total_prestiges: 0, prestige_points: 0, legacy_points: 0, ascension_shards: 0 }
    }
}

impl Default for PrestigeSystem {
    fn default() -> (p: PrestigeSystem)
        ensures
            p == (PrestigeSystem {
                current_prestige: 0,
                total_prestiges: 0,
                prestige_points: 0,
                legacy_points: 0,
                ascension_shards: 0,
            }),
    {
        PrestigeSystem::new()
    }
}

/// How a meta upgrade's cost grows.
pub enum CostFormula {
    /// Base cost per level.
    Linear(u32),
    /// Multiplier (thousandths), base.
    Exponential(u32, u32),
    /// Specific costs per level.
    Custom(Vec<u32>),
}

#[derive(Clone, Copy, PartialEq, Eq, Structural, Debug)]
pub enum StatType {
    Health,
    Damage,
    Speed,
    CritChance,
    DropRate,
}

impl View for StatType {
    type V = StatType;

    open spec fn view(&self) -> StatType {
        *self
    }
}

impl TableKey for StatType {
    fn same_key(&self, other: &Self) -> (same: bool) {
        *self == *other
    }

    fn copy_key(&self) -> (copy: Self) {
        *self
    }
}

/// What a meta upgrade does; fractional strengths in thousandths.
pub enum MetaEffect {
    StartingGold(u32),
    StartingLevel(u32),
    PermanentStatBoost(StatType, i32),
    UnlockStartingItem(String),
    ExperienceMultiplier(i32),
    LuckBonus(i32),
    StartingTalentPoints(u32),
    ReviveTokens(u32),
}

pub struct MetaUpgrade {
    pub id: String,
    pub name: String,
    pub description: String,
    pub current_level: u32,
    pub max_level: u32,
    pub cost_formula: CostFormula,
    pub effect: MetaEffect,
}

/// What every new run starts with; stat bonuses in thousandths.
pub struct StartingBonuses {
    pub gold: u32,
    pub level: u32,
    pub items: Vec<String>,
    pub talent_points: u32,
    pub stat_bonuses: Table<StatType, i32>,
}

impl StartingBonuses {
    /// Nothing extra.
    pub fn new() -> (b: StartingBonuses)
        ensures
            b.gold == 0,
            b.level == 0,
            b.items@.len() == 0,
            b.talent_points == 0,
            b.stat_bonuses.as_map() == Map::<StatType, i32>::empty(),
    {
        StartingBonuses { gold: 0, level: 0, items: Vec::new(), talent_points: 0, stat_bonuses: Table::new() }
    }
}

impl Default for StartingBonuses {
    fn default() -> (b: StartingBonuses)
        ensures
            b.gold == 0,
            b.level == 0,
            b.items@.len() == 0,
            b.talent_points == 0,
            b.stat_bonuses.as_map() == Map::<StatType, i32>::empty(),
    {
        StartingBonuses::new()
    }
}

#[derive(Clone, Copy, PartialEq, Eq, Structural, Debug)]
pub enum CurrencyType {
    PrestigePoints,
    LegacyPoints,
    AscensionShards,
}

pub enum RewardType {
    Currency(CurrencyType, u32),
    PermanentUpgrade(String),
    CosmeticUnlock(String),
    FeatureUnlock(String),
    TitleUnlock(String),
}

pub struct MilestoneReward {
    pub description: String,
    pub rewards: Vec<RewardType>,
}

/// Permanent progress across runs.
pub struct MetaProgression {
    pub permanent_upgrades: Table<String, MetaUpgrade>,
    pub unlocked_features: Vec<String>,
    pub starting_bonuses: StartingBonuses,
    /// Total prestige count to the reward for reaching it.
    pub milestone_rewards: Table<u32, MilestoneReward>,
}

#[derive(Clone, Copy, PartialEq, Eq, Structural, Debug)]
pub enum PrestigeType {
    /// Reset progress for prestige points.
    Standard,
    /// Harder reset for ascension shards.
    Ascension,
    /// Complete reset for legacy points.
    Rebirth,
}

/// Prestige becomes available at wave 50 or player level 100.
pub open spec fn spec_prestige_eligible(wave: u32, level: u32) -> bool {
    wave >= 50 || level >= 100
}

/// Whether the player may prestige: at wave 50 or level 100.
pub fn check_prestige_eligibility(wave: u32, level: u32) -> (eligible: bool)
    ensures
        eligible == spec_prestige_eligible(wave, level),
{
    wave >= 50 || level >= 100
}

/// The counters after the currency rewards among `rewards` are paid.
pub open spec fn spec_pay_milestone(p: PrestigeSystem, rewards: Seq<RewardType>) -> PrestigeSystem
    decreases rewards.len(),
{
    if rewards.len() == 0 {
        p
    } else {
        let q = spec_pay_milestone(p, rewards.drop_last());
        match rewards.last() {
            RewardType::Currency(CurrencyType::PrestigePoints, n) => PrestigeSystem { prestige_points: (q.prestige_points + n) as u32, ..q },
            RewardType::Currency(CurrencyType::LegacyPoints, n) => PrestigeSystem { legacy_points: (q.legacy_points + n) as u32, ..q },
            RewardType::Currency(CurrencyType::AscensionShards, n) => PrestigeSystem { ascension_shards: (q.ascension_shards + n) as u32, ..q },
            _ => q,
        }
    }
}

/// Paying the milestone currencies in order never overflows.
pub open spec fn spec_milestone_fits(p: PrestigeSystem, rewards: Seq<RewardType>) -> bool
    decreases rewards.len(),
{
    if rewards.len() == 0 {
        true
    } else {
        let q = spec_pay_milestone(p, rewards.drop_last());
        &&& spec_milestone_fits(p, rewards.drop_last())
        &&& match rewards.last() {
            RewardType::Currency(CurrencyType::PrestigePoints, n) => q.prestige_points + n <= u32::MAX,
            RewardType::Currency(CurrencyType::LegacyPoints, n) => q.legacy_points + n <= u32::MAX,
            RewardType::Currency(CurrencyType::AscensionShards, n) => q.ascension_shards + n <= u32::MAX,
            _ => true,
        }
    }
}

/// The features that the feature unlocks among `rewards` name, in order.
pub open spec fn spec_unlocked_features(rewards: Seq<RewardType>) -> Seq<Seq<char>>
    decreases rewards.len(),
{
    if rewards.len() == 0 {
        Seq::empty()
    } else {
        let rest = spec_unlocked_features(rewards.drop_last());
        match rewards.last() {
            RewardType::FeatureUnlock(f) => rest.push(f@),
            _ => rest,
        }
    }
}

proof fn lemma_milestone_fits_prefix(p: PrestigeSystem, rewards: Seq<RewardType>, n: int)
    requires
        0 <= n <= rewards.len(),
        spec_milestone_fits(p, rewards),
    ensures
        spec_milestone_fits(p, rewards.take(n)),
    decreases rewards.len() - n,
{
    if n < rewards.len() {
        lemma_milestone_fits_prefix(p, rewards, n + 1);
        assert(rewards.take(n + 1).drop_last() =~= rewards.take(n));
    } else {
        assert(rewards.take(n) =~= rewards);
    }
}

/// The view of a list of names.
pub open spec fn name_views(names: Seq<String>) -> Seq<Seq<char>> {
    names.map_values(|s: String| s@)
}

fn pay_milestone(rewards: &Vec<RewardType>, prestige: &mut PrestigeSystem, features: &mut Vec<String>)
    requires
        spec_milestone_fits(*old(prestige), rewards@),
    ensures
        *final(prestige) == spec_pay_milestone(*old(prestige), rewards@),
        name_views(final(features)@) == name_views(old(features)@) + spec_unlocked_features(rewards@),
{
    let ghost start = *prestige;
    let ghost start_features = name_views(features@);
    let mut i: usize = 0;
    while i < rewards.len()
        invariant
            i <= rewards@.len(),
            spec_milestone_fits(start, rewards@),
            *prestige == spec_pay_milestone(start, rewards@.take(i as int)),
            name_views(features@) == start_features + spec_unlocked_features(rewards@.take(i as int)),
        decreases rewards@.len() - i,
    {
        proof {
            lemma_milestone_fits_prefix(start, rewards@, i as int + 1);
            assert(rewards@.take(i as int + 1).drop_last() =~= rewards@.take(i as int));
        }
        let ghost before = name_views(features@);
        match &rewards[i] {
            RewardType::Currency(ct, amount) => {
                match ct {
                    CurrencyType::PrestigePoints => prestige.prestige_points = prestige.prestige_points + *amount,
                    CurrencyType::LegacyPoints => prestige.legacy_points = prestige.legacy_points + *amount,
                    CurrencyType::AscensionShards => prestige.ascension_shards = prestige.ascension_shards + *amount,
                }
            },
            RewardType::FeatureUnlock(feature) => {
                features.push(clone_string(feature));
                assert(name_views(features@) =~= before.push(feature@));
            },
            _ => {},
        }
        i = i + 1;
    }
    assert(rewards@.take(i as int) =~= rewards@);
}

/// Pays a milestone's rewards: currency rewards go to the prestige
/// counters, feature unlocks are appended to the unlocked features; other
/// rewards have no effect here.
pub fn apply_milestone_rewards(rewards: &Vec<RewardType>, prestige: &mut PrestigeSystem, meta: &mut MetaProgression)
    requires
        spec_milestone_fits(*old(prestige), rewards@),
    ensures
        *final(prestige) == spec_pay_milestone(*old(prestige), rewards@),
        name_views(final(meta).unlocked_features@) == name_views(old(meta).unlocked_features@)
            + spec_unlocked_features(rewards@),
        final(meta).permanent_upgrades == old(meta).permanent_upgrades,
        final(meta).starting_bonuses == old(meta).starting_bonuses,
        final(meta).milestone_rewards == old(meta).milestone_rewards,
{
    pay_milestone(rewards, prestige, &mut meta.unlocked_features);
}

/// The milestone reward due at a total prestige count, if any.
pub open spec fn spec_milestone_rewards_at(meta: MetaProgression, total: u32) -> Seq<RewardType> {
    if meta.milestone_rewards.as_map().contains_key(total) {
        meta.milestone_rewards.as_map()[total].rewards@
    } else {
        Seq::empty()
    }
}

/// What a prestige asks of the rest of the game.
#[derive(Clone, Copy, PartialEq, Eq, Structural, Debug)]
pub enum PrestigeOutcome {
    /// A standard prestige: the player restarts at this level with no
    /// experience; `milestone` tells whether a milestone reward was paid.
    Restart { level: u32, milestone: bool },
    /// An ascension paid this many shards.
    Ascended(u32),
    /// A rebirth paid this many legacy points.
    Reborn(u32),
}

/// The prestige counters after a prestige of kind `kind`, before milestone
/// rewards; `points` is what a standard prestige earns.
pub open spec fn spec_after_prestige(p: PrestigeSystem, kind: PrestigeType, points: u32) -> PrestigeSystem {
    match kind {
        PrestigeType::Standard => PrestigeSystem {
            prestige_points: (p.prestige_points + points) as u32,
            current_prestige: (p.current_prestige + 1) as u32,
            total_prestiges: (p.total_prestiges + 1) as u32,
            ..p
        },
        PrestigeType::Ascension => PrestigeSystem {
            ascension_shards: (p.ascension_shards + p.current_prestige / 10) as u32,
            current_prestige: 0,
            ..p
        },
        PrestigeType::Rebirth => PrestigeSystem {
            legacy_points: (p.legacy_points + p.total_prestiges / 5) as u32,
            total_prestiges: 0,
            current_prestige: 0,
            ..p
        },
    }
}

/// A prestige of kind `kind` stays within the integer ranges.
pub open spec fn spec_prestige_fits(p: PrestigeSystem, meta: MetaProgression, kind: PrestigeType, points: u32) -> bool {
    match kind {
        PrestigeType::Standard => {
            &&& p.prestige_points + points <= u32::MAX
            &&& p.current_prestige + 1 <= u32::MAX
            &&& p.total_prestiges + 1 <= u32::MAX
            &&& 1 + meta.starting_bonuses.level <= u32::MAX
            &&& spec_milestone_fits(
                spec_after_prestige(p, kind, points),
                spec_milestone_rewards_at(meta, (p.total_prestiges + 1) as u32),
            )
        },
        PrestigeType::Ascension => p.ascension_shards + p.current_prestige / 10 <= u32::MAX,
        PrestigeType::Rebirth => p.legacy_points + p.total_prestiges / 5 <= u32::MAX,
    }
}

/// Whether paying `rewards` in turn from `p` stays within the counters' range.
pub fn milestone_fits(p: &PrestigeSystem, rewards: &Vec<RewardType>) -> (ok: bool)
    ensures
        ok == spec_milestone_fits(*p, rewards@),
{
    let mut sim = PrestigeSystem {
        current_prestige: p.current_prestige,
        total_prestiges: p.total_prestiges,
        prestige_points: p.prestige_points,
        legacy_points: p.legacy_points,
        ascension_shards: p.ascension_shards,
    };
    let mut i: usize = 0;
    while i < rewards.len()
        invariant
            i <= rewards@.len(),
            spec_milestone_fits(*p, rewards@.take(i as int)),
            sim == spec_pay_milestone(*p, rewards@.take(i as int)),
        decreases rewards@.len() - i,
    {
        assert(rewards@.take(i as int + 1).drop_last() =~= rewards@.take(i as int));
        assert(rewards@.take(i as int + 1).last() == rewards@[i as int]);
        let ok = match &rewards[i] {
            RewardType::Currency(CurrencyType::PrestigePoints, n) => sim.prestige_points <= u32::MAX - *n,
            RewardType::Currency(CurrencyType::LegacyPoints, n) => sim.legacy_points <= u32::MAX - *n,
            RewardType::Currency(CurrencyType::AscensionShards, n) => sim.ascension_shards <= u32::MAX - *n,
            _ => true,
        };
        if !ok {
            proof {
                if spec_milestone_fits(*p, rewards@) {
                    lemma_milestone_fits_prefix(*p, rewards@, i as int + 1);
                }
            }
            return false;
        }
        match &rewards[i] {
            RewardType::Currency(CurrencyType::PrestigePoints, n) => sim.prestige_points = sim.prestige_points + *n,
            RewardType::Currency(CurrencyType::LegacyPoints, n) => sim.legacy_points = sim.legacy_points + *n,
            RewardType::Currency(CurrencyType::AscensionShards, n) => sim.ascension_shards = sim.ascension_shards + *n,
            _ => {},
        }
        i = i + 1;
    }
    assert(rewards@.take(i as int) =~= rewards@);
    true
}

/// Whether a prestige of kind `kind` paying `points` stays within the
/// counters' range, milestone rewards included: exactly when
/// [`handle_prestige`] may be called.
pub fn prestige_fits(prestige: &PrestigeSystem, meta: &MetaProgression, kind: PrestigeType, points: u32) -> (ok: bool)
    ensures
        ok == spec_prestige_fits(*prestige, *meta, kind, points),
{
    match kind {
        PrestigeType::Standard => {
            if prestige.prestige_points > u32::MAX - points || prestige.current_prestige == u32::MAX
                || prestige.total_prestiges == u32::MAX || meta.starting_bonuses.level == u32::MAX {
                return false;
            }
            let mid = PrestigeSystem {
                current_prestige: prestige.current_prestige + 1,
                total_prestiges: prestige.total_prestiges + 1,
                prestige_points: prestige.prestige_points + points,
                legacy_points: prestige.legacy_points,
                ascension_shards: prestige.ascension_shards,
            };
            assert(mid == spec_after_prestige(*prestige, kind, points));
            match meta.milestone_rewards.get(&mid.total_prestiges) {
                Some(m) => milestone_fits(&mid, &m.rewards),
                None => {
                    assert(spec_milestone_rewards_at(*meta, mid.total_prestiges) =~= Seq::<RewardType>::empty());
                    true
                },
            }
        },
        PrestigeType::Ascension => prestige.ascension_shards <= u32::MAX - prestige.current_prestige / 10,
        PrestigeType::Rebirth => prestige.legacy_points <= u32::MAX - prestige.total_prestiges / 5,
    }
}

/// Performs a prestige. Standard: earns `points` (computed by the caller
/// from the run), counts one more prestige, pays the milestone reward due
/// at the new total, and restarts the player at level 1 plus the starting
/// level bonus. Ascension: earns a shard per ten current prestiges and
/// resets the current prestige. Rebirth: earns a legacy point per five
/// total prestiges and resets both prestige counts.
pub fn handle_prestige(
    prestige: &mut PrestigeSystem,
    meta: &mut MetaProgression,
    kind: PrestigeType,
    points: u32,
) -> (outcome: PrestigeOutcome)
    requires
        spec_prestige_fits(*old(prestige), *old(meta), kind, points),
    ensures
        kind == PrestigeType::Standard ==> {
            let mid = spec_after_prestige(*old(prestige), kind, points);
            let due = spec_milestone_rewards_at(*old(meta), mid.total_prestiges);
            &&& *final(prestige) == spec_pay_milestone(mid, due)
            &&& name_views(final(meta).unlocked_features@) == name_views(old(meta).unlocked_features@)
                + spec_unlocked_features(due)
            &&& outcome == PrestigeOutcome::Restart {
                level: (1 + old(meta).starting_bonuses.level) as u32,
                milestone: old(meta).milestone_rewards.as_map().contains_key(mid.total_prestiges),
            }
        },
        kind == PrestigeType::Ascension ==> {
            &&& *final(prestige) == spec_after_prestige(*old(prestige), kind, points)
            &&& final(meta).unlocked_features == old(meta).unlocked_features
            &&& outcome == PrestigeOutcome::Ascended(old(prestige).current_prestige / 10)
        },
        kind == PrestigeType::Rebirth ==> {
            &&& *final(prestige) == spec_after_prestige(*old(prestige), kind, points)
            &&& final(meta).unlocked_features == old(meta).unlocked_features
            &&& outcome == PrestigeOutcome::Reborn(old(prestige).total_prestiges / 5)
        },
        final(meta).permanent_upgrades == old(meta).permanent_upgrades,
        final(meta).starting_bonuses == old(meta).starting_bonuses,
        final(meta).milestone_rewards == old(meta).milestone_rewards,
{
    match kind {
        PrestigeType::Standard => {
            prestige.prestige_points = prestige.prestige_points + points;
            prestige.current_prestige = prestige.current_prestige + 1;
            prestige.total_prestiges = prestige.total_prestiges + 1;
            let milestone = match meta.milestone_rewards.get(&prestige.total_prestiges) {
                Some(m) => {
                    pay_milestone(&m.rewards, prestige, &mut meta.unlocked_features);
                    true
                },
                None => false,
            };
            PrestigeOutcome::Restart { level: 1 + meta.starting_bonuses.level, milestone }
        },
        PrestigeType::Ascension => {
            let shards = prestige.current_prestige / 10;
            prestige.ascension_shards = prestige.ascension_shards + shards;
            prestige.current_prestige = 0;
            PrestigeOutcome::Ascended(shards)
        },
        PrestigeType::Rebirth => {
            let legacy = prestige.total_prestiges / 5;
            prestige.legacy_points = prestige.legacy_points + legacy;
            prestige.total_prestiges = 0;
            prestige.current_prestige = 0;
            PrestigeOutcome::Reborn(legacy)
        },
    }
}


/// Milestone rewards never change the prestige counts themselves.
pub proof fn lemma_milestones_keep_counts(p: PrestigeSystem, rewards: Seq<RewardType>)
    requires
        spec_milestone_fits(p, rewards),
    ensures
        spec_pay_milestone(p, rewards).current_prestige == p.current_prestige,
        spec_pay_milestone(p, rewards).total_prestiges == p.total_prestiges,
        spec_pay_milestone(p, rewards).prestige_points >= p.prestige_points,
        spec_pay_milestone(p, rewards).legacy_points >= p.legacy_points,
        spec_pay_milestone(p, rewards).ascension_shards >= p.ascension_shards,
    decreases rewards.len(),
{
    if rewards.len() > 0 {
        lemma_milestones_keep_counts(p, rewards.drop_last());
    }
}

/// A standard prestige counts exactly one more prestige (current and
/// total), whatever milestone it reaches; ascension and rebirth leave no
/// current prestige, and rebirth no total either.
pub proof fn lemma_prestige_counts(p: PrestigeSystem, meta: MetaProgression, kind: PrestigeType, points: u32)
    requires
        spec_prestige_fits(p, meta, kind, points),
    ensures
        kind == PrestigeType::Standard ==> {
            let mid = spec_after_prestige(p, kind, points);
            let after = spec_pay_milestone(mid, spec_milestone_rewards_at(meta, mid.total_prestiges));
            &&& after.current_prestige == p.current_prestige + 1
            &&& after.total_prestiges == p.total_prestiges + 1
            &&& after.prestige_points >= p.prestige_points + points
        },
        kind == PrestigeType::Ascension ==> spec_after_prestige(p, kind, points).current_prestige == 0
            && spec_after_prestige(p, kind, points).total_prestiges == p.total_prestiges,
        kind == PrestigeType::Rebirth ==> spec_after_prestige(p, kind, points).current_prestige == 0
            && spec_after_prestige(p, kind, points).total_prestiges == 0,
{
    if kind == PrestigeType::Standard {
        let mid = spec_after_prestige(p, kind, points);
        lemma_milestones_keep_counts(mid, spec_milestone_rewards_at(meta, mid.total_prestiges));
    }
}

/// Applies the run-start bonuses: adds the starting gold to the coins and
/// returns the level the player starts at (1 plus the starting level).
pub fn apply_starting_bonuses(meta: &MetaProgression, currency: &mut PlayerCurrency) -> (level: u32)
    requires
        old(currency).coins + meta.starting_bonuses.gold <= u32::MAX,
        1 + meta.starting_bonuses.level <= u32::MAX,
    ensures
        final(currency).coins == old(currency).coins + meta.starting_bonuses.gold,
        final(currency).gems == old(currency).gems,
        final(currency).soul_shards == old(currency).soul_shards,
        level == 1 + meta.starting_bonuses.level,
{
    currency.coins = currency.coins + meta.starting_bonuses.gold;
    1 + meta.starting_bonuses.level
}

/// Whether meta upgrade `u` has these fields, at level 0.
pub open spec fn upgrade_is(u: MetaUpgrade, id: Seq<char>, name: Seq<char>, description: Seq<char>, max_level: u32) -> bool {
    &&& u.id@ == id
    &&& u.name@ == name
    &&& u.description@ == description
    &&& u.current_level == 0
    &&& u.max_level == max_level
}

fn make_upgrade(id: &str, name: &str, description: &str, max_level: u32, cost_formula: CostFormula, effect: MetaEffect) -> (u: MetaUpgrade)
    ensures
        upgrade_is(u, id@, name@, description@, max_level),
        u.cost_formula == cost_formula,
        u.effect == effect,
{
    MetaUpgrade {
        id: owned(id),
        name: owned(name),
        description: owned(description),
        current_level: 0,
        max_level,
        cost_formula,
        effect,
    }
}

/// The meta progression every save starts from: four permanent upgrades
/// (golden start, eternal vitality, wisdom of ages, fortune's favor) at
/// level 0, no features, no starting bonuses, and milestone rewards at 1, 5
/// and 10 prestiges.
pub open spec fn is_starting_meta(meta: MetaProgression) -> bool {
    &&& meta.permanent_upgrades.as_map().dom() == set!["starting_gold"@, "health_boost"@, "exp_multiplier"@, "luck_boost"@]
    &&& ({
        let u = meta.permanent_upgrades.as_map()["starting_gold"@];
        &&& upgrade_is(u, "starting_gold"@, "Golden Start"@, "Start each run with bonus gold"@, 10)
        &&& (u.cost_formula matches CostFormula::Linear(c) && c == 1)
        &&& (u.effect matches MetaEffect::StartingGold(g) && g == 50)
    })
    &&& ({
        let u = meta.permanent_upgrades.as_map()["health_boost"@];
        &&& upgrade_is(u, "health_boost"@, "Eternal Vitality"@, "+5% permanent health bonus"@, 20)
        &&& (u.cost_formula matches CostFormula::Exponential(m, b) && m == 1500 && b == 2)
        &&& (u.effect matches MetaEffect::PermanentStatBoost(st, a) && st == StatType::Health && a == 50)
    })
    &&& ({
        let u = meta.permanent_upgrades.as_map()["exp_multiplier"@];
        &&& upgrade_is(u, "exp_multiplier"@, "Wisdom of Ages"@, "+10% experience gain"@, 5)
        &&& (u.cost_formula matches CostFormula::Custom(costs) && costs@ == seq![5u32, 10, 20, 40, 80])
        &&& (u.effect matches MetaEffect::ExperienceMultiplier(a) && a == 100)
    })
    &&& ({
        let u = meta.permanent_upgrades.as_map()["luck_boost"@];
        &&& upgrade_is(u, "luck_boost"@, "Fortune's Favor"@, "+5% better loot drops"@, 10)
        &&& (u.cost_formula matches CostFormula::Linear(c) && c == 3)
        &&& (u.effect matches MetaEffect::LuckBonus(a) && a == 50)
    })
    &&& meta.unlocked_features@.len() == 0
    &&& meta.starting_bonuses.gold == 0
    &&& meta.starting_bonuses.level == 0
    &&& meta.starting_bonuses.items@.len() == 0
    &&& meta.starting_bonuses.talent_points == 0
    &&& meta.starting_bonuses.stat_bonuses.as_map() == Map::<StatType, i32>::empty()
    &&& meta.milestone_rewards.as_map().dom() == set![1u32, 5u32, 10u32]
    &&& ({
        let m = meta.milestone_rewards.as_map()[1u32];
        &&& m.description@ == "First Prestige"@
        &&& m.rewards@.len() == 2
        &&& (m.rewards@[0] matches RewardType::Currency(c, n) && c == CurrencyType::PrestigePoints && n == 10)
        &&& (m.rewards@[1] matches RewardType::TitleUnlock(t) && t@ == "Reborn"@)
    })
    &&& ({
        let m = meta.milestone_rewards.as_map()[5u32];
        &&& m.description@ == "Prestige Veteran"@
        &&& m.rewards@.len() == 2
        &&& (m.rewards@[0] matches RewardType::Currency(c, n) && c == CurrencyType::LegacyPoints && n == 1)
        &&& (m.rewards@[1] matches RewardType::FeatureUnlock(f) && f@ == "hardcore_mode"@)
    })
    &&& ({
        let m = meta.milestone_rewards.as_map()[10u32];
        &&& m.description@ == "Prestige Master"@
        &&& m.rewards@.len() == 3
        &&& (m.rewards@[0] matches RewardType::Currency(c, n) && c == CurrencyType::AscensionShards && n == 1)
        &&& (m.rewards@[1] matches RewardType::CosmeticUnlock(x) && x@ == "golden_aura"@)
        &&& (m.rewards@[2] matches RewardType::PermanentUpgrade(x) && x@ == "auto_prestige"@)
    })
}

impl MetaProgression {
    /// The starting meta progression: four permanent upgrades (golden start,
    /// eternal vitality, wisdom of ages, fortune's favor), no features,
    /// no starting bonuses, and milestone rewards at 1, 5 and 10 prestiges.
    pub fn new() -> (meta: MetaProgression)
        ensures
            is_starting_meta(meta),
    {
        proof {
            reveal_strlit("starting_gold");
            reveal_strlit("health_boost");
            reveal_strlit("exp_multiplier");
            reveal_strlit("luck_boost");
            assert("starting_gold"@.len() == 13);
            assert("health_boost"@.len() == 12);
            assert("exp_multiplier"@.len() == 14);
            assert("luck_boost"@.len() == 10);
        }
        let mut upgrades: Table<String, MetaUpgrade> = Table::new();
        upgrades.insert(owned("starting_gold"), make_upgrade("starting_gold", "Golden Start",
            "Start each run with bonus gold", 10, CostFormula::Linear(1), MetaEffect::StartingGold(50)));
        upgrades.insert(owned("health_boost"), make_upgrade("health_boost", "Eternal Vitality",
            "+5% permanent health bonus", 20, CostFormula::Exponential(1500, 2),
            MetaEffect::PermanentStatBoost(StatType::Health, 50)));
        let mut costs: Vec<u32> = Vec::new();
        costs.push(5);
        costs.push(10);
        costs.push(20);
        costs.push(40);
        costs.push(80);
        assert(costs@ =~= seq![5u32, 10, 20, 40, 80]);
        upgrades.insert(owned("exp_multiplier"), make_upgrade("exp_multiplier", "Wisdom of Ages",
            "+10% experience gain", 5, CostFormula::Custom(costs), MetaEffect::ExperienceMultiplier(100)));
        upgrades.insert(owned("luck_boost"), make_upgrade("luck_boost", "Fortune's Favor",
            "+5% better loot drops", 10, CostFormula::Linear(3), MetaEffect::LuckBonus(50)));

        let mut milestones: Table<u32, MilestoneReward> = Table::new();
        let mut r1: Vec<RewardType> = Vec::new();
        r1.push(RewardType::Currency(CurrencyType::PrestigePoints, 10));
        r1.push(RewardType::TitleUnlock(owned("Reborn")));
        milestones.insert(1, MilestoneReward { description: owned("First Prestige"), rewards: r1 });
        let mut r5: Vec<RewardType> = Vec::new();
        r5.push(RewardType::Currency(CurrencyType::LegacyPoints, 1));
        r5.push(RewardType::FeatureUnlock(owned("hardcore_mode")));
        milestones.insert(5, MilestoneReward { description: owned("Prestige Veteran"), rewards: r5 });
        let mut r10: Vec<RewardType> = Vec::new();
        r10.push(RewardType::Currency(CurrencyType::AscensionShards, 1));
        r10.push(RewardType::CosmeticUnlock(owned("golden_aura")));
        r10.push(RewardType::PermanentUpgrade(owned("auto_prestige")));
        milestones.insert(10, MilestoneReward { description: owned("Prestige Master"), rewards: r10 });

        let meta = MetaProgression {
            permanent_upgrades: upgrades,
            unlocked_features: Vec::new(),
            starting_bonuses: StartingBonuses::new(),
            milestone_rewards: milestones,
        };
        assert(meta.permanent_upgrades.as_map().dom() =~= set!["starting_gold"@, "health_boost"@, "exp_multiplier"@, "luck_boost"@]);
        assert(meta.milestone_rewards.as_map().dom() =~= set![1u32, 5u32, 10u32]);
        meta
    }
}

impl Default for MetaProgression {
    /// The starting meta progression.
    fn default() -> (meta: MetaProgression)
        ensures
            is_starting_meta(meta),
    {
        MetaProgression::new()
    }
}

} // verus!
