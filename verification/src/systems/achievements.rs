//! Achievements: goals measured against the game statistics, unlocked once,
//! each worth points by tier and paying a reward.
use vstd::prelude::*;
use crate::table::{Table, lemma_not_in_prefix, lemma_prefix_set_step, lemma_full_prefix};
use crate::text::{owned, clone_string};
use crate::systems::GameProgress;
use crate::systems::shop::{self, PlayerCurrency};
use crate::systems::talents::count_or_zero;

verus! {

#[derive(Clone, Copy, PartialEq, Eq, Structural, Debug)]
pub enum AchievementCategory {
    Combat,
    Collection,
    Progression,
    Exploration,
    Challenge,
    Secret,
}

/// What an achievement asks for.
pub enum AchievementRequirement {
    KillEnemies(u32),
    CollectCoins(u32),
    ReachWave(u32),
    DefeatBoss(String),
    /// Waves completed without taking damage.
    CompleteWithoutDamage(u32),
    /// Ability name, number of uses.
    UseAbility(String, u32),
    CollectFruits(u32),
    ReachCombo(u32),
    CompleteChallenge(String),
    /// Stat name, required value, current value.
    Custom(String, u32, u32),
}

#[derive(Clone, Copy, PartialEq, Eq, Structural, Debug)]
pub enum CurrencyType {
    Coins,
    Gems,
    SoulShards,
}

#[derive(Clone, Copy, PartialEq, Eq, Structural, Debug)]
pub enum StatType {
    Health,
    Damage,
    Speed,
    ExperienceGain,
}

/// What unlocking pays; stat bonuses in thousandths.
pub struct AchievementReward {
    pub currency: Option<(CurrencyType, u32)>,
    pub unlock: Option<String>,
    pub title: Option<String>,
    pub cosmetic: Option<String>,
    pub bonus_stats: Option<Vec<(StatType, i32)>>,
}

#[derive(Clone, Copy, PartialEq, Eq, Structural, Debug)]
pub enum AchievementTier {
    Bronze,
    Silver,
    Gold,
    Platinum,
    Diamond,
}

impl AchievementTier {
    /// Achievement points for unlocking an achievement of this tier.
    pub open spec fn spec_points(self) -> u32 {
        match self {
            AchievementTier::Bronze => 10,
            AchievementTier::Silver => 25,
            AchievementTier::Gold => 50,
            AchievementTier::Platinum => 100,
            AchievementTier::Diamond => 200,
        }
    }

    /// Achievement points for unlocking an achievement of this tier.
    pub fn points(&self) -> (p: u32)
        ensures
            p == self.spec_points(),
    {
        match self {
            AchievementTier::Bronze => 10,
            AchievementTier::Silver => 25,
            AchievementTier::Gold => 50,
            AchievementTier::Platinum => 100,
            AchievementTier::Diamond => 200,
        }
    }
}

pub struct Achievement {
    pub id: String,
    pub name: String,
    pub description: String,
    pub icon: String,
    pub category: AchievementCategory,
    pub requirement: AchievementRequirement,
    pub reward: AchievementReward,
    pub hidden: bool,
    pub tier: AchievementTier,
}

/// All achievements, by id.
pub struct AchievementRegistry {
    pub achievements: Table<String, Achievement>,
}

impl AchievementRegistry {
    /// No achievements.
    pub fn new() -> (r: AchievementRegistry)
        ensures
            r.achievements.as_map() == Map::<Seq<char>, Achievement>::empty(),
    {
        AchievementRegistry { achievements: Table::new() }
    }
}

impl Default for AchievementRegistry {
    fn default() -> (r: AchievementRegistry)
        ensures
            r.achievements.as_map() == Map::<Seq<char>, Achievement>::empty(),
    {
        AchievementRegistry::new()
    }
}

/// The player's achievement state.
pub struct PlayerAchievements {
    pub unlocked: Table<String, bool>,
    pub progress: Table<String, u32>,
    pub total_points: u32,
}

impl PlayerAchievements {
    /// Nothing unlocked, no progress, no points.
    pub fn new() -> (p: PlayerAchievements)
        ensures
            p.unlocked.as_map() == Map::<Seq<char>, bool>::empty(),
            p.progress.as_map() == Map::<Seq<char>, u32>::empty(),
            p.total_points == 0,
    {
        PlayerAchievements { unlocked: Table::new(), progress: Table::new(), total_points: 0 }
    }

    /// Whether achievement `id` is unlocked.
    pub open spec fn spec_is_unlocked(&self, id: Seq<char>) -> bool {
        self.unlocked.as_map().contains_key(id) && self.unlocked.as_map()[id]
    }
}

impl Default for PlayerAchievements {
    fn default() -> (p: PlayerAchievements)
        ensures
            p.unlocked.as_map() == Map::<Seq<char>, bool>::empty(),
            p.progress.as_map() == Map::<Seq<char>, u32>::empty(),
            p.total_points == 0,
    {
        PlayerAchievements::new()
    }
}

pub open spec fn spec_min(a: u32, b: u32) -> u32 {
    if a <= b { a } else { b }
}

/// The progress recorded for a requirement: statistics-backed requirements
/// take the statistic capped at the goal; the others keep `current`.
pub open spec fn spec_requirement_progress(req: AchievementRequirement, stats: GameProgress, current: u32) -> u32 {
    match req {
        AchievementRequirement::KillEnemies(r) => spec_min(stats.enemies_killed, r),
        AchievementRequirement::CollectCoins(r) => spec_min(stats.coins_collected, r),
        AchievementRequirement::ReachWave(r) => spec_min(stats.current_level, r),
        AchievementRequirement::ReachCombo(r) => spec_min(stats.max_combo, r),
        _ => current,
    }
}

/// Whether `progress` meets the requirement. Requirements without a
/// measured goal are never met this way.
pub open spec fn spec_requirement_met(req: AchievementRequirement, progress: u32) -> bool {
    match req {
        AchievementRequirement::KillEnemies(r) => progress >= r,
        AchievementRequirement::CollectCoins(r) => progress >= r,
        AchievementRequirement::ReachWave(r) => progress >= r,
        AchievementRequirement::ReachCombo(r) => progress >= r,
        AchievementRequirement::Custom(_, r, _) => progress >= r,
        _ => false,
    }
}

fn requirement_progress(req: &AchievementRequirement, stats: &GameProgress, current: u32) -> (p: u32)
    ensures
        p == spec_requirement_progress(*req, *stats, current),
{
    match req {
        AchievementRequirement::KillEnemies(r) => if stats.enemies_killed <= *r { stats.enemies_killed } else { *r },
        AchievementRequirement::CollectCoins(r) => if stats.coins_collected <= *r { stats.coins_collected } else { *r },
        AchievementRequirement::ReachWave(r) => if stats.current_level <= *r { stats.current_level } else { *r },
        AchievementRequirement::ReachCombo(r) => if stats.max_combo <= *r { stats.max_combo } else { *r },
        _ => current,
    }
}

fn requirement_met(req: &AchievementRequirement, progress: u32) -> (met: bool)
    ensures
        met == spec_requirement_met(*req, progress),
{
    match req {
        AchievementRequirement::KillEnemies(r) => progress >= *r,
        AchievementRequirement::CollectCoins(r) => progress >= *r,
        AchievementRequirement::ReachWave(r) => progress >= *r,
        AchievementRequirement::ReachCombo(r) => progress >= *r,
        AchievementRequirement::Custom(_, r, _) => progress >= *r,
        _ => false,
    }
}

/// Achievement `k` is registered and still locked, so its progress is tracked.
pub open spec fn spec_tracks(p: PlayerAchievements, reg: AchievementRegistry, k: Seq<char>) -> bool {
    reg.achievements.as_map().contains_key(k) && !p.spec_is_unlocked(k)
}

/// The progress values that one tracking pass records.
pub open spec fn spec_tracked(p: PlayerAchievements, reg: AchievementRegistry, stats: GameProgress) -> Map<Seq<char>, u32> {
    Map::new(
        |k: Seq<char>| spec_tracks(p, reg, k),
        |k: Seq<char>| spec_requirement_progress(
            reg.achievements.as_map()[k].requirement,
            stats,
            count_or_zero(p.progress.as_map(), k),
        ),
    )
}

/// Records, for every locked achievement, its progress against the current
/// statistics; unlocked achievements keep their progress as it is.
pub fn track_achievement_progress(player: &mut PlayerAchievements, registry: &AchievementRegistry, stats: &GameProgress)
    ensures
        final(player).progress.as_map() == old(player).progress.as_map().union_prefer_right(
            spec_tracked(*old(player), *registry, *stats),
        ),
        final(player).unlocked.as_map() == old(player).unlocked.as_map(),
        final(player).total_points == old(player).total_points,
{
    let n = registry.achievements.len();
    let ghost keys = registry.achievements.keys();
    let ghost start = *player;
    let mut i: usize = 0;
    while i < n
        invariant
            n == keys.len(),
            keys == registry.achievements.keys(),
            start == *old(player),
            i <= n,
            forall|a: int, b: int| 0 <= a < b < n ==> keys[a] != keys[b],
            forall|a: int| 0 <= a < n ==> #[trigger] registry.achievements.as_map().contains_key(keys[a]),
            forall|k: Seq<char>| #[trigger] registry.achievements.as_map().contains_key(k) <==> keys.contains(k),
            player.unlocked.as_map() == start.unlocked.as_map(),
            player.total_points == start.total_points,
            player.progress.as_map() == start.progress.as_map().union_prefer_right(
                spec_tracked(start, *registry, *stats).restrict(keys.take(i as int).to_set()),
            ),
        decreases n - i,
    {
        let id = registry.achievements.key(i);
        let ach = registry.achievements.value(i);
        let ghost k = keys[i as int];
        assert(k == id@);
        let is_unlocked = match player.unlocked.get(id) {
            Some(b) => *b,
            None => false,
        };
        proof {
            lemma_not_in_prefix(keys, i as int);
            lemma_prefix_set_step(keys, i as int);
        }
        if !is_unlocked {
            let current = match player.progress.get(id) {
                Some(p) => *p,
                None => 0,
            };
            assert(current == count_or_zero(start.progress.as_map(), k));
            let value = requirement_progress(&ach.requirement, stats, current);
            player.progress.insert(clone_string(id), value);
            assert(player.progress.as_map() =~= start.progress.as_map().union_prefer_right(
                spec_tracked(start, *registry, *stats).restrict(keys.take(i as int + 1).to_set()),
            ));
        } else {
            assert(player.progress.as_map() =~= start.progress.as_map().union_prefer_right(
                spec_tracked(start, *registry, *stats).restrict(keys.take(i as int + 1).to_set()),
            ));
        }
        i = i + 1;
    }
    proof {
        lemma_full_prefix(keys);
        assert(spec_tracked(start, *registry, *stats).restrict(keys.to_set()) =~= spec_tracked(start, *registry, *stats)) by {
            assert forall|x: Seq<char>| spec_tracked(start, *registry, *stats).contains_key(x) implies keys.to_set().contains(x) by {
                assert(registry.achievements.as_map().contains_key(x));
            }
        }
    }
}


/// Achievement `k` is registered, locked, and its recorded progress meets its
/// requirement, so a completion pass unlocks it.
pub open spec fn spec_completes(p: PlayerAchievements, reg: AchievementRegistry, k: Seq<char>) -> bool {
    &&& spec_tracks(p, reg, k)
    &&& spec_requirement_met(reg.achievements.as_map()[k].requirement, count_or_zero(p.progress.as_map(), k))
}

/// The achievement points earned by the achievements among `keys` that complete.
pub open spec fn spec_completion_points(p: PlayerAchievements, reg: AchievementRegistry, keys: Seq<Seq<char>>) -> int
    decreases keys.len(),
{
    if keys.len() == 0 {
        0
    } else {
        spec_completion_points(p, reg, keys.drop_last()) + if spec_completes(p, reg, keys.last()) {
            reg.achievements.as_map()[keys.last()].tier.spec_points() as int
        } else {
            0
        }
    }
}

/// The view of a list of ids.
pub open spec fn id_views(ids: Seq<String>) -> Seq<Seq<char>> {
    ids.map_values(|s: String| s@)
}

/// Unlocks every locked achievement whose recorded progress meets its
/// requirement, adds its tier's points, and returns the ids unlocked, in
/// registry order.
pub fn check_achievement_completion(player: &mut PlayerAchievements, registry: &AchievementRegistry) -> (unlocked_ids: Vec<String>)
    requires
        old(player).total_points + spec_completion_points(*old(player), *registry, registry.achievements.keys()) <= u32::MAX,
    ensures
        final(player).unlocked.as_map() == old(player).unlocked.as_map().union_prefer_right(
            Map::new(|k: Seq<char>| spec_completes(*old(player), *registry, k), |k: Seq<char>| true),
        ),
        final(player).progress.as_map() == old(player).progress.as_map(),
        final(player).total_points == old(player).total_points
            + spec_completion_points(*old(player), *registry, registry.achievements.keys()),
        id_views(unlocked_ids@) == registry.achievements.keys().filter(
            |k: Seq<char>| spec_completes(*old(player), *registry, k),
        ),
{
    let n = registry.achievements.len();
    let ghost keys = registry.achievements.keys();
    let ghost start = *player;
    let ghost pred = |k: Seq<char>| spec_completes(start, *registry, k);
    let ghost done = Map::new(|k: Seq<char>| spec_completes(start, *registry, k), |k: Seq<char>| true);
    let mut ids: Vec<String> = Vec::new();
    let mut i: usize = 0;
    while i < n
        invariant
            n == keys.len(),
            keys == registry.achievements.keys(),
            start == *old(player),
            pred == (|k: Seq<char>| spec_completes(start, *registry, k)),
            done == Map::new(|k: Seq<char>| spec_completes(start, *registry, k), |k: Seq<char>| true),
            i <= n,
            forall|a: int, b: int| 0 <= a < b < n ==> keys[a] != keys[b],
            forall|a: int| 0 <= a < n ==> #[trigger] registry.achievements.as_map().contains_key(keys[a]),
            start.total_points + spec_completion_points(start, *registry, keys) <= u32::MAX,
            player.progress.as_map() == start.progress.as_map(),
            player.unlocked.as_map() == start.unlocked.as_map().union_prefer_right(
                done.restrict(keys.take(i as int).to_set()),
            ),
            player.total_points == start.total_points + spec_completion_points(start, *registry, keys.take(i as int)),
            id_views(ids@) == keys.take(i as int).filter(pred),
        decreases n - i,
    {
        let id = registry.achievements.key(i);
        let ach = registry.achievements.value(i);
        let ghost k = keys[i as int];
        proof {
            lemma_not_in_prefix(keys, i as int);
            lemma_prefix_set_step(keys, i as int);
            assert(keys.take(i as int + 1).drop_last() =~= keys.take(i as int));
            assert(keys.take(i as int + 1).last() == k);
            lemma_completion_points_prefix(start, *registry, keys, i as int + 1);
        }
        let is_unlocked = match player.unlocked.get(id) {
            Some(b) => *b,
            None => false,
        };
        assert(is_unlocked == start.spec_is_unlocked(k));
        let progress = match player.progress.get(id) {
            Some(p) => *p,
            None => 0,
        };
        proof {
            assert(progress == count_or_zero(start.progress.as_map(), k));
            assert(registry.achievements.as_map()[k] == *ach);
            assert(pred(k) == (!is_unlocked && spec_requirement_met(ach.requirement, progress)));
            reveal_with_fuel(Seq::<_>::filter, 1);
            assert(keys.take(i as int + 1).filter(pred) == (if pred(k) {
                keys.take(i as int).filter(pred).push(k)
            } else {
                keys.take(i as int).filter(pred)
            }));
        }
        if !is_unlocked && requirement_met(&ach.requirement, progress) {
            player.unlocked.insert(clone_string(id), true);
            player.total_points = player.total_points + ach.tier.points();
            let ghost before = ids@;
            ids.push(clone_string(id));
            proof {
                assert(id_views(ids@) =~= id_views(before).push(k));
            }
        }
        assert(player.unlocked.as_map() =~= start.unlocked.as_map().union_prefer_right(
            done.restrict(keys.take(i as int + 1).to_set()),
        ));
        i = i + 1;
    }
    proof {
        lemma_full_prefix(keys);
        assert(done.restrict(keys.to_set()) =~= done) by {
            assert forall|x: Seq<char>| done.contains_key(x) implies keys.to_set().contains(x) by {
                assert(registry.achievements.as_map().contains_key(x));
                assert(registry.achievements.as_map().contains_key(x) <==> keys.contains(x));
            }
        }
    }
    ids
}

/// Points over a longer prefix add the next achievement's points when it
/// completes.
proof fn lemma_completion_points_prefix(p: PlayerAchievements, reg: AchievementRegistry, keys: Seq<Seq<char>>, n: int)
    requires
        0 < n <= keys.len(),
    ensures
        spec_completion_points(p, reg, keys.take(n)) >= spec_completion_points(p, reg, keys.take(n - 1)),
        spec_completion_points(p, reg, keys.take(n)) <= spec_completion_points(p, reg, keys),
    decreases keys.len() - n,
{
    assert(keys.take(n).drop_last() =~= keys.take(n - 1));
    if n < keys.len() {
        lemma_completion_points_prefix(p, reg, keys, n + 1);
    } else {
        assert(keys.take(n) =~= keys);
    }
}

/// The shop currency that an achievement reward pays in.
pub open spec fn spec_shop_currency(ct: CurrencyType) -> shop::CurrencyType {
    match ct {
        CurrencyType::Coins => shop::CurrencyType::Coins,
        CurrencyType::Gems => shop::CurrencyType::Gems,
        CurrencyType::SoulShards => shop::CurrencyType::SoulShards,
    }
}

fn shop_currency(ct: CurrencyType) -> (s: shop::CurrencyType)
    ensures
        s == spec_shop_currency(ct),
{
    match ct {
        CurrencyType::Coins => shop::CurrencyType::Coins,
        CurrencyType::Gems => shop::CurrencyType::Gems,
        CurrencyType::SoulShards => shop::CurrencyType::SoulShards,
    }
}

/// Pays the currency reward of unlocked achievement `achievement_id` into
/// the wallet. Returns whether the achievement is registered; an unknown id
/// pays nothing.
pub fn handle_achievement_rewards(registry: &AchievementRegistry, currency: &mut PlayerCurrency, achievement_id: &String) -> (found: bool)
    requires
        registry.achievements.as_map().contains_key(achievement_id@) ==> (
            registry.achievements.as_map()[achievement_id@].reward.currency matches Some((ct, amount))
            ==> old(currency).spec_balance(spec_shop_currency(ct)) + amount <= u32::MAX),
    ensures
        found == registry.achievements.as_map().contains_key(achievement_id@),
        *final(currency) == (if found {
            match registry.achievements.as_map()[achievement_id@].reward.currency {
                Some((ct, amount)) => old(currency).spec_credit(spec_shop_currency(ct), amount),
                None => *old(currency),
            }
        } else {
            *old(currency)
        }),
{
    match registry.achievements.get(achievement_id) {
        Some(achievement) => {
            match achievement.reward.currency {
                Some((ct, amount)) => currency.credit(shop_currency(ct), amount),
                None => {},
            }
            true
        },
        None => false,
    }
}

/// Once unlocked, an achievement stays unlocked: tracking never touches the
/// unlocked set, and a completion pass only adds to it.
pub proof fn lemma_unlocks_are_permanent(before: PlayerAchievements, after_check: Map<Seq<char>, bool>, reg: AchievementRegistry, id: Seq<char>)
    requires
        before.spec_is_unlocked(id),
        after_check == before.unlocked.as_map().union_prefer_right(
            Map::new(|k: Seq<char>| spec_completes(before, reg, k), |k: Seq<char>| true),
        ),
    ensures
        after_check.contains_key(id) && after_check[id],
{
}

/// Tracked progress never exceeds the goal of a statistics-backed requirement.
pub proof fn lemma_progress_capped(req: AchievementRequirement, stats: GameProgress, current: u32)
    ensures
        req matches AchievementRequirement::KillEnemies(r) ==> spec_requirement_progress(req, stats, current) <= r,
        req matches AchievementRequirement::CollectCoins(r) ==> spec_requirement_progress(req, stats, current) <= r,
        req matches AchievementRequirement::ReachWave(r) ==> spec_requirement_progress(req, stats, current) <= r,
        req matches AchievementRequirement::ReachCombo(r) ==> spec_requirement_progress(req, stats, current) <= r,
{
}


/// The view of an optional string.
pub open spec fn opt_view(o: Option<String>) -> Option<Seq<char>> {
    match o {
        Some(s) => Some(s@),
        None => None,
    }
}

/// The view of optional stat bonuses.
pub open spec fn bonus_view(o: Option<Vec<(StatType, i32)>>) -> Option<Seq<(StatType, i32)>> {
    match o {
        Some(v) => Some(v@),
        None => None,
    }
}

/// Whether achievement `a` has these fields.
pub open spec fn achievement_is(
    a: Achievement,
    id: Seq<char>,
    name: Seq<char>,
    description: Seq<char>,
    icon: Seq<char>,
    category: AchievementCategory,
    tier: AchievementTier,
) -> bool {
    &&& a.id@ == id
    &&& a.name@ == name
    &&& a.description@ == description
    &&& a.icon@ == icon
    &&& a.category == category
    &&& a.tier == tier
    &&& !a.hidden
}

/// Whether reward `r` has these parts.
pub open spec fn reward_is(
    r: AchievementReward,
    currency: Option<(CurrencyType, u32)>,
    unlock: Option<Seq<char>>,
    title: Option<Seq<char>>,
    cosmetic: Option<Seq<char>>,
    bonus_stats: Option<Seq<(StatType, i32)>>,
) -> bool {
    &&& r.currency == currency
    &&& opt_view(r.unlock) == unlock
    &&& opt_view(r.title) == title
    &&& opt_view(r.cosmetic) == cosmetic
    &&& bonus_view(r.bonus_stats) == bonus_stats
}

fn make_reward(
    currency: Option<(CurrencyType, u32)>,
    unlock: Option<&str>,
    title: Option<&str>,
    cosmetic: Option<&str>,
    bonus_stats: Option<Vec<(StatType, i32)>>,
) -> (r: AchievementReward)
    ensures
        r.currency == currency,
        opt_view(r.unlock) == (match unlock { Some(s) => Some(s@), None => None::<Seq<char>> }),
        opt_view(r.title) == (match title { Some(s) => Some(s@), None => None::<Seq<char>> }),
        opt_view(r.cosmetic) == (match cosmetic { Some(s) => Some(s@), None => None::<Seq<char>> }),
        bonus_view(r.bonus_stats) == (match bonus_stats { Some(v) => Some(v@), None => None::<Seq<(StatType, i32)>> }),
{
    AchievementReward {
        currency,
        unlock: match unlock { Some(s) => Some(owned(s)), None => None },
        title: match title { Some(s) => Some(owned(s)), None => None },
        cosmetic: match cosmetic { Some(s) => Some(owned(s)), None => None },
        bonus_stats,
    }
}

fn make_achievement(
    id: &str,
    name: &str,
    description: &str,
    icon: &str,
    category: AchievementCategory,
    requirement: AchievementRequirement,
    reward: AchievementReward,
    tier: AchievementTier,
) -> (a: Achievement)
    ensures
        achievement_is(a, id@, name@, description@, icon@, category, tier),
        a.requirement == requirement,
        a.reward == reward,
{
    Achievement {
        id: owned(id),
        name: owned(name),
        description: owned(description),
        icon: owned(icon),
        category,
        requirement,
        reward,
        hidden: false,
        tier,
    }
}

fn one_bonus(stat: StatType, amount: i32) -> (v: Vec<(StatType, i32)>)
    ensures
        v@ == seq![(stat, amount)],
{
    let mut v = Vec::new();
    v.push((stat, amount));
    assert(v@ =~= seq![(stat, amount)]);
    v
}

/// Registers the starting achievements (replacing any with the same ids):
/// first kill, reaching wave 10, a hundred goblins, five flawless waves and
/// a 50-hit combo.
pub fn initialize_achievements(registry: &mut AchievementRegistry)
    ensures
        final(registry).achievements.as_map().dom() == old(registry).achievements.as_map().dom()
            + set!["first_blood"@, "wave_10"@, "goblin_slayer"@, "flawless_victory"@, "combo_master"@],
        ({
            let a = final(registry).achievements.as_map()["first_blood"@];
            &&& achievement_is(a, "first_blood"@, "First Blood"@, "Defeat your first enemy"@, "icons/sword.png"@,
                AchievementCategory::Combat, AchievementTier::Bronze)
            &&& (a.requirement matches AchievementRequirement::KillEnemies(n) && n == 1)
            &&& reward_is(a.reward, Some((CurrencyType::Coins, 50u32)), None, Some("Novice Warrior"@), None, None)
        }),
        ({
            let a = final(registry).achievements.as_map()["wave_10"@];
            &&& achievement_is(a, "wave_10"@, "Survivor"@, "Reach wave 10"@, "icons/shield.png"@,
                AchievementCategory::Progression, AchievementTier::Silver)
            &&& (a.requirement matches AchievementRequirement::ReachWave(n) && n == 10)
            &&& reward_is(a.reward, Some((CurrencyType::Gems, 10u32)), Some("special_ability_1"@), Some("Survivor"@), None,
                Some(seq![(StatType::Health, 25_000i32)]))
        }),
        ({
            let a = final(registry).achievements.as_map()["goblin_slayer"@];
            &&& achievement_is(a, "goblin_slayer"@, "Goblin Slayer"@, "Defeat 100 goblins"@, "icons/goblin.png"@,
                AchievementCategory::Combat, AchievementTier::Gold)
            &&& (a.requirement matches AchievementRequirement::Custom(stat, required, current)
                && stat@ == "goblins_killed"@ && required == 100 && current == 0)
            &&& reward_is(a.reward, Some((CurrencyType::Coins, 200u32)), None, Some("Goblin Slayer"@),
                Some("goblin_slayer_badge"@), Some(seq![(StatType::Damage, 5_000i32)]))
        }),
        ({
            let a = final(registry).achievements.as_map()["flawless_victory"@];
            &&& achievement_is(a, "flawless_victory"@, "Flawless Victory"@, "Complete 5 waves without taking damage"@,
                "icons/perfect.png"@, AchievementCategory::Challenge, AchievementTier::Platinum)
            &&& (a.requirement matches AchievementRequirement::CompleteWithoutDamage(n) && n == 5)
            &&& reward_is(a.reward, Some((CurrencyType::SoulShards, 1u32)), Some("dodge_ability"@), Some("Untouchable"@),
                None, Some(seq![(StatType::Speed, 10_000i32)]))
        }),
        ({
            let a = final(registry).achievements.as_map()["combo_master"@];
            &&& achievement_is(a, "combo_master"@, "Combo Master"@, "Reach a 50x combo"@, "icons/combo.png"@,
                AchievementCategory::Combat, AchievementTier::Gold)
            &&& (a.requirement matches AchievementRequirement::ReachCombo(n) && n == 50)
            &&& reward_is(a.reward, Some((CurrencyType::Gems, 25u32)), None, Some("Combo Master"@), None, None)
        }),
{
    proof {
        reveal_strlit("first_blood");
        reveal_strlit("wave_10");
        reveal_strlit("goblin_slayer");
        reveal_strlit("flawless_victory");
        reveal_strlit("combo_master");
        assert("first_blood"@.len() == 11);
        assert("wave_10"@.len() == 7);
        assert("goblin_slayer"@.len() == 13);
        assert("flawless_victory"@.len() == 16);
        assert("combo_master"@.len() == 12);
    }
    registry.achievements.insert(owned("first_blood"), make_achievement("first_blood", "First Blood",
        "Defeat your first enemy", "icons/sword.png", AchievementCategory::Combat,
        AchievementRequirement::KillEnemies(1),
        make_reward(Some((CurrencyType::Coins, 50)), None, Some("Novice Warrior"), None, None),
        AchievementTier::Bronze));
    registry.achievements.insert(owned("wave_10"), make_achievement("wave_10", "Survivor", "Reach wave 10",
        "icons/shield.png", AchievementCategory::Progression, AchievementRequirement::ReachWave(10),
        make_reward(Some((CurrencyType::Gems, 10)), Some("special_ability_1"), Some("Survivor"), None,
            Some(one_bonus(StatType::Health, 25_000))),
        AchievementTier::Silver));
    registry.achievements.insert(owned("goblin_slayer"), make_achievement("goblin_slayer", "Goblin Slayer",
        "Defeat 100 goblins", "icons/goblin.png", AchievementCategory::Combat,
        AchievementRequirement::Custom(owned("goblins_killed"), 100, 0),
        make_reward(Some((CurrencyType::Coins, 200)), None, Some("Goblin Slayer"), Some("goblin_slayer_badge"),
            Some(one_bonus(StatType::Damage, 5_000))),
        AchievementTier::Gold));
    registry.achievements.insert(owned("flawless_victory"), make_achievement("flawless_victory", "Flawless Victory",
        "Complete 5 waves without taking damage", "icons/perfect.png", AchievementCategory::Challenge,
        AchievementRequirement::CompleteWithoutDamage(5),
        make_reward(Some((CurrencyType::SoulShards, 1)), Some("dodge_ability"), Some("Untouchable"), None,
            Some(one_bonus(StatType::Speed, 10_000))),
        AchievementTier::Platinum));
    registry.achievements.insert(owned("combo_master"), make_achievement("combo_master", "Combo Master",
        "Reach a 50x combo", "icons/combo.png", AchievementCategory::Combat, AchievementRequirement::ReachCombo(50),
        make_reward(Some((CurrencyType::Gems, 25)), None, Some("Combo Master"), None, None),
        AchievementTier::Gold));
    assert(registry.achievements.as_map().dom() =~= old(registry).achievements.as_map().dom()
        + set!["first_blood"@, "wave_10"@, "goblin_slayer"@, "flawless_victory"@, "combo_master"@]);
}

/// An achievement's currency reward lands in the wallet balance of the
/// same name: coins raise coins, gems raise gems, soul shards raise soul
/// shards, each by the reward's amount, and the other two balances stay.
pub proof fn lemma_reward_credits_same_currency(c: PlayerCurrency, ct: CurrencyType, amount: u32)
    ensures
        ({
            let d = c.spec_credit(spec_shop_currency(ct), amount);
            &&& ct == CurrencyType::Coins ==> d.coins == (c.coins + amount) as u32 && d.gems == c.gems
                && d.soul_shards == c.soul_shards
            &&& ct == CurrencyType::Gems ==> d.gems == (c.gems + amount) as u32 && d.coins == c.coins
                && d.soul_shards == c.soul_shards
            &&& ct == CurrencyType::SoulShards ==> d.soul_shards == (c.soul_shards + amount) as u32
                && d.coins == c.coins && d.gems == c.gems
        }),
{
}

} // verus!
