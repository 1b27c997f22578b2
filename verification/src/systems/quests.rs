//! Quests: daily quests, wave challenges and story quests, each a list of
//! objectives whose progress is measured against the game statistics.
//! Times are held in thousandths of a second.
use vstd::prelude::*;
use crate::table::{Table, lemma_full_prefix};
use crate::text::{owned, clone_string, str_eq};
use crate::systems::GameProgress;
use crate::systems::shop::{self, PlayerCurrency};
use crate::systems::talents::count_or_zero;
use crate::systems::achievements::{spec_min, id_views};

verus! {

#[derive(Clone, Copy, PartialEq, Eq, Structural, Debug)]
pub enum QuestType {
    Daily,
    Wave,
    Story,
    Hidden,
    Challenge,
}

/// One thing a quest asks for.
pub enum QuestObjective {
    /// Enemy type, count.
    KillEnemies(String, u32),
    /// Item type, count.
    CollectItems(String, u32),
    ReachWave(u32),
    /// Survive this long, in thousandths of a second.
    SurviveTime(u32),
    /// Ability name, times.
    UseAbility(String, u32),
    CompleteWithoutDamage,
    ReachCombo(u32),
    /// Boss name, time limit in thousandths of a second.
    DefeatBossInTime(String, u32),
    /// Custom objective, target value.
    Custom(String, u32),
}

#[derive(Clone, Copy, PartialEq, Eq, Structural, Debug)]
pub enum CurrencyType {
    Coins,
    Gems,
    SoulShards,
}

pub struct QuestRewards {
    pub experience: u32,
    pub currency: Vec<(CurrencyType, u32)>,
    pub items: Vec<String>,
    pub unlock: Option<String>,
}

pub struct Quest {
    pub id: String,
    pub name: String,
    pub description: String,
    pub quest_type: QuestType,
    pub objectives: Vec<QuestObjective>,
    pub rewards: QuestRewards,
    /// Time limit in thousandths of a second.
    pub time_limit: Option<u32>,
    pub repeatable: bool,
}

/// Every quest definition, the daily pool, and the challenges of each wave.
pub struct QuestManager {
    pub available_quests: Table<String, Quest>,
    pub daily_quest_pool: Vec<String>,
    pub wave_challenges: Table<u32, Vec<String>>,
}

/// A quest being worked on.
pub struct ActiveQuest {
    pub quest: Quest,
    /// Objective index to progress.
    pub progress: Table<usize, u32>,
    /// Start time (seconds), as the IEEE-754 bit pattern the engine recorded.
    pub start_time: u32,
    pub completed: bool,
}

/// The player's quests, and how often each quest was completed.
pub struct ActiveQuests {
    pub daily_quests: Vec<ActiveQuest>,
    pub wave_challenges: Vec<ActiveQuest>,
    pub story_quests: Vec<ActiveQuest>,
    pub completed_quests: Table<String, u32>,
}

impl QuestManager {
    /// No quests.
    pub fn new() -> (m: QuestManager)
        ensures
            m.available_quests.as_map() == Map::<Seq<char>, Quest>::empty(),
            m.daily_quest_pool@.len() == 0,
            m.wave_challenges.as_map() == Map::<u32, Vec<String>>::empty(),
    {
        QuestManager { available_quests: Table::new(), daily_quest_pool: Vec::new(), wave_challenges: Table::new() }
    }
}

impl Default for QuestManager {
    fn default() -> (m: QuestManager)
        ensures
            m.available_quests.as_map() == Map::<Seq<char>, Quest>::empty(),
            m.daily_quest_pool@.len() == 0,
            m.wave_challenges.as_map() == Map::<u32, Vec<String>>::empty(),
    {
        QuestManager::new()
    }
}

impl ActiveQuests {
    /// No quests taken, none completed.
    pub fn new() -> (a: ActiveQuests)
        ensures
            a.daily_quests@.len() == 0,
            a.wave_challenges@.len() == 0,
            a.story_quests@.len() == 0,
            a.completed_quests.as_map() == Map::<Seq<char>, u32>::empty(),
    {
        ActiveQuests {
            daily_quests: Vec::new(),
            wave_challenges: Vec::new(),
            story_quests: Vec::new(),
            completed_quests: Table::new(),
        }
    }
}

impl Default for ActiveQuests {
    fn default() -> (a: ActiveQuests)
        ensures
            a.daily_quests@.len() == 0,
            a.wave_challenges@.len() == 0,
            a.story_quests@.len() == 0,
            a.completed_quests.as_map() == Map::<Seq<char>, u32>::empty(),
    {
        ActiveQuests::new()
    }
}

/// The progress recorded for an objective: kills, waves, combos and coin
/// collection take the statistic capped at the target; the others keep
/// `current`.
pub open spec fn spec_objective_progress(obj: QuestObjective, stats: GameProgress, current: u32) -> u32 {
    match obj {
        QuestObjective::KillEnemies(_, t) => spec_min(stats.enemies_killed, t),
        QuestObjective::ReachWave(t) => spec_min(stats.current_wave, t),
        QuestObjective::ReachCombo(t) => spec_min(stats.max_combo, t),
        QuestObjective::CollectItems(item, t) => if item@ == "coin"@ {
            spec_min(stats.coins_collected, t)
        } else {
            current
        },
        _ => current,
    }
}

/// Whether `progress` meets the objective. Objectives without a counted
/// target are never met this way.
pub open spec fn spec_objective_done(obj: QuestObjective, progress: u32) -> bool {
    match obj {
        QuestObjective::KillEnemies(_, t) => progress >= t,
        QuestObjective::CollectItems(_, t) => progress >= t,
        QuestObjective::ReachWave(t) => progress >= t,
        QuestObjective::ReachCombo(t) => progress >= t,
        QuestObjective::Custom(_, t) => progress >= t,
        _ => false,
    }
}

/// The progress map of `q` after one progress pass.
pub open spec fn spec_updated_progress(q: ActiveQuest, stats: GameProgress) -> Map<usize, u32> {
    if q.completed {
        q.progress.as_map()
    } else {
        q.progress.as_map().union_prefer_right(
            Map::new(
                |i: usize| i < q.quest.objectives@.len(),
                |i: usize| spec_objective_progress(q.quest.objectives@[i as int], stats, count_or_zero(q.progress.as_map(), i)),
            ),
        )
    }
}

/// Every objective of `q` is met by its recorded progress.
pub open spec fn spec_all_done(q: ActiveQuest) -> bool {
    forall|i: int| 0 <= i < q.quest.objectives@.len() ==>
        spec_objective_done(#[trigger] q.quest.objectives@[i], count_or_zero(q.progress.as_map(), i as usize))
}

/// A completion pass marks `q` complete.
pub open spec fn spec_quest_completes(q: ActiveQuest) -> bool {
    !q.completed && spec_all_done(q)
}

fn objective_progress(obj: &QuestObjective, stats: &GameProgress, current: u32) -> (p: u32)
    ensures
        p == spec_objective_progress(*obj, *stats, current),
{
    match obj {
        QuestObjective::KillEnemies(_, t) => if stats.enemies_killed <= *t { stats.enemies_killed } else { *t },
        QuestObjective::ReachWave(t) => if stats.current_wave <= *t { stats.current_wave } else { *t },
        QuestObjective::ReachCombo(t) => if stats.max_combo <= *t { stats.max_combo } else { *t },
        QuestObjective::CollectItems(item, t) => if str_eq(item.as_str(), "coin") {
            if stats.coins_collected <= *t { stats.coins_collected } else { *t }
        } else {
            current
        },
        _ => current,
    }
}

fn objective_done(obj: &QuestObjective, progress: u32) -> (done: bool)
    ensures
        done == spec_objective_done(*obj, progress),
{
    match obj {
        QuestObjective::KillEnemies(_, t) => progress >= *t,
        QuestObjective::CollectItems(_, t) => progress >= *t,
        QuestObjective::ReachWave(t) => progress >= *t,
        QuestObjective::ReachCombo(t) => progress >= *t,
        QuestObjective::Custom(_, t) => progress >= *t,
        _ => false,
    }
}

impl ActiveQuest {
    /// Records the progress of every objective of an open quest against the
    /// statistics; a completed quest is left as it is.
    pub fn update_progress(&mut self, stats: &GameProgress)
        ensures
            final(self).progress.as_map() == spec_updated_progress(*old(self), *stats),
            final(self).quest == old(self).quest,
            final(self).start_time == old(self).start_time,
            final(self).completed == old(self).completed,
    {
        if self.completed {
            return;
        }
        let n = self.quest.objectives.len();
        let ghost start = self.progress.as_map();
        let ghost target = Map::new(
            |i: usize| i < n,
            |i: usize| spec_objective_progress(self.quest.objectives@[i as int], *stats, count_or_zero(start, i)),
        );
        let mut idx: usize = 0;
        while idx < n
            invariant
                n == self.quest.objectives@.len(),
                idx <= n,
                self.quest == old(self).quest,
                !self.completed,
                self.start_time == old(self).start_time,
                start == old(self).progress.as_map(),
                target == Map::new(
                    |i: usize| i < n,
                    |i: usize| spec_objective_progress(self.quest.objectives@[i as int], *stats, count_or_zero(start, i)),
                ),
                self.progress.as_map() == start.union_prefer_right(target.restrict(Set::new(|i: usize| i < idx))),
            decreases n - idx,
        {
            let current = match self.progress.get(&idx) {
                Some(p) => *p,
                None => 0,
            };
            assert(current == count_or_zero(start, idx));
            let value = objective_progress(&self.quest.objectives[idx], stats, current);
            self.progress.insert(idx, value);
            assert(self.progress.as_map() =~= start.union_prefer_right(
                target.restrict(Set::new(|i: usize| i < idx + 1)),
            ));
            idx = idx + 1;
        }
        assert(target.restrict(Set::new(|i: usize| i < n)) =~= target);
        assert(self.progress.as_map() =~= spec_updated_progress(*old(self), *stats));
    }

    /// Marks an open quest complete when every objective is met; returns
    /// whether it was marked now.
    pub fn check_completion(&mut self) -> (newly_completed: bool)
        ensures
            newly_completed == spec_quest_completes(*old(self)),
            final(self).completed == (old(self).completed || newly_completed),
            final(self).quest == old(self).quest,
            final(self).progress == old(self).progress,
            final(self).start_time == old(self).start_time,
    {
        if self.completed {
            return false;
        }
        let n = self.quest.objectives.len();
        let mut idx: usize = 0;
        while idx < n
            invariant
                n == self.quest.objectives@.len(),
                idx <= n,
                forall|i: int| 0 <= i < idx ==>
                    spec_objective_done(#[trigger] self.quest.objectives@[i], count_or_zero(self.progress.as_map(), i as usize)),
            decreases n - idx,
        {
            let progress = match self.progress.get(&idx) {
                Some(p) => *p,
                None => 0,
            };
            if !objective_done(&self.quest.objectives[idx], progress) {
                return false;
            }
            idx = idx + 1;
        }
        self.completed = true;
        true
    }
}

/// `after` is `before` after one progress pass: each quest's progress is
/// recomputed from the statistics, and its definition, completion and
/// start time stay as they were.
pub open spec fn updated_list(before: Seq<ActiveQuest>, after: Seq<ActiveQuest>, stats: GameProgress) -> bool {
    &&& after.len() == before.len()
    &&& forall|i: int| 0 <= i < before.len() ==> {
        &&& (#[trigger] after[i]).progress.as_map() == spec_updated_progress(before[i], stats)
        &&& after[i].quest == before[i].quest
        &&& after[i].completed == before[i].completed
        &&& after[i].start_time == before[i].start_time
    }
}

/// `after` is `before` after one completion pass: a quest whose objectives
/// are all met is marked complete, and each quest's definition, progress
/// and start time stay as they were.
pub open spec fn checked_list(before: Seq<ActiveQuest>, after: Seq<ActiveQuest>) -> bool {
    &&& after.len() == before.len()
    &&& forall|i: int| 0 <= i < before.len() ==> {
        &&& (#[trigger] after[i]).completed == (before[i].completed || spec_quest_completes(before[i]))
        &&& after[i].quest == before[i].quest
        &&& after[i].progress == before[i].progress
        &&& after[i].start_time == before[i].start_time
    }
}

/// The ids of the quests of `list` that a completion pass completes, in order.
pub open spec fn completing_ids(list: Seq<ActiveQuest>) -> Seq<Seq<char>> {
    list.filter(|q: ActiveQuest| spec_quest_completes(q)).map_values(|q: ActiveQuest| q.quest.id@)
}

/// One progress pass over a list of quests.
pub fn update_quest_list(list: &mut Vec<ActiveQuest>, stats: &GameProgress)
    ensures
        updated_list(old(list)@, final(list)@, *stats),
{
    let ghost orig = list@;
    let mut rest: Vec<ActiveQuest> = Vec::new();
    std::mem::swap(&mut rest, list);
    let mut done: Vec<ActiveQuest> = Vec::new();
    while rest.len() > 0
        invariant
            done@.len() + rest@.len() == orig.len(),
            rest@ == orig.skip(done@.len() as int),
            forall|i: int| 0 <= i < done@.len() ==> {
                &&& (#[trigger] done@[i]).progress.as_map() == spec_updated_progress(orig[i], *stats)
                &&& done@[i].quest == orig[i].quest
                &&& done@[i].completed == orig[i].completed
                &&& done@[i].start_time == orig[i].start_time
            },
        decreases rest@.len(),
    {
        let ghost k = done@.len() as int;
        let mut q = rest.remove(0);
        assert(rest@ =~= orig.skip(k + 1));
        assert(q == orig[k]);
        q.update_progress(stats);
        let ghost before = done@;
        done.push(q);
        assert(forall|i: int| 0 <= i < k ==> done@[i] == before[i]);
    }
    *list = done;
}

/// One completion pass over a list of quests; returns the ids of the quests
/// completed now, in list order.
pub fn check_quest_list(list: &mut Vec<ActiveQuest>) -> (ids: Vec<String>)
    ensures
        checked_list(old(list)@, final(list)@),
        id_views(ids@) == completing_ids(old(list)@),
{
    let ghost orig = list@;
    let ghost pred = |q: ActiveQuest| spec_quest_completes(q);
    let ghost idf = |q: ActiveQuest| q.quest.id@;
    let mut rest: Vec<ActiveQuest> = Vec::new();
    std::mem::swap(&mut rest, list);
    let mut done: Vec<ActiveQuest> = Vec::new();
    let mut ids: Vec<String> = Vec::new();
    while rest.len() > 0
        invariant
            done@.len() + rest@.len() == orig.len(),
            rest@ == orig.skip(done@.len() as int),
            pred == (|q: ActiveQuest| spec_quest_completes(q)),
            idf == (|q: ActiveQuest| q.quest.id@),
            forall|i: int| 0 <= i < done@.len() ==> {
                &&& (#[trigger] done@[i]).completed == (orig[i].completed || spec_quest_completes(orig[i]))
                &&& done@[i].quest == orig[i].quest
                &&& done@[i].progress == orig[i].progress
                &&& done@[i].start_time == orig[i].start_time
            },
            id_views(ids@) == orig.take(done@.len() as int).filter(pred).map_values(idf),
        decreases rest@.len(),
    {
        let ghost k = done@.len() as int;
        let mut q = rest.remove(0);
        assert(rest@ =~= orig.skip(k + 1));
        assert(q == orig[k]);
        let ghost before = ids@;
        if q.check_completion() {
            ids.push(clone_string(&q.quest.id));
        }
        proof {
            reveal_with_fuel(Seq::<_>::filter, 1);
            assert(orig.take(k + 1).drop_last() =~= orig.take(k));
            assert(orig.take(k + 1).last() == orig[k]);
            if pred(orig[k]) {
                assert(orig.take(k + 1).filter(pred) == orig.take(k).filter(pred).push(orig[k]));
                assert(orig.take(k + 1).filter(pred).map_values(idf) =~= orig.take(k).filter(pred).map_values(idf).push(
                    orig[k].quest.id@,
                ));
                assert(id_views(ids@) =~= id_views(before).push(orig[k].quest.id@));
            } else {
                assert(orig.take(k + 1).filter(pred) == orig.take(k).filter(pred));
            }
        }
        let ghost before_done = done@;
        done.push(q);
        assert(forall|i: int| 0 <= i < k ==> done@[i] == before_done[i]);
    }
    proof {
        lemma_full_prefix(orig);
    }
    *list = done;
    ids
}

/// One progress pass over all quests: daily, wave challenges, story.
pub fn update_quest_progress(active: &mut ActiveQuests, stats: &GameProgress)
    ensures
        updated_list(old(active).daily_quests@, final(active).daily_quests@, *stats),
        updated_list(old(active).wave_challenges@, final(active).wave_challenges@, *stats),
        updated_list(old(active).story_quests@, final(active).story_quests@, *stats),
        final(active).completed_quests.as_map() == old(active).completed_quests.as_map(),
{
    update_quest_list(&mut active.daily_quests, stats);
    update_quest_list(&mut active.wave_challenges, stats);
    update_quest_list(&mut active.story_quests, stats);
}

/// One completion pass over all quests; returns the ids completed now:
/// daily quests first, then wave challenges, then story quests.
pub fn check_quest_completion(active: &mut ActiveQuests) -> (ids: Vec<String>)
    ensures
        id_views(ids@) == completing_ids(old(active).daily_quests@) + completing_ids(old(active).wave_challenges@)
            + completing_ids(old(active).story_quests@),
        checked_list(old(active).daily_quests@, final(active).daily_quests@),
        checked_list(old(active).wave_challenges@, final(active).wave_challenges@),
        checked_list(old(active).story_quests@, final(active).story_quests@),
        final(active).completed_quests.as_map() == old(active).completed_quests.as_map(),
{
    let mut ids = check_quest_list(&mut active.daily_quests);
    let mut wave = check_quest_list(&mut active.wave_challenges);
    let mut story = check_quest_list(&mut active.story_quests);
    let ghost a = ids@;
    let ghost b = wave@;
    let ghost c = story@;
    ids.append(&mut wave);
    ids.append(&mut story);
    assert(id_views(ids@) =~= id_views(a) + id_views(b) + id_views(c));
    ids
}


/// The shop currency that a quest reward pays in.
pub open spec fn spec_shop_currency(ct: CurrencyType) -> shop::CurrencyType {
    match ct {
        CurrencyType::Coins => shop::CurrencyType::Coins,
        CurrencyType::Gems => shop::CurrencyType::Gems,
        CurrencyType::SoulShards => shop::CurrencyType::SoulShards,
    }
}

fn shop_currency(ct: CurrencyType) -> (s: shop::CurrencyType)
    ensures
        s == spec_shop_currency(ct),
{
    match ct {
        CurrencyType::Coins => shop::CurrencyType::Coins,
        CurrencyType::Gems => shop::CurrencyType::Gems,
        CurrencyType::SoulShards => shop::CurrencyType::SoulShards,
    }
}

/// The wallet after paying the rewards in order.
pub open spec fn spec_pay_rewards(c: PlayerCurrency, rewards: Seq<(CurrencyType, u32)>) -> PlayerCurrency
    decreases rewards.len(),
{
    if rewards.len() == 0 {
        c
    } else {
        spec_pay_rewards(c, rewards.drop_last()).spec_credit(spec_shop_currency(rewards.last().0), rewards.last().1)
    }
}

/// Paying the rewards in order never overflows a balance.
pub open spec fn spec_rewards_fit(c: PlayerCurrency, rewards: Seq<(CurrencyType, u32)>) -> bool
    decreases rewards.len(),
{
    if rewards.len() == 0 {
        true
    } else {
        &&& spec_rewards_fit(c, rewards.drop_last())
        &&& spec_pay_rewards(c, rewards.drop_last()).spec_balance(spec_shop_currency(rewards.last().0))
            + rewards.last().1 <= u32::MAX
    }
}

proof fn lemma_rewards_fit_prefix(c: PlayerCurrency, rewards: Seq<(CurrencyType, u32)>, n: int)
    requires
        0 <= n <= rewards.len(),
        spec_rewards_fit(c, rewards),
    ensures
        spec_rewards_fit(c, rewards.take(n)),
    decreases rewards.len() - n,
{
    if n < rewards.len() {
        lemma_rewards_fit_prefix(c, rewards, n + 1);
        assert(rewards.take(n + 1).drop_last() =~= rewards.take(n));
    } else {
        assert(rewards.take(n) =~= rewards);
    }
}

/// Pays the currency rewards of completed quest `quest_id` and counts the
/// completion. Returns whether the quest is known; an unknown id changes
/// nothing.
pub fn handle_quest_rewards(
    manager: &QuestManager,
    currency: &mut PlayerCurrency,
    active: &mut ActiveQuests,
    quest_id: &String,
) -> (found: bool)
    requires
        manager.available_quests.as_map().contains_key(quest_id@) ==> {
            &&& spec_rewards_fit(*old(currency), manager.available_quests.as_map()[quest_id@].rewards.currency@)
            &&& count_or_zero(old(active).completed_quests.as_map(), quest_id@) < u32::MAX
        },
    ensures
        found == manager.available_quests.as_map().contains_key(quest_id@),
        found ==> *final(currency) == spec_pay_rewards(*old(currency), manager.available_quests.as_map()[quest_id@].rewards.currency@),
        found ==> final(active).completed_quests.as_map() == old(active).completed_quests.as_map().insert(
            quest_id@,
            (count_or_zero(old(active).completed_quests.as_map(), quest_id@) + 1) as u32,
        ),
        !found ==> *final(currency) == *old(currency)
            && final(active).completed_quests.as_map() == old(active).completed_quests.as_map(),
        final(active).daily_quests == old(active).daily_quests,
        final(active).wave_challenges == old(active).wave_challenges,
        final(active).story_quests == old(active).story_quests,
{
    let quest = match manager.available_quests.get(quest_id) {
        Some(q) => q,
        None => return false,
    };
    let rewards = &quest.rewards.currency;
    let ghost start = *currency;
    let mut i: usize = 0;
    while i < rewards.len()
        invariant
            i <= rewards@.len(),
            spec_rewards_fit(start, rewards@),
            *currency == spec_pay_rewards(start, rewards@.take(i as int)),
        decreases rewards@.len() - i,
    {
        proof {
            lemma_rewards_fit_prefix(start, rewards@, i as int + 1);
            assert(rewards@.take(i as int + 1).drop_last() =~= rewards@.take(i as int));
        }
        let (ct, amount) = rewards[i];
        currency.credit(shop_currency(ct), amount);
        i = i + 1;
    }
    assert(rewards@.take(i as int) =~= rewards@);
    let count = match active.completed_quests.get(quest_id) {
        Some(c) => *c,
        None => 0,
    };
    active.completed_quests.insert(clone_string(quest_id), count + 1);
    true
}

/// A completion pass leaves nothing for a second pass to do: right after a
/// pass no quest completes, so a second pass with no progress in between
/// completes no quest, names none, and leaves every quest as it was.
pub proof fn lemma_second_pass_changes_nothing(before: Seq<ActiveQuest>, once: Seq<ActiveQuest>, twice: Seq<ActiveQuest>)
    requires
        checked_list(before, once),
        checked_list(once, twice),
    ensures
        forall|i: int| 0 <= i < once.len() ==> !spec_quest_completes(#[trigger] once[i]),
        completing_ids(once) == Seq::<Seq<char>>::empty(),
        twice == once,
{
    assert forall|i: int| 0 <= i < once.len() implies !spec_quest_completes(#[trigger] once[i]) by {
        assert(once[i].quest == before[i].quest);
        assert(once[i].progress == before[i].progress);
    }
    lemma_none_complete(once);
    assert forall|i: int| 0 <= i < once.len() implies twice[i] == once[i] by {
        assert(!spec_quest_completes(once[i]));
    }
    assert(twice =~= once);
}

/// A list in which no quest completes has no completing ids.
proof fn lemma_none_complete(list: Seq<ActiveQuest>)
    requires
        forall|i: int| 0 <= i < list.len() ==> !spec_quest_completes(#[trigger] list[i]),
    ensures
        list.filter(|q: ActiveQuest| spec_quest_completes(q)).len() == 0,
        completing_ids(list) == Seq::<Seq<char>>::empty(),
    decreases list.len(),
{
    reveal_with_fuel(Seq::<_>::filter, 1);
    if list.len() > 0 {
        assert forall|i: int| 0 <= i < list.drop_last().len() implies !spec_quest_completes(#[trigger] list.drop_last()[i]) by {
            assert(list.drop_last()[i] == list[i]);
        }
        lemma_none_complete(list.drop_last());
        assert(!spec_quest_completes(list[list.len() - 1]));
    }
    assert(completing_ids(list) =~= Seq::<Seq<char>>::empty());
}

/// A quest once completed stays completed: a progress pass keeps the flag
/// and a completion pass only sets it.
pub proof fn lemma_completion_is_permanent(q: ActiveQuest, stats: GameProgress)
    requires
        q.completed,
    ensures
        !spec_quest_completes(q),
        spec_updated_progress(q, stats) == q.progress.as_map(),
{
}

/// The progress recorded for a counted objective never exceeds its target.
pub proof fn lemma_objective_progress_capped(obj: QuestObjective, stats: GameProgress, current: u32)
    ensures
        obj matches QuestObjective::KillEnemies(_, t) ==> spec_objective_progress(obj, stats, current) <= t,
        obj matches QuestObjective::ReachWave(t) ==> spec_objective_progress(obj, stats, current) <= t,
        obj matches QuestObjective::ReachCombo(t) ==> spec_objective_progress(obj, stats, current) <= t,
{
}

/// After a progress pass every counted objective is met exactly when its
/// statistic has reached the target.
pub proof fn lemma_progress_then_done(obj: QuestObjective, stats: GameProgress, current: u32)
    ensures
        obj matches QuestObjective::KillEnemies(_, t) ==>
            (spec_objective_done(obj, spec_objective_progress(obj, stats, current)) <==> stats.enemies_killed >= t),
        obj matches QuestObjective::ReachWave(t) ==>
            (spec_objective_done(obj, spec_objective_progress(obj, stats, current)) <==> stats.current_wave >= t),
        obj matches QuestObjective::ReachCombo(t) ==>
            (spec_objective_done(obj, spec_objective_progress(obj, stats, current)) <==> stats.max_combo >= t),
{
}


/// Whether quest `q` has these fields.
pub open spec fn quest_is(
    q: Quest,
    id: Seq<char>,
    name: Seq<char>,
    description: Seq<char>,
    quest_type: QuestType,
    experience: u32,
    rewards: Seq<(CurrencyType, u32)>,
    time_limit: Option<u32>,
    repeatable: bool,
) -> bool {
    &&& q.id@ == id
    &&& q.name@ == name
    &&& q.description@ == description
    &&& q.quest_type == quest_type
    &&& q.rewards.experience == experience
    &&& q.rewards.currency@ == rewards
    &&& q.time_limit == time_limit
    &&& q.repeatable == repeatable
}

/// The views of a list of item names.
pub open spec fn item_views(items: Vec<String>) -> Seq<Seq<char>> {
    id_views(items@)
}

/// The view of an optional unlock.
pub open spec fn unlock_view(u: Option<String>) -> Option<Seq<char>> {
    match u {
        Some(s) => Some(s@),
        None => None,
    }
}

fn make_quest(
    id: &str,
    name: &str,
    description: &str,
    quest_type: QuestType,
    objectives: Vec<QuestObjective>,
    experience: u32,
    currency: Vec<(CurrencyType, u32)>,
    items: Vec<String>,
    unlock: Option<String>,
    time_limit: Option<u32>,
    repeatable: bool,
) -> (q: Quest)
    ensures
        quest_is(q, id@, name@, description@, quest_type, experience, currency@, time_limit, repeatable),
        q.objectives == objectives,
        q.rewards.items == items,
        q.rewards.unlock == unlock,
{
    Quest {
        id: owned(id),
        name: owned(name),
        description: owned(description),
        quest_type,
        objectives,
        rewards: QuestRewards { experience, currency, items, unlock },
        time_limit,
        repeatable,
    }
}

fn one_reward(ct: CurrencyType, amount: u32) -> (v: Vec<(CurrencyType, u32)>)
    ensures
        v@ == seq![(ct, amount)],
{
    let mut v = Vec::new();
    v.push((ct, amount));
    assert(v@ =~= seq![(ct, amount)]);
    v
}

fn one_name(name: &str) -> (v: Vec<String>)
    ensures
        v@.len() == 1,
        v@[0]@ == name@,
{
    let mut v = Vec::new();
    v.push(owned(name));
    v
}

/// Defines the daily quest pool (slay 50 enemies, collect 100 coins, reach
/// wave 10; each repeatable within a day) and the flawless wave 5 boss
/// challenge, adding their ids to the daily pool and to wave 5's challenges.
pub fn initialize_quests(manager: &mut QuestManager)
    ensures
        final(manager).available_quests.as_map().dom() == old(manager).available_quests.as_map().dom()
            + set!["daily_slayer"@, "daily_collector"@, "daily_survivor"@, "wave_5_flawless"@],
        id_views(final(manager).daily_quest_pool@) == id_views(old(manager).daily_quest_pool@)
            + seq!["daily_slayer"@, "daily_collector"@, "daily_survivor"@],
        final(manager).wave_challenges.as_map().dom() == old(manager).wave_challenges.as_map().dom().insert(5),
        id_views(final(manager).wave_challenges.as_map()[5u32]@) == (if old(manager).wave_challenges.as_map().contains_key(5) {
            id_views(old(manager).wave_challenges.as_map()[5u32]@)
        } else {
            Seq::<Seq<char>>::empty()
        }).push("wave_5_flawless"@),
        forall|w: u32| w != 5 && #[trigger] old(manager).wave_challenges.as_map().contains_key(w)
            ==> final(manager).wave_challenges.as_map()[w] == old(manager).wave_challenges.as_map()[w],
        ({
            let q = final(manager).available_quests.as_map()["daily_slayer"@];
            &&& quest_is(q, "daily_slayer"@, "Monster Slayer"@, "Defeat 50 enemies"@, QuestType::Daily, 100,
                seq![(CurrencyType::Coins, 200u32)], Some(86_400_000u32), true)
            &&& q.objectives@.len() == 1
            &&& (q.objectives@[0] matches QuestObjective::KillEnemies(kind, n) && kind@ == "any"@ && n == 50)
            &&& q.rewards.items@.len() == 0 && q.rewards.unlock is None
        }),
        ({
            let q = final(manager).available_quests.as_map()["daily_collector"@];
            &&& quest_is(q, "daily_collector"@, "Treasure Hunter"@, "Collect 100 coins"@, QuestType::Daily, 50,
                seq![(CurrencyType::Gems, 5u32)], Some(86_400_000u32), true)
            &&& q.objectives@.len() == 1
            &&& (q.objectives@[0] matches QuestObjective::CollectItems(kind, n) && kind@ == "coin"@ && n == 100)
            &&& q.rewards.items@.len() == 0 && q.rewards.unlock is None
        }),
        ({
            let q = final(manager).available_quests.as_map()["daily_survivor"@];
            &&& quest_is(q, "daily_survivor"@, "Survivor"@, "Reach wave 10 without dying"@, QuestType::Daily, 200,
                seq![(CurrencyType::Coins, 500u32)], Some(86_400_000u32), true)
            &&& q.objectives@.len() == 1
            &&& (q.objectives@[0] matches QuestObjective::ReachWave(n) && n == 10)
            &&& item_views(q.rewards.items) == seq!["health_potion"@] && q.rewards.unlock is None
        }),
        ({
            let q = final(manager).available_quests.as_map()["wave_5_flawless"@];
            &&& quest_is(q, "wave_5_flawless"@, "Flawless Victory"@, "Defeat the Wave 5 boss without taking damage"@,
                QuestType::Wave, 500, seq![(CurrencyType::Gems, 10u32)], None, false)
            &&& q.objectives@.len() == 2
            &&& (q.objectives@[0] matches QuestObjective::DefeatBossInTime(boss, limit)
                && boss@ == "goblin_king"@ && limit == 60_000)
            &&& q.objectives@[1] is CompleteWithoutDamage
            &&& item_views(q.rewards.items) == seq!["legendary_chest"@]
            &&& unlock_view(q.rewards.unlock) == Some("special_ability"@)
        }),
{
    proof {
        reveal_strlit("daily_slayer");
        reveal_strlit("daily_collector");
        reveal_strlit("daily_survivor");
        reveal_strlit("wave_5_flawless");
        assert("daily_slayer"@.len() == 12);
        assert("daily_collector"@.len() == 15);
        assert("daily_survivor"@.len() == 14);
        assert("wave_5_flawless"@.len() == 15);
        assert("daily_collector"@[6] != "wave_5_flawless"@[6]);
    }
    let mut o1 = Vec::new();
    o1.push(QuestObjective::KillEnemies(owned("any"), 50));
    let q1 = make_quest("daily_slayer", "Monster Slayer", "Defeat 50 enemies", QuestType::Daily, o1, 100,
        one_reward(CurrencyType::Coins, 200), Vec::new(), None, Some(86_400_000), true);
    let mut o2 = Vec::new();
    o2.push(QuestObjective::CollectItems(owned("coin"), 100));
    let q2 = make_quest("daily_collector", "Treasure Hunter", "Collect 100 coins", QuestType::Daily, o2, 50,
        one_reward(CurrencyType::Gems, 5), Vec::new(), None, Some(86_400_000), true);
    let mut o3 = Vec::new();
    o3.push(QuestObjective::ReachWave(10));
    let q3 = make_quest("daily_survivor", "Survivor", "Reach wave 10 without dying", QuestType::Daily, o3, 200,
        one_reward(CurrencyType::Coins, 500), one_name("health_potion"), None, Some(86_400_000), true);
    manager.available_quests.insert(owned("daily_slayer"), q1);
    manager.daily_quest_pool.push(owned("daily_slayer"));
    manager.available_quests.insert(owned("daily_collector"), q2);
    manager.daily_quest_pool.push(owned("daily_collector"));
    manager.available_quests.insert(owned("daily_survivor"), q3);
    manager.daily_quest_pool.push(owned("daily_survivor"));
    let mut o4 = Vec::new();
    o4.push(QuestObjective::DefeatBossInTime(owned("goblin_king"), 60_000));
    o4.push(QuestObjective::CompleteWithoutDamage);
    let q4 = make_quest("wave_5_flawless", "Flawless Victory", "Defeat the Wave 5 boss without taking damage",
        QuestType::Wave, o4, 500, one_reward(CurrencyType::Gems, 10), one_name("legendary_chest"),
        Some(owned("special_ability")), None, false);
    manager.available_quests.insert(owned("wave_5_flawless"), q4);
    let mut challenges: Vec<String> = match manager.wave_challenges.get(&5) {
        Some(list) => clone_names(list),
        None => Vec::new(),
    };
    let ghost before = challenges@;
    challenges.push(owned("wave_5_flawless"));
    assert(id_views(challenges@) =~= id_views(before).push("wave_5_flawless"@));
    manager.wave_challenges.insert(5, challenges);
    assert(manager.available_quests.as_map().dom() =~= old(manager).available_quests.as_map().dom()
        + set!["daily_slayer"@, "daily_collector"@, "daily_survivor"@, "wave_5_flawless"@]);
    assert(id_views(manager.daily_quest_pool@) =~= id_views(old(manager).daily_quest_pool@)
        + seq!["daily_slayer"@, "daily_collector"@, "daily_survivor"@]);
    assert(manager.wave_challenges.as_map().dom() =~= old(manager).wave_challenges.as_map().dom().insert(5));
}

/// A copy of a list of names.
pub fn clone_names(names: &Vec<String>) -> (copy: Vec<String>)
    ensures
        id_views(copy@) == id_views(names@),
{
    let mut copy: Vec<String> = Vec::new();
    let mut i: usize = 0;
    while i < names.len()
        invariant
            i <= names@.len(),
            id_views(copy@) == id_views(names@.take(i as int)),
        decreases names@.len() - i,
    {
        let ghost before = copy@;
        copy.push(clone_string(&names[i]));
        assert(id_views(copy@) =~= id_views(names@.take(i as int + 1))) by {
            assert(names@.take(i as int + 1) =~= names@.take(i as int).push(names@[i as int]));
            assert(id_views(copy@) =~= id_views(before).push(names@[i as int]@));
        }
        i = i + 1;
    }
    assert(names@.take(i as int) =~= names@);
    copy
}

/// A coin-collection objective follows the coins collected: after a
/// progress pass on an open quest its recorded progress is the coins
/// collected, capped at the target, and it is met exactly when at least the
/// target number of coins has been collected.
pub proof fn lemma_coin_objective_tracks_coins(q: ActiveQuest, stats: GameProgress, i: usize)
    requires
        !q.completed,
        i < q.quest.objectives@.len(),
        q.quest.objectives@[i as int] matches QuestObjective::CollectItems(item, _) && item@ == "coin"@,
    ensures
        ({
            let t = q.quest.objectives@[i as int]->CollectItems_1;
            let p = spec_updated_progress(q, stats)[i];
            &&& spec_updated_progress(q, stats).contains_key(i)
            &&& p == (if stats.coins_collected <= t { stats.coins_collected } else { t })
            &&& p <= stats.coins_collected
            &&& spec_objective_done(q.quest.objectives@[i as int], p) <==> stats.coins_collected >= t
        }),
{
}

} // verus!
