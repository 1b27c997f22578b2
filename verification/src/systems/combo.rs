//! Combo scoring: hits and kills chain into a combo whose size selects a tier,
//! and the tier sets the score multiplier and the end-of-combo coin bonus.
use vstd::prelude::*;
use crate::systems::shop::PlayerCurrency;

verus! {

/// Combo tiers, from no tier up to Diamond.
#[derive(Clone, Copy, PartialEq, Eq, Structural, Debug)]
pub enum ComboTier {
    NoTier,
    /// 10 or more.
    Bronze,
    /// 25 or more.
    Silver,
    /// 50 or more.
    Gold,
    /// 100 or more.
    Platinum,
    /// 200 or more.
    Diamond,
}

/// The tier that a combo of `combo` hits reaches.
pub open spec fn spec_tier_for(combo: u32) -> ComboTier {
    if combo <= 9 {
        ComboTier::NoTier
    } else if combo <= 24 {
        ComboTier::Bronze
    } else if combo <= 49 {
        ComboTier::Silver
    } else if combo <= 99 {
        ComboTier::Gold
    } else if combo <= 199 {
        ComboTier::Platinum
    } else {
        ComboTier::Diamond
    }
}

impl ComboTier {
    /// Position of the tier in the order None < Bronze < ... < Diamond.
    pub open spec fn rank(self) -> nat {
        match self {
            ComboTier::NoTier => 0,
            ComboTier::Bronze => 1,
            ComboTier::Silver => 2,
            ComboTier::Gold => 3,
            ComboTier::Platinum => 4,
            ComboTier::Diamond => 5,
        }
    }

    /// The tier's score multiplier in thousandths (1.25x is 1250).
    pub open spec fn spec_multiplier(self) -> u32 {
        match self {
            ComboTier::NoTier => 1000,
            ComboTier::Bronze => 1250,
            ComboTier::Silver => 1500,
            ComboTier::Gold => 2000,
            ComboTier::Platinum => 3000,
            ComboTier::Diamond => 5000,
        }
    }

    /// The coins awarded when a combo that peaked at this tier ends.
    pub open spec fn spec_coin_bonus(self) -> u32 {
        match self {
            ComboTier::NoTier => 0,
            ComboTier::Bronze => 10,
            ComboTier::Silver => 25,
            ComboTier::Gold => 50,
            ComboTier::Platinum => 100,
            ComboTier::Diamond => 250,
        }
    }

    /// The tier reached by a combo of the given size.
    pub fn from_combo(combo: u32) -> (tier: ComboTier)
        ensures
            tier == spec_tier_for(combo),
    {
        if combo <= 9 {
            ComboTier::NoTier
        } else if combo <= 24 {
            ComboTier::Bronze
        } else if combo <= 49 {
            ComboTier::Silver
        } else if combo <= 99 {
            ComboTier::Gold
        } else if combo <= 199 {
            ComboTier::Platinum
        } else {
            ComboTier::Diamond
        }
    }

    /// The tier's score multiplier, in thousandths.
    pub fn multiplier(&self) -> (m: u32)
        ensures
            m == self.spec_multiplier(),
    {
        match self {
            ComboTier::NoTier => 1000,
            ComboTier::Bronze => 1250,
            ComboTier::Silver => 1500,
            ComboTier::Gold => 2000,
            ComboTier::Platinum => 3000,
            ComboTier::Diamond => 5000,
        }
    }
}

/// Something that happened to the combo.
pub enum ComboEvent {
    Hit,
    Kill,
    /// A special kill (headshot, multi-kill, ...), named.
    SpecialKill(String),
    Reset,
}

/// How much an event adds to the running combo (a reset sets it to zero instead).
pub open spec fn spec_event_gain(event: ComboEvent) -> u32 {
    match event {
        ComboEvent::Hit => 1,
        ComboEvent::Kill => 2,
        ComboEvent::SpecialKill(_) => 5,
        ComboEvent::Reset => 0,
    }
}

/// The combo size right after `event`.
pub open spec fn spec_combo_after(current: u32, event: ComboEvent) -> int {
    match event {
        ComboEvent::Reset => 0,
        _ => current + spec_event_gain(event),
    }
}

/// The combo state. The expiry timer itself belongs to the engine; it tells
/// [`ComboTracker::expire`] when it has run out.
#[derive(Debug)]
pub struct ComboTracker {
    pub current_combo: u32,
    pub max_combo: u32,
    /// The current score multiplier, in thousandths.
    pub combo_multiplier: u32,
    pub total_combo_points: u64,
    pub combo_tier: ComboTier,
}

/// What handling one combo event asks of the engine.
#[derive(Clone, Copy, PartialEq, Eq, Structural, Debug)]
pub struct ComboStep {
    /// The expiry timer starts over.
    pub restart_timer: bool,
    /// The tier changed (feedback is due).
    pub tier_changed: bool,
}

impl ComboTracker {
    /// The tracker is consistent: the tier is the one the current combo
    /// reaches, the multiplier is the tier's, and the best combo is at least
    /// the current one.
    pub open spec fn wf(&self) -> bool {
        &&& self.combo_tier == spec_tier_for(self.current_combo)
        &&& self.combo_multiplier == self.combo_tier.spec_multiplier()
        &&& self.max_combo >= self.current_combo
    }

    /// The tracker after `event`.
    pub open spec fn spec_after(self, event: ComboEvent) -> ComboTracker {
        let current = spec_combo_after(self.current_combo, event) as u32;
        let max = if current > self.max_combo { current } else { self.max_combo };
        let tier = spec_tier_for(current);
        let multiplier = if tier != self.combo_tier { tier.spec_multiplier() } else { self.combo_multiplier };
        ComboTracker {
            current_combo: current,
            max_combo: max,
            combo_multiplier: multiplier,
            total_combo_points: (self.total_combo_points + current * (multiplier / 1000)) as u64,
            combo_tier: tier,
        }
    }

    /// Handling `event` stays within the integer ranges.
    pub open spec fn can_take(self, event: ComboEvent) -> bool {
        let current = spec_combo_after(self.current_combo, event);
        let multiplier = if spec_tier_for(current as u32) != self.combo_tier {
            spec_tier_for(current as u32).spec_multiplier()
        } else {
            self.combo_multiplier
        };
        &&& current <= u32::MAX
        &&& self.total_combo_points + current * (multiplier / 1000) <= u64::MAX
    }

    /// A fresh tracker: no combo, no tier, 1x multiplier.
    pub fn new() -> (t: ComboTracker)
        ensures
            t.wf(),
            t.current_combo == 0,
            t.max_combo == 0,
            t.combo_multiplier == 1000,
            t.total_combo_points == 0,
            t.combo_tier == ComboTier::NoTier,
    {
        ComboTracker {
            current_combo: 0,
            max_combo: 0,
            combo_multiplier: 1000,
            total_combo_points: 0,
            combo_tier: ComboTier::NoTier,
        }
    }

    /// Applies one combo event: hits add 1, kills 2, special kills 5, a reset
    /// clears the combo. The best combo, tier, multiplier and points follow;
    /// points grow by the new combo times the whole part of the multiplier.
    pub fn handle_event(&mut self, event: &ComboEvent) -> (step: ComboStep)
        requires
            old(self).can_take(*event),
        ensures
            *final(self) == old(self).spec_after(*event),
            step.restart_timer == !(*event is Reset),
            step.tier_changed == (final(self).combo_tier != old(self).combo_tier),
    {
        let restart_timer = match event {
            ComboEvent::Hit => {
                self.current_combo = self.current_combo + 1;
                true
            },
            ComboEvent::Kill => {
                self.current_combo = self.current_combo + 2;
                true
            },
            ComboEvent::SpecialKill(_) => {
                self.current_combo = self.current_combo + 5;
                true
            },
            ComboEvent::Reset => {
                self.current_combo = 0;
                false
            },
        };
        if self.current_combo > self.max_combo {
            self.max_combo = self.current_combo;
        }
        let new_tier = ComboTier::from_combo(self.current_combo);
        let tier_changed = new_tier != self.combo_tier;
        if tier_changed {
            self.combo_tier = new_tier;
            self.combo_multiplier = new_tier.multiplier();
        }
        let whole = (self.combo_multiplier / 1000) as u64;
        self.total_combo_points = self.total_combo_points + (self.current_combo as u64) * whole;
        ComboStep { restart_timer, tier_changed }
    }

    /// Whether `event` can be handled without overflow.
    pub fn can_take_event(&self, event: &ComboEvent) -> (ok: bool)
        ensures
            ok == self.can_take(*event),
    {
        let next: u64 = match event {
            ComboEvent::Reset => 0,
            ComboEvent::Hit => self.current_combo as u64 + 1,
            ComboEvent::Kill => self.current_combo as u64 + 2,
            ComboEvent::SpecialKill(_) => self.current_combo as u64 + 5,
        };
        if next > u32::MAX as u64 {
            return false;
        }
        let tier = ComboTier::from_combo(next as u32);
        let multiplier = if tier != self.combo_tier { tier.multiplier() } else { self.combo_multiplier };
        let whole: u64 = (multiplier / 1000) as u64;
        assert(next * whole <= u64::MAX) by (nonlinear_arith)
            requires
                next <= u32::MAX,
                whole <= u32::MAX,
        ;
        let gain: u64 = next * whole;
        self.total_combo_points <= u64::MAX - gain
    }

    /// A copy of the tracker.
    fn snapshot(&self) -> (c: ComboTracker)
        ensures
            c == *self,
    {
        ComboTracker {
            current_combo: self.current_combo,
            max_combo: self.max_combo,
            combo_multiplier: self.combo_multiplier,
            total_combo_points: self.total_combo_points,
            combo_tier: self.combo_tier,
        }
    }

    /// Whether all of `events` can be handled in turn without overflow.
    pub fn can_take_events(&self, events: &Vec<ComboEvent>) -> (ok: bool)
        ensures
            ok == can_take_all(*self, events@),
    {
        let mut sim = self.snapshot();
        let mut i: usize = 0;
        while i < events.len()
            invariant
                i <= events@.len(),
                can_take_all(*self, events@.take(i as int)),
                sim == spec_after_all(*self, events@.take(i as int)),
            decreases events@.len() - i,
        {
            assert(events@.take(i as int + 1).drop_last() =~= events@.take(i as int));
            assert(events@.take(i as int + 1).last() == events@[i as int]);
            if !sim.can_take_event(&events[i]) {
                proof {
                    if can_take_all(*self, events@) {
                        lemma_can_take_prefix(*self, events@, i as int + 1);
                    }
                }
                return false;
            }
            sim.handle_event(&events[i]);
            i = i + 1;
        }
        assert(events@.take(i as int) =~= events@);
        true
    }

    /// Handles `events` in order (see [`ComboTracker::handle_event`]). The
    /// expiry timer starts over when any event other than a reset came, and
    /// feedback is due when any event changed the tier.
    pub fn handle_combo_events(&mut self, events: &Vec<ComboEvent>) -> (step: ComboStep)
        requires
            can_take_all(*old(self), events@),
        ensures
            *final(self) == spec_after_all(*old(self), events@),
            step.restart_timer == any_restart(events@),
            step.tier_changed == any_tier_change(*old(self), events@),
    {
        let ghost start = *self;
        let mut restart = false;
        let mut changed = false;
        let mut i: usize = 0;
        while i < events.len()
            invariant
                i <= events@.len(),
                can_take_all(start, events@),
                *self == spec_after_all(start, events@.take(i as int)),
                restart == any_restart(events@.take(i as int)),
                changed == any_tier_change(start, events@.take(i as int)),
            decreases events@.len() - i,
        {
            let ghost pre = events@.take(i as int);
            let ghost post = events@.take(i as int + 1);
            assert(post.drop_last() =~= pre);
            assert(post.last() == events@[i as int]);
            proof {
                lemma_can_take_prefix(start, events@, i as int + 1);
            }
            let step = self.handle_event(&events[i]);
            proof {
                if step.restart_timer {
                    assert(post[i as int] == events@[i as int]);
                }
                if restart {
                    let j = choose|j: int| 0 <= j < pre.len() && !(#[trigger] pre[j] is Reset);
                    assert(post[j] == pre[j]);
                }
                if any_restart(post) {
                    let j = choose|j: int| 0 <= j < post.len() && !(#[trigger] post[j] is Reset);
                    if j < i {
                        assert(pre[j] == post[j]);
                    }
                }
            }
            restart = restart || step.restart_timer;
            changed = changed || step.tier_changed;
            i = i + 1;
        }
        assert(events@.take(i as int) =~= events@);
        ComboStep { restart_timer: restart, tier_changed: changed }
    }

    /// The expiry timer reported `timer_finished`: a finished timer ends a
    /// running combo (combo, tier and multiplier go back to none); otherwise
    /// nothing changes.
    pub fn expire(&mut self, timer_finished: bool)
        ensures
            timer_finished && old(self).current_combo > 0 ==> {
                &&& final(self).current_combo == 0
                &&& final(self).combo_tier == ComboTier::NoTier
                &&& final(self).combo_multiplier == 1000
                &&& final(self).max_combo == old(self).max_combo
                &&& final(self).total_combo_points == old(self).total_combo_points
            },
            !(timer_finished && old(self).current_combo > 0) ==> *final(self) == *old(self),
    {
        if timer_finished && self.current_combo > 0 {
            self.current_combo = 0;
            self.combo_tier = ComboTier::NoTier;
            self.combo_multiplier = 1000;
        }
    }
}

impl Default for ComboTracker {
    fn default() -> (t: ComboTracker)
        ensures
            t.wf(),
            t.current_combo == 0,
            t.max_combo == 0,
            t.combo_multiplier == 1000,
            t.total_combo_points == 0,
            t.combo_tier == ComboTier::NoTier,
    {
        ComboTracker::new()
    }
}

/// The coin bonus due once a combo is over, by the tier its best reached.
pub fn combo_coin_bonus(max_combo: u32) -> (bonus: u32)
    ensures
        bonus == spec_tier_for(max_combo).spec_coin_bonus(),
{
    match ComboTier::from_combo(max_combo) {
        ComboTier::Bronze => 10,
        ComboTier::Silver => 25,
        ComboTier::Gold => 50,
        ComboTier::Platinum => 100,
        ComboTier::Diamond => 250,
        _ => 0,
    }
}

/// When no combo is running but one was reached, pays the coin bonus of the
/// best combo's tier; returns the coins paid.
pub fn trigger_combo_rewards(combo: &ComboTracker, currency: &mut PlayerCurrency) -> (paid: u32)
    requires
        combo.current_combo == 0 && combo.max_combo > 0 ==>
            old(currency).coins + spec_tier_for(combo.max_combo).spec_coin_bonus() <= u32::MAX,
    ensures
        paid == (if combo.current_combo == 0 && combo.max_combo > 0 {
            spec_tier_for(combo.max_combo).spec_coin_bonus()
        } else {
            0
        }),
        final(currency).coins == old(currency).coins + paid,
        final(currency).gems == old(currency).gems,
        final(currency).soul_shards == old(currency).soul_shards,
{
    if combo.current_combo == 0 && combo.max_combo > 0 {
        let bonus = combo_coin_bonus(combo.max_combo);
        if bonus > 0 {
            currency.coins = currency.coins + bonus;
        }
        bonus
    } else {
        0
    }
}

/// The tracker after `events`, handled one after another.
pub open spec fn spec_after_all(t: ComboTracker, events: Seq<ComboEvent>) -> ComboTracker
    decreases events.len(),
{
    if events.len() == 0 {
        t
    } else {
        spec_after_all(t, events.drop_last()).spec_after(events.last())
    }
}

/// Every event of `events` can be handled in turn without overflow.
pub open spec fn can_take_all(t: ComboTracker, events: Seq<ComboEvent>) -> bool
    decreases events.len(),
{
    if events.len() == 0 {
        true
    } else {
        can_take_all(t, events.drop_last()) && spec_after_all(t, events.drop_last()).can_take(events.last())
    }
}

/// The combo after `events` from `current`: a reset clears it, and each
/// other event adds its gain.
pub open spec fn spec_combo_after_all(current: u32, events: Seq<ComboEvent>) -> int
    decreases events.len(),
{
    if events.len() == 0 {
        current as int
    } else {
        let c = spec_combo_after_all(current, events.drop_last());
        match events.last() {
            ComboEvent::Reset => 0,
            e => c + spec_event_gain(e),
        }
    }
}

/// The highest combo reached after any one of `events` (0 for none).
pub open spec fn spec_peak(current: u32, events: Seq<ComboEvent>) -> int
    decreases events.len(),
{
    if events.len() == 0 {
        0
    } else {
        let p = spec_peak(current, events.drop_last());
        let c = spec_combo_after_all(current, events);
        if c > p { c } else { p }
    }
}

/// Some event of `events` other than a reset occurs.
pub open spec fn any_restart(events: Seq<ComboEvent>) -> bool {
    exists|i: int| 0 <= i < events.len() && !(#[trigger] events[i] is Reset)
}

/// Some event of `events` changes the tier.
pub open spec fn any_tier_change(t: ComboTracker, events: Seq<ComboEvent>) -> bool
    decreases events.len(),
{
    if events.len() == 0 {
        false
    } else {
        any_tier_change(t, events.drop_last())
            || spec_after_all(t, events).combo_tier != spec_after_all(t, events.drop_last()).combo_tier
    }
}

/// Events that can be handled in turn can also be handled in turn up to
/// any point.
pub proof fn lemma_can_take_prefix(t: ComboTracker, events: Seq<ComboEvent>, k: int)
    requires
        can_take_all(t, events),
        0 <= k <= events.len(),
    ensures
        can_take_all(t, events.take(k)),
    decreases events.len(),
{
    if k == events.len() {
        assert(events.take(k) =~= events);
    } else {
        lemma_can_take_prefix(t, events.drop_last(), k);
        assert(events.drop_last().take(k) =~= events.take(k));
    }
}

/// Handling a list of events keeps the tracker consistent. The combo is
/// the one the events build (0 after the last reset, plus 1 per hit, 2 per
/// kill and 5 per special kill after it), the best combo is the larger of
/// the old best and every combo reached on the way, and the points total
/// never goes down.
pub proof fn lemma_events_keep_invariant(t: ComboTracker, events: Seq<ComboEvent>)
    requires
        t.wf(),
        can_take_all(t, events),
    ensures
        spec_after_all(t, events).wf(),
        spec_after_all(t, events).current_combo == spec_combo_after_all(t.current_combo, events),
        spec_after_all(t, events).max_combo == (if spec_peak(t.current_combo, events) > t.max_combo {
            spec_peak(t.current_combo, events)
        } else {
            t.max_combo as int
        }),
        spec_after_all(t, events).total_combo_points >= t.total_combo_points,
    decreases events.len(),
{
    if events.len() > 0 {
        let rest = events.drop_last();
        lemma_events_keep_invariant(t, rest);
        lemma_event_keeps_invariant(spec_after_all(t, rest), events.last());
    }
}

/// Tiers never go down as the combo grows.
pub proof fn lemma_tier_monotone(a: u32, b: u32)
    requires
        a <= b,
    ensures
        spec_tier_for(a).rank() <= spec_tier_for(b).rank(),
{
}

/// Higher tiers never have smaller multipliers or bonuses.
pub proof fn lemma_multiplier_monotone(t: ComboTier, u: ComboTier)
    requires
        t.rank() <= u.rank(),
    ensures
        t.spec_multiplier() <= u.spec_multiplier(),
        t.spec_coin_bonus() <= u.spec_coin_bonus(),
{
}

/// Handling an event keeps the tracker consistent, never lowers the best
/// combo or the points total, and a reset empties the combo.
pub proof fn lemma_event_keeps_invariant(t: ComboTracker, event: ComboEvent)
    requires
        t.wf(),
        t.can_take(event),
    ensures
        t.spec_after(event).wf(),
        t.spec_after(event).max_combo >= t.max_combo,
        t.spec_after(event).total_combo_points >= t.total_combo_points,
        event is Reset ==> t.spec_after(event).current_combo == 0
            && t.spec_after(event).combo_tier == ComboTier::NoTier,
        !(event is Reset) ==> t.spec_after(event).current_combo == t.current_combo + spec_event_gain(event),
{
}

/// The tier thresholds: a combo below 10 has no tier, 10 to 24 is bronze,
/// 25 to 49 silver, 50 to 99 gold, 100 to 199 platinum and 200 or more
/// diamond; and each tier's multiplier (in thousandths) and end-of-combo
/// coin bonus are 1000/0, 1250/10, 1500/25, 2000/50, 3000/100 and 5000/250.
pub proof fn lemma_tier_thresholds(c: u32)
    ensures
        (spec_tier_for(c) == ComboTier::NoTier) <==> c < 10,
        (spec_tier_for(c) == ComboTier::Bronze) <==> (10 <= c && c <= 24),
        (spec_tier_for(c) == ComboTier::Silver) <==> (25 <= c && c <= 49),
        (spec_tier_for(c) == ComboTier::Gold) <==> (50 <= c && c <= 99),
        (spec_tier_for(c) == ComboTier::Platinum) <==> (100 <= c && c <= 199),
        (spec_tier_for(c) == ComboTier::Diamond) <==> 200 <= c,
        c < 10 ==> spec_tier_for(c).spec_multiplier() == 1000 && spec_tier_for(c).spec_coin_bonus() == 0,
        10 <= c <= 24 ==> spec_tier_for(c).spec_multiplier() == 1250 && spec_tier_for(c).spec_coin_bonus() == 10,
        25 <= c <= 49 ==> spec_tier_for(c).spec_multiplier() == 1500 && spec_tier_for(c).spec_coin_bonus() == 25,
        50 <= c <= 99 ==> spec_tier_for(c).spec_multiplier() == 2000 && spec_tier_for(c).spec_coin_bonus() == 50,
        100 <= c <= 199 ==> spec_tier_for(c).spec_multiplier() == 3000 && spec_tier_for(c).spec_coin_bonus() == 100,
        200 <= c ==> spec_tier_for(c).spec_multiplier() == 5000 && spec_tier_for(c).spec_coin_bonus() == 250,
{
}

} // verus!
