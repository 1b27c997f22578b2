//! Loot: drop tables by enemy, boss and chest, item rarities, and the
//! record of what the player collected. Fractional values are held in
//! thousandths (a 0.6 drop chance is 600).
use vstd::prelude::*;
use crate::table::{Table, TableKey};
use crate::text::owned;
use crate::systems::talents::count_or_zero;

verus! {

#[derive(Clone, Copy, PartialEq, Eq, Structural, Debug)]
pub enum CurrencyType {
    Coins,
    Gems,
    SoulShards,
}

#[derive(Clone, Copy, PartialEq, Eq, Structural, Debug)]
pub enum EquipmentSlot {
    Weapon,
    Armor,
    Accessory,
    Rune,
}

#[derive(Clone, Copy, PartialEq, Eq, Structural, Debug)]
pub enum StatType {
    Health,
    Damage,
    Speed,
    CritChance,
    CritDamage,
    Armor,
    LifeSteal,
}

impl View for StatType {
    type V = StatType;

    open spec fn view(&self) -> StatType {
        *self
    }
}

impl TableKey for StatType {
    fn same_key(&self, other: &Self) -> (same: bool) {
        *self == *other
    }

    fn copy_key(&self) -> (copy: Self) {
        *self
    }
}

/// Special equipment effects; chances and radii in thousandths.
pub enum SpecialEffect {
    /// Effect name, chance.
    OnHit(String, i32),
    OnKill(String),
    /// Aura type, radius.
    Aura(String, i32),
    Passive(String),
}

/// A piece of equipment; stat values in thousandths.
pub struct Equipment {
    pub id: String,
    pub name: String,
    pub slot: EquipmentSlot,
    pub stats: Table<StatType, i32>,
    pub special_effects: Vec<SpecialEffect>,
    pub set_bonus: Option<String>,
}

/// Consumables; multipliers, durations and radii in thousandths.
#[derive(Clone, Copy, PartialEq, Eq, Structural, Debug)]
pub enum ConsumableItem {
    HealthPotion(i32),
    ManaPotion(i32),
    /// Multiplier, duration.
    SpeedBoost(i32, i32),
    DamageBoost(i32, i32),
    Shield(i32, i32),
    /// Damage, radius.
    Bomb(i32, i32),
}

#[derive(Clone, Copy, PartialEq, Eq, Structural, Debug)]
pub enum MaterialType {
    IronOre,
    MagicDust,
    DragonScale,
    SoulEssence,
    ChaosOrb,
}

impl View for MaterialType {
    type V = MaterialType;

    open spec fn view(&self) -> MaterialType {
        *self
    }
}

impl TableKey for MaterialType {
    fn same_key(&self, other: &Self) -> (same: bool) {
        *self == *other
    }

    fn copy_key(&self) -> (copy: Self) {
        *self
    }
}

pub enum LootType {
    Currency(CurrencyType, u32),
    Equipment(Equipment),
    Consumable(ConsumableItem),
    Material(MaterialType),
    Experience(u32),
    SkillGem(String),
}

#[derive(Clone, Copy, PartialEq, Eq, Structural, Debug)]
pub enum Rarity {
    Common,
    Uncommon,
    Rare,
    Epic,
    Legendary,
    Mythic,
}

impl View for Rarity {
    type V = Rarity;

    open spec fn view(&self) -> Rarity {
        *self
    }
}

impl TableKey for Rarity {
    fn same_key(&self, other: &Self) -> (same: bool) {
        *self == *other
    }

    fn copy_key(&self) -> (copy: Self) {
        *self
    }
}

impl Rarity {
    /// The chance of a drop having this rarity, in thousandths.
    pub open spec fn spec_drop_chance(self) -> u32 {
        match self {
            Rarity::Common => 600,
            Rarity::Uncommon => 250,
            Rarity::Rare => 100,
            Rarity::Epic => 40,
            Rarity::Legendary => 9,
            Rarity::Mythic => 1,
        }
    }

    /// The chance of a drop having this rarity, in thousandths.
    pub fn drop_chance(&self) -> (chance: u32)
        ensures
            chance == self.spec_drop_chance(),
    {
        match self {
            Rarity::Common => 600,
            Rarity::Uncommon => 250,
            Rarity::Rare => 100,
            Rarity::Epic => 40,
            Rarity::Legendary => 9,
            Rarity::Mythic => 1,
        }
    }
}

/// The rarity chances form a distribution: together they make exactly one,
/// and each rarer tier is less likely than the one below it.
pub proof fn lemma_drop_chances_distribution()
    ensures
        Rarity::Common.spec_drop_chance() + Rarity::Uncommon.spec_drop_chance() + Rarity::Rare.spec_drop_chance()
            + Rarity::Epic.spec_drop_chance() + Rarity::Legendary.spec_drop_chance() + Rarity::Mythic.spec_drop_chance()
            == 1000,
        Rarity::Mythic.spec_drop_chance() < Rarity::Legendary.spec_drop_chance(),
        Rarity::Legendary.spec_drop_chance() < Rarity::Epic.spec_drop_chance(),
        Rarity::Epic.spec_drop_chance() < Rarity::Rare.spec_drop_chance(),
        Rarity::Rare.spec_drop_chance() < Rarity::Uncommon.spec_drop_chance(),
        Rarity::Uncommon.spec_drop_chance() < Rarity::Common.spec_drop_chance(),
{
}

/// One possible drop; the weight in thousandths.
pub struct LootEntry {
    pub loot: LootType,
    pub weight: u32,
    pub min_wave: u32,
    pub guaranteed: bool,
}

/// Drop lists by enemy, chest and boss kind.
pub struct LootTable {
    pub enemy_drops: Table<String, Vec<LootEntry>>,
    pub chest_drops: Table<String, Vec<LootEntry>>,
    pub boss_drops: Table<String, Vec<LootEntry>>,
}

impl LootTable {
    /// No drop lists.
    pub fn new() -> (t: LootTable)
        ensures
            t.enemy_drops.as_map() == Map::<Seq<char>, Vec<LootEntry>>::empty(),
            t.chest_drops.as_map() == Map::<Seq<char>, Vec<LootEntry>>::empty(),
            t.boss_drops.as_map() == Map::<Seq<char>, Vec<LootEntry>>::empty(),
    {
        LootTable { enemy_drops: Table::new(), chest_drops: Table::new(), boss_drops: Table::new() }
    }
}

impl Default for LootTable {
    fn default() -> (t: LootTable)
        ensures
            t.enemy_drops.as_map() == Map::<Seq<char>, Vec<LootEntry>>::empty(),
            t.chest_drops.as_map() == Map::<Seq<char>, Vec<LootEntry>>::empty(),
            t.boss_drops.as_map() == Map::<Seq<char>, Vec<LootEntry>>::empty(),
    {
        LootTable::new()
    }
}

/// Where loot comes from.
pub enum LootSource {
    Enemy(String),
    Boss(String),
    Chest(String),
    Environment,
}

/// The drop list for a source, as a map lookup.
pub open spec fn spec_drops_for(table: LootTable, source: LootSource) -> Option<Vec<LootEntry>> {
    match source {
        LootSource::Enemy(kind) => if table.enemy_drops.as_map().contains_key(kind@) {
            Some(table.enemy_drops.as_map()[kind@])
        } else {
            None
        },
        LootSource::Boss(kind) => if table.boss_drops.as_map().contains_key(kind@) {
            Some(table.boss_drops.as_map()[kind@])
        } else {
            None
        },
        LootSource::Chest(kind) => if table.chest_drops.as_map().contains_key(kind@) {
            Some(table.chest_drops.as_map()[kind@])
        } else {
            None
        },
        LootSource::Environment => None,
    }
}

impl LootTable {
    /// The drop list for a source: enemies, bosses and chests by kind; the
    /// environment drops nothing.
    pub fn drops_for(&self, source: &LootSource) -> (drops: Option<&Vec<LootEntry>>)
        ensures
            match drops {
                Some(d) => spec_drops_for(*self, *source) == Some(*d),
                None => spec_drops_for(*self, *source) is None,
            },
    {
        match source {
            LootSource::Enemy(kind) => self.enemy_drops.get(kind),
            LootSource::Boss(kind) => self.boss_drops.get(kind),
            LootSource::Chest(kind) => self.chest_drops.get(kind),
            LootSource::Environment => None,
        }
    }
}

/// What the player has picked up.
pub struct CollectedLoot {
    /// Items picked up, by rarity.
    pub total_items: Table<Rarity, u32>,
    pub equipment: Vec<Equipment>,
    pub materials: Table<MaterialType, u32>,
}

impl CollectedLoot {
    /// Nothing collected.
    pub fn new() -> (c: CollectedLoot)
        ensures
            c.total_items.as_map() == Map::<Rarity, u32>::empty(),
            c.equipment@.len() == 0,
            c.materials.as_map() == Map::<MaterialType, u32>::empty(),
    {
        CollectedLoot { total_items: Table::new(), equipment: Vec::new(), materials: Table::new() }
    }

    /// Records one picked-up drop: counts it under its rarity, keeps
    /// equipment, and counts materials by kind.
    pub fn record_collection(&mut self, rarity: Rarity, loot: LootType)
        requires
            count_or_zero(old(self).total_items.as_map(), rarity) < u32::MAX,
            loot matches LootType::Material(m) ==> count_or_zero(old(self).materials.as_map(), m) < u32::MAX,
        ensures
            final(self).total_items.as_map() == old(self).total_items.as_map().insert(
                rarity,
                (count_or_zero(old(self).total_items.as_map(), rarity) + 1) as u32,
            ),
            match loot {
                LootType::Equipment(e) => final(self).equipment@ == old(self).equipment@.push(e),
                _ => final(self).equipment@ == old(self).equipment@,
            },
            match loot {
                LootType::Material(m) => final(self).materials.as_map() == old(self).materials.as_map().insert(
                    m,
                    (count_or_zero(old(self).materials.as_map(), m) + 1) as u32,
                ),
                _ => final(self).materials.as_map() == old(self).materials.as_map(),
            },
    {
        let count = match self.total_items.get(&rarity) {
            Some(c) => *c,
            None => 0,
        };
        self.total_items.insert(rarity, count + 1);
        match loot {
            LootType::Equipment(equipment) => {
                self.equipment.push(equipment);
            },
            LootType::Material(material) => {
                let n = match self.materials.get(&material) {
                    Some(c) => *c,
                    None => 0,
                };
                self.materials.insert(material, n + 1);
            },
            _ => {},
        }
    }
}

impl Default for CollectedLoot {
    fn default() -> (c: CollectedLoot)
        ensures
            c.total_items.as_map() == Map::<Rarity, u32>::empty(),
            c.equipment@.len() == 0,
            c.materials.as_map() == Map::<MaterialType, u32>::empty(),
    {
        CollectedLoot::new()
    }
}

/// Whether entry `e` has these fields.
pub open spec fn entry_is(e: LootEntry, weight: u32, min_wave: u32, guaranteed: bool) -> bool {
    e.weight == weight && e.min_wave == min_wave && e.guaranteed == guaranteed
}

/// The goblin drop list: 10 coins for sure, sometimes iron ore or a
/// 25-point health potion.
pub open spec fn is_goblin_drops(d: Seq<LootEntry>) -> bool {
    &&& d.len() == 3
    &&& entry_is(d[0], 10_000, 0, true)
    &&& (d[0].loot matches LootType::Currency(c, n) && c == CurrencyType::Coins && n == 10)
    &&& entry_is(d[1], 2_000, 0, false)
    &&& (d[1].loot matches LootType::Material(m) && m == MaterialType::IronOre)
    &&& entry_is(d[2], 1_000, 0, false)
    &&& (d[2].loot matches LootType::Consumable(c) && c == ConsumableItem::HealthPotion(25))
}

/// The goblin king drop list: 5 gems for sure; from wave 5 the Goblin
/// King's Crown or the goblin rage skill gem.
pub open spec fn is_goblin_king_drops(d: Seq<LootEntry>) -> bool {
    &&& d.len() == 3
    &&& entry_is(d[0], 10_000, 0, true)
    &&& (d[0].loot matches LootType::Currency(c, n) && c == CurrencyType::Gems && n == 5)
    &&& entry_is(d[1], 5_000, 5, false)
    &&& (d[1].loot matches LootType::Equipment(e) && {
        &&& e.id@ == "goblin_crown"@
        &&& e.name@ == "Goblin King's Crown"@
        &&& e.slot == EquipmentSlot::Armor
        &&& e.stats.as_map() == map![StatType::Health => 50_000i32, StatType::Damage => 10_000i32]
        &&& e.special_effects@.len() == 1
        &&& (e.special_effects@[0] matches SpecialEffect::Aura(kind, r) && kind@ == "intimidation"@ && r == 100_000)
        &&& (e.set_bonus matches Some(b) && b@ == "goblin_slayer_set"@)
    })
    &&& entry_is(d[2], 2_000, 5, false)
    &&& (d[2].loot matches LootType::SkillGem(g) && g@ == "goblin_rage"@)
}

fn entry(loot: LootType, weight: u32, min_wave: u32, guaranteed: bool) -> (e: LootEntry)
    ensures
        entry_is(e, weight, min_wave, guaranteed),
        e.loot == loot,
{
    LootEntry { loot, weight, min_wave, guaranteed }
}

/// Installs the goblin drop list and the goblin king boss drop list
/// (replacing lists of the same kinds).
pub fn initialize_loot_tables(table: &mut LootTable)
    ensures
        final(table).enemy_drops.as_map().dom() == old(table).enemy_drops.as_map().dom().insert("goblin"@),
        is_goblin_drops(final(table).enemy_drops.as_map()["goblin"@]@),
        final(table).boss_drops.as_map().dom() == old(table).boss_drops.as_map().dom().insert("goblin_king"@),
        is_goblin_king_drops(final(table).boss_drops.as_map()["goblin_king"@]@),
        final(table).chest_drops.as_map() == old(table).chest_drops.as_map(),
{
    let mut goblin: Vec<LootEntry> = Vec::new();
    goblin.push(entry(LootType::Currency(CurrencyType::Coins, 10), 10_000, 0, true));
    goblin.push(entry(LootType::Material(MaterialType::IronOre), 2_000, 0, false));
    goblin.push(entry(LootType::Consumable(ConsumableItem::HealthPotion(25)), 1_000, 0, false));
    table.enemy_drops.insert(owned("goblin"), goblin);

    let mut stats: Table<StatType, i32> = Table::new();
    stats.insert(StatType::Health, 50_000);
    stats.insert(StatType::Damage, 10_000);
    assert(stats.as_map() =~= map![StatType::Health => 50_000i32, StatType::Damage => 10_000i32]);
    let mut effects: Vec<SpecialEffect> = Vec::new();
    effects.push(SpecialEffect::Aura(owned("intimidation"), 100_000));
    let crown = Equipment {
        id: owned("goblin_crown"),
        name: owned("Goblin King's Crown"),
        slot: EquipmentSlot::Armor,
        stats,
        special_effects: effects,
        set_bonus: Some(owned("goblin_slayer_set")),
    };
    let mut king: Vec<LootEntry> = Vec::new();
    king.push(entry(LootType::Currency(CurrencyType::Gems, 5), 10_000, 0, true));
    king.push(entry(LootType::Equipment(crown), 5_000, 5, false));
    king.push(entry(LootType::SkillGem(owned("goblin_rage")), 2_000, 5, false));
    table.boss_drops.insert(owned("goblin_king"), king);
    assert(table.enemy_drops.as_map().dom() =~= old(table).enemy_drops.as_map().dom().insert("goblin"@));
    assert(table.boss_drops.as_map().dom() =~= old(table).boss_drops.as_map().dom().insert("goblin_king"@));
}

/// Collecting a drop adds exactly one to its rarity's count and leaves the
/// other rarities' counts alone.
pub proof fn lemma_collection_counts_one(before: Map<Rarity, u32>, rarity: Rarity, other: Rarity)
    requires
        count_or_zero(before, rarity) < u32::MAX,
        other != rarity,
    ensures
        count_or_zero(before.insert(rarity, (count_or_zero(before, rarity) + 1) as u32), rarity)
            == count_or_zero(before, rarity) + 1,
        count_or_zero(before.insert(rarity, (count_or_zero(before, rarity) + 1) as u32), other)
            == count_or_zero(before, other),
{
}

} // verus!
