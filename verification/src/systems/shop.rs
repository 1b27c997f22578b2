//! The shop: a catalog of upgrades bought with one of three currencies.
//! Amounts that the game tunes as fractions are held in thousandths
//! (`25.0` is `25_000`, `0.1` is `100`).
use vstd::prelude::*;
use crate::table::Table;
use crate::text::owned;

verus! {

/// The player's wallet.
#[derive(Clone, Copy, PartialEq, Eq, Structural, Debug)]
pub struct PlayerCurrency {
    pub coins: u32,
    pub gems: u32,
    /// Premium currency for meta-progression.
    pub soul_shards: u32,
}

#[derive(Clone, Copy, PartialEq, Eq, Structural, Debug)]
pub enum CurrencyType {
    Coins,
    Gems,
    SoulShards,
}

impl PlayerCurrency {
    /// The balance held in currency `ct`.
    pub open spec fn spec_balance(self, ct: CurrencyType) -> u32 {
        match ct {
            CurrencyType::Coins => self.coins,
            CurrencyType::Gems => self.gems,
            CurrencyType::SoulShards => self.soul_shards,
        }
    }

    /// The wallet with `amount` taken from currency `ct`.
    pub open spec fn spec_debit(self, ct: CurrencyType, amount: u32) -> PlayerCurrency {
        match ct {
            CurrencyType::Coins => PlayerCurrency { coins: (self.coins - amount) as u32, ..self },
            CurrencyType::Gems => PlayerCurrency { gems: (self.gems - amount) as u32, ..self },
            CurrencyType::SoulShards => PlayerCurrency { soul_shards: (self.soul_shards - amount) as u32, ..self },
        }
    }

    /// The wallet with `amount` added to currency `ct`.
    pub open spec fn spec_credit(self, ct: CurrencyType, amount: u32) -> PlayerCurrency {
        match ct {
            CurrencyType::Coins => PlayerCurrency { coins: (self.coins + amount) as u32, ..self },
            CurrencyType::Gems => PlayerCurrency { gems: (self.gems + amount) as u32, ..self },
            CurrencyType::SoulShards => PlayerCurrency { soul_shards: (self.soul_shards + amount) as u32, ..self },
        }
    }

    /// Adds `amount` to currency `ct`.
    pub fn credit(&mut self, ct: CurrencyType, amount: u32)
        requires
            old(self).spec_balance(ct) + amount <= u32::MAX,
        ensures
            *final(self) == old(self).spec_credit(ct, amount),
    {
        match ct {
            CurrencyType::Coins => self.coins = self.coins + amount,
            CurrencyType::Gems => self.gems = self.gems + amount,
            CurrencyType::SoulShards => self.soul_shards = self.soul_shards + amount,
        }
    }

    /// The starting wallet: 100 coins.
    pub fn new() -> (c: PlayerCurrency)
        ensures
            c == (PlayerCurrency { coins: 100, gems: 0, soul_shards: 0 }),
    {
        PlayerCurrency { coins: 100, gems: 0, soul_shards: 0 }
    }

    /// The balance held in currency `ct`.
    pub fn balance(&self, ct: CurrencyType) -> (b: u32)
        ensures
            b == self.spec_balance(ct),
    {
        match ct {
            CurrencyType::Coins => self.coins,
            CurrencyType::Gems => self.gems,
            CurrencyType::SoulShards => self.soul_shards,
        }
    }
}

impl Default for PlayerCurrency {
    fn default() -> (c: PlayerCurrency)
        ensures
            c == (PlayerCurrency { coins: 100, gems: 0, soul_shards: 0 }),
    {
        PlayerCurrency::new()
    }
}

#[derive(Clone, Copy, PartialEq, Eq, Structural, Debug)]
pub enum StatType {
    Health,
    Damage,
    Speed,
    AttackSpeed,
    CritChance,
    CritDamage,
    Armor,
    LifeSteal,
    ExperienceGain,
    CoinGain,
}

/// Passive effects, with their strength in thousandths.
#[derive(Clone, Copy, PartialEq, Eq, Structural, Debug)]
pub enum PassiveType {
    /// Reflect damage.
    Thorns(i32),
    /// Health per second.
    Regeneration(i32),
    /// Item pickup range.
    MagnetRange(i32),
    /// Chance to avoid damage.
    DodgeChance(i32),
    /// Instant kill below this share of health.
    ExecuteThreshold(i32),
}

#[derive(Clone, Copy, PartialEq, Eq, Structural, Debug)]
pub enum ConsumableType {
    HealthPotion(i32),
    ReviveToken,
    RerollShop,
    SkipWave,
}

/// What an item does, with amounts in thousandths.
pub enum UpgradeType {
    StatBoost(StatType, i32),
    PercentBoost(StatType, i32),
    UnlockAbility(String),
    PassiveEffect(PassiveType),
    ConsumableItem(ConsumableType),
}

#[derive(Clone, Copy, PartialEq, Eq, Structural, Debug)]
pub enum ItemTier {
    Common,
    Uncommon,
    Rare,
    Epic,
    Legendary,
}

pub enum PurchaseRequirement {
    WaveReached(u32),
    ItemOwned(String),
    AchievementUnlocked(String),
}

/// A catalog entry.
pub struct ShopItem {
    pub id: String,
    pub name: String,
    pub description: String,
    pub icon: String,
    pub cost: u32,
    pub currency_type: CurrencyType,
    pub upgrade_type: UpgradeType,
    pub tier: ItemTier,
    /// Units left; -1 for unlimited.
    pub stock: i32,
    pub requirements: Vec<PurchaseRequirement>,
}

/// The shop's catalog and refresh bookkeeping.
pub struct ShopInventory {
    pub items: Vec<ShopItem>,
    pub refresh_cost: u32,
    pub last_refresh_wave: u32,
}

/// How many of each item the player has bought, by item id.
pub struct PurchasedUpgrades {
    pub upgrades: Table<String, u32>,
}

impl PurchasedUpgrades {
    /// No purchases yet.
    pub fn new() -> (p: PurchasedUpgrades)
        ensures
            p.upgrades.as_map() == Map::<Seq<char>, u32>::empty(),
    {
        PurchasedUpgrades { upgrades: Table::new() }
    }

    /// How many of item `id` were bought.
    pub open spec fn spec_count(&self, id: Seq<char>) -> u32 {
        if self.upgrades.as_map().contains_key(id) { self.upgrades.as_map()[id] } else { 0 }
    }
}

impl Default for PurchasedUpgrades {
    fn default() -> (p: PurchasedUpgrades)
        ensures
            p.upgrades.as_map() == Map::<Seq<char>, u32>::empty(),
    {
        PurchasedUpgrades::new()
    }
}

impl ShopInventory {
    /// An empty shop.
    pub fn new() -> (s: ShopInventory)
        ensures
            s.items@.len() == 0,
            s.refresh_cost == 0,
            s.last_refresh_wave == 0,
    {
        ShopInventory { items: Vec::new(), refresh_cost: 0, last_refresh_wave: 0 }
    }
}

impl Default for ShopInventory {
    fn default() -> (s: ShopInventory)
        ensures
            s.items@.len() == 0,
            s.refresh_cost == 0,
            s.last_refresh_wave == 0,
    {
        ShopInventory::new()
    }
}

/// `i` is the first catalog position whose item has id `id`.
pub open spec fn is_first_with_id(items: Seq<ShopItem>, id: Seq<char>, i: int) -> bool {
    &&& 0 <= i < items.len()
    &&& items[i].id@ == id
    &&& forall|j: int| 0 <= j < i ==> items[j].id@ != id
}

/// No catalog item has id `id`.
pub open spec fn has_no_item(items: Seq<ShopItem>, id: Seq<char>) -> bool {
    forall|j: int| 0 <= j < items.len() ==> items[j].id@ != id
}

/// The stock after one unit is sold: unlimited stays unlimited.
pub open spec fn spec_stock_after_sale(stock: i32) -> i32 {
    if stock > 0 { (stock - 1) as i32 } else { stock }
}

/// The outcome of one purchase attempt.
#[derive(Clone, Copy, PartialEq, Eq, Structural, Debug)]
pub enum PurchaseOutcome {
    /// Bought the item at this catalog position.
    Bought(usize),
    /// No item has the requested id.
    UnknownItem,
    /// The item is sold out.
    SoldOut(usize),
    /// The wallet holds too little of the item's currency.
    CannotAfford(usize),
}

impl ShopInventory {
    /// Position of the first item with id `id`.
    pub fn find_item(&self, id: &str) -> (pos: Option<usize>)
        ensures
            match pos {
                Some(i) => is_first_with_id(self.items@, id@, i as int),
                None => has_no_item(self.items@, id@),
            },
    {
        let mut i: usize = 0;
        while i < self.items.len()
            invariant
                i <= self.items@.len(),
                forall|j: int| 0 <= j < i ==> self.items@[j].id@ != id@,
            decreases self.items@.len() - i,
        {
            if crate::text::str_eq(self.items[i].id.as_str(), id) {
                return Some(i);
            }
            i = i + 1;
        }
        None
    }

    /// Sells one unit of the first item with id `item_id`: the item must
    /// exist, not be sold out, and the wallet must hold its cost in the
    /// item's currency. A sale takes exactly the cost from that currency,
    /// lowers a limited stock by one and counts the purchase; any other
    /// outcome changes nothing. The item's price rise after a sale is applied
    /// by the caller.
    pub fn purchase(
        &mut self,
        currency: &mut PlayerCurrency,
        purchased: &mut PurchasedUpgrades,
        item_id: &String,
    ) -> (outcome: PurchaseOutcome)
        requires
            old(purchased).spec_count(item_id@) < u32::MAX,
        ensures
            match outcome {
                PurchaseOutcome::Bought(i) => {
                    &&& is_first_with_id(old(self).items@, item_id@, i as int)
                    &&& old(self).items@[i as int].stock != 0
                    &&& old(currency).spec_balance(old(self).items@[i as int].currency_type)
                        >= old(self).items@[i as int].cost
                    &&& *final(currency) == old(currency).spec_debit(
                        old(self).items@[i as int].currency_type,
                        old(self).items@[i as int].cost,
                    )
                    &&& final(purchased).upgrades.as_map() == old(purchased).upgrades.as_map().insert(
                        item_id@,
                        (old(purchased).spec_count(item_id@) + 1) as u32,
                    )
                    &&& final(self).items@.len() == old(self).items@.len()
                    &&& forall|j: int| 0 <= j < old(self).items@.len() && j != i ==> final(self).items@[j] == old(self).items@[j]
                    &&& final(self).items@[i as int].stock == spec_stock_after_sale(old(self).items@[i as int].stock)
                    &&& final(self).items@[i as int].id == old(self).items@[i as int].id
                    &&& final(self).items@[i as int].cost == old(self).items@[i as int].cost
                    &&& final(self).items@[i as int].currency_type == old(self).items@[i as int].currency_type
                },
                PurchaseOutcome::UnknownItem => has_no_item(old(self).items@, item_id@),
                PurchaseOutcome::SoldOut(i) => is_first_with_id(old(self).items@, item_id@, i as int)
                    && old(self).items@[i as int].stock == 0,
                PurchaseOutcome::CannotAfford(i) => is_first_with_id(old(self).items@, item_id@, i as int)
                    && old(self).items@[i as int].stock != 0
                    && old(currency).spec_balance(old(self).items@[i as int].currency_type)
                        < old(self).items@[i as int].cost,
            },
            !(outcome is Bought) ==> {
                &&& final(self).items@ == old(self).items@
                &&& *final(currency) == *old(currency)
                &&& final(purchased).upgrades.as_map() == old(purchased).upgrades.as_map()
            },
            final(self).refresh_cost == old(self).refresh_cost,
            final(self).last_refresh_wave == old(self).last_refresh_wave,
    {
        let pos = self.find_item(item_id.as_str());
        let i = match pos {
            None => return PurchaseOutcome::UnknownItem,
            Some(i) => i,
        };
        if self.items[i].stock == 0 {
            return PurchaseOutcome::SoldOut(i);
        }
        let cost = self.items[i].cost;
        let ct = self.items[i].currency_type;
        if currency.balance(ct) < cost {
            return PurchaseOutcome::CannotAfford(i);
        }
        match ct {
            CurrencyType::Coins => currency.coins = currency.coins - cost,
            CurrencyType::Gems => currency.gems = currency.gems - cost,
            CurrencyType::SoulShards => currency.soul_shards = currency.soul_shards - cost,
        }
        let mut items = Vec::new();
        std::mem::swap(&mut items, &mut self.items);
        let mut item = items.remove(i);
        if item.stock > 0 {
            item.stock = item.stock - 1;
        }
        items.insert(i, item);
        self.items = items;
        let key = crate::text::clone_string(item_id);
        let count = match purchased.upgrades.get(item_id) {
            Some(c) => *c,
            None => 0,
        };
        purchased.upgrades.insert(key, count + 1);
        PurchaseOutcome::Bought(i)
    }

    /// Records the wave at which the shop was last refreshed: once a wave is
    /// complete and differs from the last refresh wave, it becomes the last
    /// refresh wave.
    pub fn refresh_on_wave_clear(&mut self, wave_complete: bool, current_wave: u32)
        ensures
            final(self).items@ == old(self).items@,
            final(self).refresh_cost == old(self).refresh_cost,
            final(self).last_refresh_wave == (if wave_complete && current_wave != old(self).last_refresh_wave {
                current_wave
            } else {
                old(self).last_refresh_wave
            }),
    {
        if wave_complete && current_wave != self.last_refresh_wave {
            self.last_refresh_wave = current_wave;
        }
    }
}


/// Whether catalog entry `it` has these fields.
pub open spec fn item_is(
    it: ShopItem,
    id: Seq<char>,
    name: Seq<char>,
    description: Seq<char>,
    icon: Seq<char>,
    cost: u32,
    currency_type: CurrencyType,
    tier: ItemTier,
    stock: int,
) -> bool {
    &&& it.id@ == id
    &&& it.name@ == name
    &&& it.description@ == description
    &&& it.icon@ == icon
    &&& it.cost == cost
    &&& it.currency_type == currency_type
    &&& it.tier == tier
    &&& it.stock == stock
}

/// The item requires exactly reaching wave `wave`.
pub open spec fn requires_only_wave(it: ShopItem, wave: u32) -> bool {
    &&& it.requirements@.len() == 1
    &&& (it.requirements@[0] matches PurchaseRequirement::WaveReached(w) && w == wave)
}

fn make_item(
    id: &str,
    name: &str,
    description: &str,
    icon: &str,
    cost: u32,
    currency_type: CurrencyType,
    upgrade_type: UpgradeType,
    tier: ItemTier,
    stock: i32,
    requirements: Vec<PurchaseRequirement>,
) -> (it: ShopItem)
    ensures
        item_is(it, id@, name@, description@, icon@, cost, currency_type, tier, stock as int),
        it.upgrade_type == upgrade_type,
        it.requirements == requirements,
{
    ShopItem {
        id: owned(id),
        name: owned(name),
        description: owned(description),
        icon: owned(icon),
        cost,
        currency_type,
        upgrade_type,
        tier,
        stock,
        requirements,
    }
}

/// The starting catalog, item by item.
pub open spec fn is_starting_catalog(items: Seq<ShopItem>) -> bool {
    &&& items.len() == 5
    &&& item_is(items[0], "health_boost_1"@, "Vitality Crystal"@, "+25 Max Health"@, "icons/health.png"@,
        100, CurrencyType::Coins, ItemTier::Common, -1)
    &&& (items[0].upgrade_type matches UpgradeType::StatBoost(s, a) && s == StatType::Health && a == 25_000)
    &&& items[0].requirements@.len() == 0
    &&& item_is(items[1], "damage_boost_1"@, "Sharpening Stone"@, "+5 Damage"@, "icons/damage.png"@,
        150, CurrencyType::Coins, ItemTier::Common, -1)
    &&& (items[1].upgrade_type matches UpgradeType::StatBoost(s, a) && s == StatType::Damage && a == 5_000)
    &&& items[1].requirements@.len() == 0
    &&& item_is(items[2], "crit_boost_1"@, "Lucky Charm"@, "+10% Critical Chance"@, "icons/crit.png"@,
        200, CurrencyType::Coins, ItemTier::Uncommon, -1)
    &&& (items[2].upgrade_type matches UpgradeType::PercentBoost(s, a) && s == StatType::CritChance && a == 100)
    &&& items[2].requirements@.len() == 0
    &&& item_is(items[3], "lifesteal_1"@, "Vampiric Fang"@, "+5% Life Steal"@, "icons/lifesteal.png"@,
        300, CurrencyType::Coins, ItemTier::Rare, 1)
    &&& (items[3].upgrade_type matches UpgradeType::PercentBoost(s, a) && s == StatType::LifeSteal && a == 50)
    &&& requires_only_wave(items[3], 5)
    &&& item_is(items[4], "thorns_1"@, "Thorned Armor"@, "Reflect 20% damage to attackers"@, "icons/thorns.png"@,
        400, CurrencyType::Coins, ItemTier::Rare, 1)
    &&& (items[4].upgrade_type matches UpgradeType::PassiveEffect(p) && p == PassiveType::Thorns(200))
    &&& requires_only_wave(items[4], 10)
}

/// The shop's starting catalog: two unlimited stat boosts, an unlimited
/// critical-chance charm, and two single-stock rare items gated by wave.
pub fn generate_shop_items() -> (items: Vec<ShopItem>)
    ensures
        is_starting_catalog(items@),
{
    let mut items: Vec<ShopItem> = Vec::new();
    items.push(make_item("health_boost_1", "Vitality Crystal", "+25 Max Health", "icons/health.png", 100,
        CurrencyType::Coins, UpgradeType::StatBoost(StatType::Health, 25_000), ItemTier::Common, -1, Vec::new()));
    items.push(make_item("damage_boost_1", "Sharpening Stone", "+5 Damage", "icons/damage.png", 150,
        CurrencyType::Coins, UpgradeType::StatBoost(StatType::Damage, 5_000), ItemTier::Common, -1, Vec::new()));
    items.push(make_item("crit_boost_1", "Lucky Charm", "+10% Critical Chance", "icons/crit.png", 200,
        CurrencyType::Coins, UpgradeType::PercentBoost(StatType::CritChance, 100), ItemTier::Uncommon, -1, Vec::new()));
    let mut wave5: Vec<PurchaseRequirement> = Vec::new();
    wave5.push(PurchaseRequirement::WaveReached(5));
    items.push(make_item("lifesteal_1", "Vampiric Fang", "+5% Life Steal", "icons/lifesteal.png", 300,
        CurrencyType::Coins, UpgradeType::PercentBoost(StatType::LifeSteal, 50), ItemTier::Rare, 1, wave5));
    let mut wave10: Vec<PurchaseRequirement> = Vec::new();
    wave10.push(PurchaseRequirement::WaveReached(10));
    items.push(make_item("thorns_1", "Thorned Armor", "Reflect 20% damage to attackers", "icons/thorns.png", 400,
        CurrencyType::Coins, UpgradeType::PassiveEffect(PassiveType::Thorns(200)), ItemTier::Rare, 1, wave10));
    items
}

/// Stocks the shop with the starting catalog and sets the refresh cost to 50.
pub fn initialize_shop(shop: &mut ShopInventory)
    ensures
        is_starting_catalog(final(shop).items@),
        final(shop).refresh_cost == 50,
        final(shop).last_refresh_wave == old(shop).last_refresh_wave,
{
    shop.items = generate_shop_items();
    shop.refresh_cost = 50;
}

/// A purchase moves exactly the item's cost out of the wallet: the paying
/// currency drops by the cost and the other two are untouched.
pub proof fn lemma_purchase_conserves(before: PlayerCurrency, ct: CurrencyType, cost: u32)
    requires
        before.spec_balance(ct) >= cost,
    ensures
        before.spec_debit(ct, cost).spec_balance(ct) == before.spec_balance(ct) - cost,
        forall|other: CurrencyType| other != ct ==> #[trigger] before.spec_debit(ct, cost).spec_balance(other)
            == before.spec_balance(other),
{
}

/// An unlimited item (stock -1) stays unlimited, and a limited stock only
/// ever goes down by one and never below zero.
pub proof fn lemma_stock_after_sale(stock: i32)
    requires
        stock >= -1,
        stock != 0,
    ensures
        stock == -1 ==> spec_stock_after_sale(stock) == -1,
        stock > 0 ==> spec_stock_after_sale(stock) == stock - 1 && spec_stock_after_sale(stock) >= 0,
{
}

} // verus!
