//! The shop tab: the player's balances and a card per catalog item.
use vstd::prelude::*;
use crate::systems::shop::{PlayerCurrency, ShopInventory, ShopItem};
use crate::text::{clone_string, decimal, owned, push_str, spec_decimal, string_from_chars};

verus! {

/// The text of one item card.
pub struct ShopCardText {
    pub item_id: String,
    pub name: String,
    pub description: String,
    /// `Cost: n`.
    pub cost_line: String,
    /// `Stock: n`, for items with a limited stock left.
    pub stock_line: Option<String>,
}

/// `label` followed by `n` in decimal.
pub open spec fn spec_amount(label: Seq<char>, n: int) -> Seq<char> {
    label + spec_decimal(n as nat)
}

/// `card` is the card of `item`.
pub open spec fn card_matches(card: ShopCardText, item: ShopItem) -> bool {
    &&& card.item_id@ == item.id@
    &&& card.name@ == item.name@
    &&& card.description@ == item.description@
    &&& card.cost_line@ == spec_amount("Cost: "@, item.cost as int)
    &&& match card.stock_line {
        Some(s) => item.stock > 0 && s@ == spec_amount("Stock: "@, item.stock as int),
        None => item.stock <= 0,
    }
}

fn amount(label: &str, n: u32) -> (s: String)
    ensures
        s@ == spec_amount(label@, n as int),
{
    let mut v: Vec<char> = Vec::new();
    push_str(&mut v, label);
    let mut d = decimal(n as u64);
    v.append(&mut d);
    string_from_chars(&v)
}

/// The card of one item: name, description, cost, and the stock left when
/// the stock is limited and not exhausted.
pub fn spawn_shop_item_card(item: &ShopItem) -> (card: ShopCardText)
    ensures
        card_matches(card, *item),
{
    let stock_line = if item.stock > 0 { Some(amount("Stock: ", item.stock as u32)) } else { None };
    ShopCardText {
        item_id: clone_string(&item.id),
        name: clone_string(&item.name),
        description: clone_string(&item.description),
        cost_line: amount("Cost: ", item.cost),
        stock_line,
    }
}

/// Everything the shop tab writes.
pub struct ShopTabText {
    pub title: String,
    /// Coins, gems and soul shards.
    pub balances: Vec<String>,
    /// One card per catalog item, in catalog order.
    pub cards: Vec<ShopCardText>,
}

/// The shop tab's text.
pub fn render_shop_tab(shop: &ShopInventory, currency: &PlayerCurrency) -> (text: ShopTabText)
    ensures
        text.title@ == "🛒 Shop"@,
        text.balances@.map_values(|s: String| s@) == seq![
            spec_amount("💰 Coins: "@, currency.coins as int),
            spec_amount("💎 Gems: "@, currency.gems as int),
            spec_amount("👻 Soul Shards: "@, currency.soul_shards as int),
        ],
        text.cards@.len() == shop.items@.len(),
        forall|i: int| 0 <= i < shop.items@.len() ==> card_matches(#[trigger] text.cards@[i], shop.items@[i]),
{
    let mut balances: Vec<String> = Vec::new();
    balances.push(amount("💰 Coins: ", currency.coins));
    balances.push(amount("💎 Gems: ", currency.gems));
    balances.push(amount("👻 Soul Shards: ", currency.soul_shards));
    assert(balances@.map_values(|s: String| s@) =~= seq![
        spec_amount("💰 Coins: "@, currency.coins as int),
        spec_amount("💎 Gems: "@, currency.gems as int),
        spec_amount("👻 Soul Shards: "@, currency.soul_shards as int),
    ]);
    let mut cards: Vec<ShopCardText> = Vec::new();
    let mut i: usize = 0;
    while i < shop.items.len()
        invariant
            i <= shop.items@.len(),
            cards@.len() == i,
            forall|k: int| 0 <= k < i ==> card_matches(#[trigger] cards@[k], shop.items@[k]),
        decreases shop.items@.len() - i,
    {
        cards.push(spawn_shop_item_card(&shop.items[i]));
        i = i + 1;
    }
    ShopTabText { title: owned("🛒 Shop"), balances, cards }
}

} // verus!
