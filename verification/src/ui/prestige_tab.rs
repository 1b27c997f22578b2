//! The text of the prestige tab: the player's prestige standing, the three
//! kinds of prestige, and a card per meta upgrade.
use vstd::prelude::*;
use crate::systems::prestige::{MetaProgression, MetaUpgrade, PrestigeSystem, PrestigeType};
use crate::text::{clone_string, decimal, owned, push_str, spec_decimal, string_from_chars};

verus! {

/// `label` followed by `n` in decimal.
pub open spec fn spec_labelled(label: Seq<char>, n: u32) -> Seq<char> {
    label + spec_decimal(n as nat)
}

/// The text of one prestige option: its kind, name and description.
pub struct PrestigeOptionText {
    pub prestige_type: PrestigeType,
    pub name: String,
    pub description: String,
}

/// The text of one meta-upgrade card.
pub struct UpgradeCardText {
    pub name: String,
    pub description: String,
    /// `Level: current/max`.
    pub level: String,
}

/// Everything the prestige tab writes.
pub struct PrestigeTabText {
    pub title: String,
    /// Prestige level, prestige points, legacy points, ascension shards.
    pub stats: Vec<String>,
    pub options: Vec<PrestigeOptionText>,
    pub upgrades_heading: String,
    /// One card per meta upgrade, in the order the upgrades were added.
    pub upgrade_cards: Vec<UpgradeCardText>,
}

/// The card line of an upgrade's level.
pub open spec fn spec_level_line(u: MetaUpgrade) -> Seq<char> {
    "Level: "@ + spec_decimal(u.current_level as nat) + "/"@ + spec_decimal(u.max_level as nat)
}

/// `o` describes the prestige kind `t` with the given name and description.
pub open spec fn option_is(o: PrestigeOptionText, t: PrestigeType, name: Seq<char>, description: Seq<char>) -> bool {
    o.prestige_type == t && o.name@ == name && o.description@ == description
}

/// `label` then `n` in decimal.
fn labelled(label: &str, n: u32) -> (s: String)
    ensures
        s@ == spec_labelled(label@, n),
{
    let mut v: Vec<char> = Vec::new();
    push_str(&mut v, label);
    let mut d = decimal(n as u64);
    v.append(&mut d);
    string_from_chars(&v)
}

/// `Level: current/max` for an upgrade card.
fn level_line(u: &MetaUpgrade) -> (s: String)
    ensures
        s@ == spec_level_line(*u),
{
    let mut v: Vec<char> = Vec::new();
    push_str(&mut v, "Level: ");
    let mut d = decimal(u.current_level as u64);
    v.append(&mut d);
    push_str(&mut v, "/");
    let mut m = decimal(u.max_level as u64);
    v.append(&mut m);
    string_from_chars(&v)
}

fn option(t: PrestigeType, name: &str, description: &str) -> (o: PrestigeOptionText)
    ensures
        option_is(o, t, name@, description@),
{
    PrestigeOptionText { prestige_type: t, name: owned(name), description: owned(description) }
}

/// The prestige tab's text for the player's prestige state and meta progression.
pub fn render_prestige_tab(prestige: &PrestigeSystem, meta: &MetaProgression) -> (text: PrestigeTabText)
    ensures
        text.title@ == "♾️ Prestige & Meta-Progression"@,
        text.stats@.map_values(|s: String| s@) == seq![
            spec_labelled("Prestige Level: "@, prestige.current_prestige),
            spec_labelled("Prestige Points: "@, prestige.prestige_points),
            spec_labelled("Legacy Points: "@, prestige.legacy_points),
            spec_labelled("Ascension Shards: "@, prestige.ascension_shards),
        ],
        text.options@.len() == 3,
        option_is(text.options@[0], PrestigeType::Standard, "Standard Prestige"@,
            "Reset progress for prestige points\nRequires: Wave 50 or Level 100"@),
        option_is(text.options@[1], PrestigeType::Ascension, "Ascension"@,
            "Harder reset for ascension shards\nRequires: Prestige 10"@),
        option_is(text.options@[2], PrestigeType::Rebirth, "Rebirth"@,
            "Complete reset for legacy points\nRequires: Prestige 25"@),
        text.upgrades_heading@ == "Meta Upgrades"@,
        text.upgrade_cards@.len() == meta.permanent_upgrades.values().len(),
        forall|i: int| 0 <= i < text.upgrade_cards@.len() ==> {
            let u = meta.permanent_upgrades.values()[i];
            &&& (#[trigger] text.upgrade_cards@[i]).name@ == u.name@
            &&& text.upgrade_cards@[i].description@ == u.description@
            &&& text.upgrade_cards@[i].level@ == spec_level_line(u)
        },
{
    let mut stats: Vec<String> = Vec::new();
    stats.push(labelled("Prestige Level: ", prestige.current_prestige));
    stats.push(labelled("Prestige Points: ", prestige.prestige_points));
    stats.push(labelled("Legacy Points: ", prestige.legacy_points));
    stats.push(labelled("Ascension Shards: ", prestige.ascension_shards));
    assert(stats@.map_values(|s: String| s@) =~= seq![
        spec_labelled("Prestige Level: "@, prestige.current_prestige),
        spec_labelled("Prestige Points: "@, prestige.prestige_points),
        spec_labelled("Legacy Points: "@, prestige.legacy_points),
        spec_labelled("Ascension Shards: "@, prestige.ascension_shards),
    ]);
    let mut options: Vec<PrestigeOptionText> = Vec::new();
    options.push(option(PrestigeType::Standard, "Standard Prestige",
        "Reset progress for prestige points\nRequires: Wave 50 or Level 100"));
    options.push(option(PrestigeType::Ascension, "Ascension", "Harder reset for ascension shards\nRequires: Prestige 10"));
    options.push(option(PrestigeType::Rebirth, "Rebirth", "Complete reset for legacy points\nRequires: Prestige 25"));
    let n = meta.permanent_upgrades.len();
    let mut cards: Vec<UpgradeCardText> = Vec::new();
    let mut i: usize = 0;
    while i < n
        invariant
            i <= n,
            n == meta.permanent_upgrades.values().len(),
            n == meta.permanent_upgrades.keys().len(),
            cards@.len() == i,
            forall|k: int| 0 <= k < i ==> {
                let u = meta.permanent_upgrades.values()[k];
                &&& (#[trigger] cards@[k]).name@ == u.name@
                &&& cards@[k].description@ == u.description@
                &&& cards@[k].level@ == spec_level_line(u)
            },
        decreases n - i,
    {
        let u = meta.permanent_upgrades.value(i);
        cards.push(UpgradeCardText {
            name: clone_string(&u.name),
            description: clone_string(&u.description),
            level: level_line(u),
        });
        i = i + 1;
    }
    PrestigeTabText {
        title: owned("♾️ Prestige & Meta-Progression"),
        stats,
        options,
        upgrades_heading: owned("Meta Upgrades"),
        upgrade_cards: cards,
    }
}

} // verus!
