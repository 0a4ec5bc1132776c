use vstd::prelude::*;

use crate::item::{
    class_label, derived_item_requirements, derived_item_stats, is_weapon_class, Item, ItemRarity,
};
use crate::modifier::{ItemModifier, Modifier};
use crate::requirement::{met_by, RequirementBlock, StatRequirement};
use crate::stat::{has_kind, stat_of, Stat, StatBlock, StatType};

verus! {

/// Minimum and maximum damage of a weapon, and whether any modifier touches damage.
#[derive(Clone, Copy, Debug, PartialEq, Eq, Structural)]
pub struct DamageLine {
    pub min: i32,
    pub max: i32,
    pub is_modified: bool,
}

/// A derived requirement, whether the viewer meets it, and whether any modifier
/// scales requirements.
#[derive(Clone, Copy, Debug, PartialEq, Eq, Structural)]
pub struct RequirementLine {
    pub requirement: StatRequirement,
    pub is_met: bool,
    pub is_modified: bool,
}

/// What a viewer is shown of an item.
#[derive(Debug)]
pub struct ItemPresentation {
    pub item_base: String,
    pub name: Option<String>,
    pub rarity: ItemRarity,
    pub item_class: String,
    pub damage: Option<DamageLine>,
    pub requirements: Vec<RequirementLine>,
    pub modifiers: Vec<String>,
}

/// The stat kinds whose modification marks a damage line as modified.
pub open spec fn is_damage_kind(k: StatType) -> bool {
    k == StatType::IncreasedDamage || k == StatType::MinimumDamage || k == StatType::MaximumDamage
}

/// Some modifier of `mods` reports a damage kind as its affected stat.
pub open spec fn touches_damage(mods: Seq<ItemModifier>) -> bool {
    exists|i: int| 0 <= i < mods.len() && is_damage_kind(#[trigger] mods[i].spec_affected_stat())
}

/// Some modifier of `mods` reports requirements as its affected stat.
pub open spec fn touches_requirements(mods: Seq<ItemModifier>) -> bool {
    exists|i: int|
        0 <= i < mods.len() && #[trigger] mods[i].spec_affected_stat() == StatType::Requirements
}

/// A viewer with stats `stats` meets `q`; a viewer lacking the stat does not.
pub open spec fn requirement_met(stats: Seq<Stat>, q: StatRequirement) -> bool {
    match stat_of(stats, q.stat_type) {
        Some(st) => met_by(q, st),
        None => false,
    }
}

/// `lines` pairs each requirement of `reqs` with whether `stats` meets it.
pub open spec fn lines_for(
    lines: Seq<RequirementLine>,
    reqs: Seq<StatRequirement>,
    stats: Seq<Stat>,
    modified: bool,
) -> bool {
    &&& lines.len() == reqs.len()
    &&& forall|i: int|
        0 <= i < reqs.len() ==> #[trigger] lines[i] == RequirementLine {
            requirement: reqs[i],
            is_met: requirement_met(stats, reqs[i]),
            is_modified: modified,
        }
}

/// `texts` holds the description of each modifier of `mods`, in order.
pub open spec fn descriptions_of(texts: Seq<String>, mods: Seq<ItemModifier>) -> bool {
    &&& texts.len() == mods.len()
    &&& forall|i: int| 0 <= i < mods.len() ==> (#[trigger] texts[i])@ == mods[i].spec_description()
}

/// The damage line shown for derived stats `derived` when `shown` holds.
pub open spec fn damage_for(
    shown: bool,
    derived: Seq<Stat>,
    mods: Seq<ItemModifier>,
) -> Option<DamageLine> {
    if shown && has_kind(derived, StatType::MinimumDamage) && has_kind(
        derived,
        StatType::MaximumDamage,
    ) {
        Some(
            DamageLine {
                min: stat_of(derived, StatType::MinimumDamage).unwrap().value,
                max: stat_of(derived, StatType::MaximumDamage).unwrap().value,
                is_modified: touches_damage(mods),
            },
        )
    } else {
        None
    }
}

pub open spec fn same_text(a: Option<String>, b: Option<String>) -> bool {
    match (a, b) {
        (Some(x), Some(y)) => x@ == y@,
        (None, None) => true,
        _ => false,
    }
}

/// Whether any modifier reports a damage kind as its affected stat.
pub fn any_touches_damage(mods: &Vec<ItemModifier>) -> (r: bool)
    ensures
        r == touches_damage(mods@),
{
    let mut i: usize = 0;
    while i < mods.len()
        invariant
            i <= mods.len(),
            forall|j: int| 0 <= j < i ==> !is_damage_kind(#[trigger] mods@[j].spec_affected_stat()),
        decreases mods.len() - i,
    {
        let k = mods[i].get_affected_stat();
        if k == StatType::IncreasedDamage || k == StatType::MinimumDamage || k
            == StatType::MaximumDamage {
            return true;
        }
        i = i + 1;
    }
    false
}

/// Whether any modifier reports requirements as its affected stat.
pub fn any_touches_requirements(mods: &Vec<ItemModifier>) -> (r: bool)
    ensures
        r == touches_requirements(mods@),
{
    let mut i: usize = 0;
    while i < mods.len()
        invariant
            i <= mods.len(),
            forall|j: int|
                0 <= j < i ==> #[trigger] mods@[j].spec_affected_stat() != StatType::Requirements,
        decreases mods.len() - i,
    {
        if mods[i].get_affected_stat() == StatType::Requirements {
            return true;
        }
        i = i + 1;
    }
    false
}

/// Whether a viewer with `stats` meets `q`; a viewer lacking the stat does not.
pub fn meets(stats: &StatBlock, q: &StatRequirement) -> (r: bool)
    ensures
        r == requirement_met(stats.stats@, *q),
{
    match stats.get(q.stat_type) {
        Some(st) => q.is_met(st),
        None => false,
    }
}

/// One line per requirement, with whether `stats` meets it.
pub fn requirement_lines(reqs: &RequirementBlock, stats: &StatBlock, modified: bool) -> (r: Vec<
    RequirementLine,
>)
    ensures
        lines_for(r@, reqs.requirements@, stats.stats@, modified),
{
    let mut lines: Vec<RequirementLine> = Vec::new();
    let mut i: usize = 0;
    while i < reqs.requirements.len()
        invariant
            i <= reqs.requirements.len(),
            lines_for(lines@, reqs.requirements@.subrange(0, i as int), stats.stats@, modified),
        decreases reqs.requirements.len() - i,
    {
        let q = reqs.requirements[i];
        let is_met = meets(stats, &q);
        lines.push(RequirementLine { requirement: q, is_met, is_modified: modified });
        i = i + 1;
    }
    assert(reqs.requirements@.subrange(0, reqs.requirements.len() as int)
        =~= reqs.requirements@);
    lines
}

/// The description of each modifier, in order.
pub fn modifier_descriptions(mods: &Vec<ItemModifier>) -> (r: Vec<String>)
    ensures
        descriptions_of(r@, mods@),
{
    let mut texts: Vec<String> = Vec::new();
    let mut i: usize = 0;
    while i < mods.len()
        invariant
            i <= mods.len(),
            descriptions_of(texts@, mods@.subrange(0, i as int)),
        decreases mods.len() - i,
    {
        texts.push(mods[i].description());
        i = i + 1;
    }
    assert(mods@.subrange(0, mods.len() as int) =~= mods@);
    texts
}

/// The damage line for derived stats `derived`, when `shown` holds.
pub fn damage_line(shown: bool, derived: &StatBlock, mods: &Vec<ItemModifier>) -> (r: Option<
    DamageLine,
>)
    ensures
        r == damage_for(shown, derived.stats@, mods@),
{
    if shown {
        match (derived.get(StatType::MinimumDamage), derived.get(StatType::MaximumDamage)) {
            (Some(lo), Some(hi)) => Some(
                DamageLine { min: lo.value, max: hi.value, is_modified: any_touches_damage(mods) },
            ),
            _ => None,
        }
    } else {
        None
    }
}

/// A copy of an optional name.
pub fn copy_name(name: &Option<String>) -> (r: Option<String>)
    ensures
        same_text(r, *name),
{
    match name {
        Some(n) => Some(n.clone()),
        None => None,
    }
}

impl Item {
    /// What a viewer with stats `player_stats` is shown of this item: a damage
    /// line for weapons whose derived stats hold both damage bounds, each derived
    /// requirement with whether the viewer meets it, and each modifier's
    /// description in list order.
    pub fn present(&self, player_stats: &StatBlock) -> (r: ItemPresentation)
        ensures
            r.item_base@ == self.item_base@,
            same_text(r.name, self.name),
            r.rarity == self.rarity,
            r.item_class@ == class_label(self.item_class),
            r.damage == damage_for(
                is_weapon_class(self.item_class),
                derived_item_stats(self.base_stats.stats@, self.modifiers@),
                self.modifiers@,
            ),
            lines_for(
                r.requirements@,
                derived_item_requirements(self.requirements.requirements@, self.modifiers@),
                player_stats.stats@,
                touches_requirements(self.modifiers@),
            ),
            descriptions_of(r.modifiers@, self.modifiers@),
    {
        let derived = self.get_derived_stats();
        let reqs = self.get_derived_requirements();
        let damage = damage_line(self.item_class.is_weapon(), &derived, &self.modifiers);
        let modified = any_touches_requirements(&self.modifiers);
        ItemPresentation {
            item_base: self.item_base.clone(),
            name: copy_name(&self.name),
            rarity: self.rarity,
            item_class: String::from_str(self.item_class.label()),
            damage,
            requirements: requirement_lines(&reqs, player_stats, modified),
            modifiers: modifier_descriptions(&self.modifiers),
        }
    }
}


/// What the item popup shows of an item.
#[derive(Debug)]
pub struct ItemViewModel {
    pub item_base: String,
    pub name: Option<String>,
    pub rarity: ItemRarity,
    pub damage: Option<DamageLine>,
    pub requirements: Vec<RequirementLine>,
    pub item_class: String,
    pub modifiers: Vec<String>,
}

impl ItemViewModel {
    /// As `Item::present`, except that a damage line also needs a base minimum
    /// damage stat on the item itself.
    pub fn from(item: &Item, player_stats: &StatBlock) -> (r: ItemViewModel)
        ensures
            r.item_base@ == item.item_base@,
            same_text(r.name, item.name),
            r.rarity == item.rarity,
            r.item_class@ == class_label(item.item_class),
            r.damage == damage_for(
                is_weapon_class(item.item_class) && has_kind(
                    item.base_stats.stats@,
                    StatType::MinimumDamage,
                ),
                derived_item_stats(item.base_stats.stats@, item.modifiers@),
                item.modifiers@,
            ),
            lines_for(
                r.requirements@,
                derived_item_requirements(item.requirements.requirements@, item.modifiers@),
                player_stats.stats@,
                touches_requirements(item.modifiers@),
            ),
            descriptions_of(r.modifiers@, item.modifiers@),
    {
        let derived = item.get_derived_stats();
        let reqs = item.get_derived_requirements();
        let shown = item.item_class.is_weapon() && item.base_stats.has(StatType::MinimumDamage);
        let damage = damage_line(shown, &derived, &item.modifiers);
        let modified = any_touches_requirements(&item.modifiers);
        ItemViewModel {
            name: copy_name(&item.name),
            item_base: item.item_base.clone(),
            rarity: item.rarity,
            item_class: String::from_str(item.item_class.label()),
            damage,
            requirements: requirement_lines(&reqs, player_stats, modified),
            modifiers: modifier_descriptions(&item.modifiers),
        }
    }
}

} // verus!
