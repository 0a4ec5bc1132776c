use vstd::prelude::*;

use crate::inventory::{first_id, holds_id, Inventory};
use crate::item::{derived_item_stats, Item};
use crate::modifier::{ItemModifier, Modifier, ModifierTarget, ModifierTargetKind};
use crate::stat::{added, has_kind, Stat, StatBlock};

verus! {

/// `acc` after adding each stat of `derived` whose kind the character's own
/// stats `base` lack; a kind already in `acc` keeps its value.
pub open spec fn granted(base: Seq<Stat>, acc: Seq<Stat>, derived: Seq<Stat>) -> Seq<Stat>
    decreases derived.len(),
{
    if derived.len() == 0 {
        acc
    } else {
        let prev = granted(base, acc, derived.drop_last());
        if has_kind(base, derived.last().stat_type) {
            prev
        } else {
            added(prev, derived.last())
        }
    }
}

/// `acc` after every modifier of `mods`, in list order and whatever its pass,
/// applied to a character target.
pub open spec fn character_applied(acc: Seq<Stat>, mods: Seq<ItemModifier>) -> Seq<Stat>
    decreases mods.len(),
{
    if mods.len() == 0 {
        acc
    } else {
        mods.last().stats_effect(
            ModifierTargetKind::Character,
            character_applied(acc, mods.drop_last()),
        )
    }
}

/// The stats of a character with own stats `base` after equipping `items` in order.
pub open spec fn equipped_stats(base: Seq<Stat>, items: Seq<Item>) -> Seq<Stat>
    decreases items.len(),
{
    if items.len() == 0 {
        base
    } else {
        let it = items.last();
        let prev = equipped_stats(base, items.drop_last());
        character_applied(
            granted(base, prev, derived_item_stats(it.base_stats.stats@, it.modifiers@)),
            it.modifiers@,
        )
    }
}

/// Adds to `acc` each stat of `derived` whose kind `base` lacks.
fn grant_missing(base: &StatBlock, acc: &mut StatBlock, derived: &StatBlock)
    ensures
        final(acc).stats@ == granted(base.stats@, old(acc).stats@, derived.stats@),
{
    let mut j: usize = 0;
    while j < derived.stats.len()
        invariant
            j <= derived.stats.len(),
            acc.stats@ == granted(base.stats@, old(acc).stats@, derived.stats@.subrange(0, j as int)),
        decreases derived.stats.len() - j,
    {
        let st = derived.stats[j];
        if !base.has(st.stat_type) {
            acc.add(st);
        }
        assert(derived.stats@.subrange(0, j + 1).drop_last() =~= derived.stats@.subrange(0, j as int));
        j = j + 1;
    }
    assert(derived.stats@.subrange(0, derived.stats.len() as int) =~= derived.stats@);
}

/// Applies every modifier of `item` to `acc` as a character target.
fn apply_to_character(item: &Item, acc: &mut StatBlock)
    ensures
        final(acc).stats@ == character_applied(old(acc).stats@, item.modifiers@),
{
    let mut k: usize = 0;
    while k < item.modifiers.len()
        invariant
            k <= item.modifiers.len(),
            acc.stats@ == character_applied(old(acc).stats@, item.modifiers@.subrange(0, k as int)),
        decreases item.modifiers.len() - k,
    {
        item.modifiers[k].apply_to(ModifierTarget::Character(acc));
        assert(item.modifiers@.subrange(0, k + 1).drop_last() =~= item.modifiers@.subrange(0, k as int));
        k = k + 1;
    }
    assert(item.modifiers@.subrange(0, item.modifiers.len() as int) =~= item.modifiers@);
}

/// A character: own stats, carried items and equipped items.
#[derive(Debug)]
pub struct Player {
    pub base_stats: StatBlock,
    pub inventory: Inventory,
    pub equippement: Inventory,
}

impl Player {
    /// A character with the given own stats and nothing carried or equipped.
    pub fn new(base_stats: StatBlock) -> (r: Self)
        ensures
            r.base_stats.stats@ == base_stats.stats@,
            r.inventory@ == Seq::<Item>::empty(),
            r.equippement@ == Seq::<Item>::empty(),
    {
        Player { base_stats, inventory: Inventory::new(), equippement: Inventory::new() }
    }

    pub fn equip(&mut self, item: Item)
        ensures
            final(self).equippement@ == old(self).equippement@.push(item),
            final(self).inventory@ == old(self).inventory@,
            final(self).base_stats == old(self).base_stats,
    {
        self.equippement.add(item);
    }

    /// Takes the first equipped item with `item`'s identifier off the character.
    pub fn unnequip(&mut self, item: &Item) -> (r: Option<Item>)
        ensures
            r is Some <==> holds_id(old(self).equippement@, item.id),
            match r {
                Some(x) => {
                    let i = first_id(old(self).equippement@, item.id);
                    &&& x == old(self).equippement@[i]
                    &&& final(self).equippement@ == old(self).equippement@.remove(i)
                },
                None => final(self).equippement@ == old(self).equippement@,
            },
            final(self).inventory@ == old(self).inventory@,
            final(self).base_stats == old(self).base_stats,
    {
        self.equippement.take(item)
    }

    pub fn pickup(&mut self, item: Item)
        ensures
            final(self).inventory@ == old(self).inventory@.push(item),
            final(self).equippement@ == old(self).equippement@,
            final(self).base_stats == old(self).base_stats,
    {
        self.inventory.add(item);
    }

    /// Takes the first carried item with `item`'s identifier out of the inventory.
    pub fn drop(&mut self, item: &Item) -> (r: Option<Item>)
        ensures
            r is Some <==> holds_id(old(self).inventory@, item.id),
            match r {
                Some(x) => {
                    let i = first_id(old(self).inventory@, item.id);
                    &&& x == old(self).inventory@[i]
                    &&& final(self).inventory@ == old(self).inventory@.remove(i)
                },
                None => final(self).inventory@ == old(self).inventory@,
            },
            final(self).equippement@ == old(self).equippement@,
            final(self).base_stats == old(self).base_stats,
    {
        self.inventory.take(item)
    }

    /// The character's effective stats: own stats, stats granted by equipped items
    /// that the character lacks, then each item's character-targeted modifiers.
    pub fn get_derived_stats(&self) -> (r: StatBlock)
        ensures
            r.stats@ == equipped_stats(self.base_stats.stats@, self.equippement@),
    {
        let mut acc = self.base_stats.clone();
        let n = self.equippement.len();
        let mut i: usize = 0;
        while i < n
            invariant
                i <= n == self.equippement@.len(),
                acc.stats@ == equipped_stats(
                    self.base_stats.stats@,
                    self.equippement@.subrange(0, i as int),
                ),
            decreases n - i,
        {
            let item = self.equippement.get(i);
            let derived = item.get_derived_stats();
            grant_missing(&self.base_stats, &mut acc, &derived);
            apply_to_character(item, &mut acc);
            assert(self.equippement@.subrange(0, i + 1).drop_last() =~= self.equippement@.subrange(
                0,
                i as int,
            ));
            i = i + 1;
        }
        assert(self.equippement@.subrange(0, n as int) =~= self.equippement@);
        acc
    }
}

} // verus!
