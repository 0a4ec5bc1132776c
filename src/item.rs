use vstd::prelude::*;

use crate::item_builder::ItemBuilder;
use crate::modifier::{ItemModifier, Modifier, ModifierPass, ModifierTarget, ModifierTargetKind};
use crate::requirement::{RequirementBlock, StatRequirement};
use crate::stat::{Stat, StatBlock};

verus! {

#[derive(Clone, Copy, Debug, PartialEq, Eq, Structural)]
pub enum ItemRarity {
    Normal,
    Magic,
    Rare,
    Unique,
}

#[derive(Clone, Copy, Debug, PartialEq, Eq, Hash, Structural)]
pub enum ArmourType {
    Helmet,
    BodyArmour,
    Gloves,
    Boots,
    Shield,
}

#[derive(Clone, Copy, Debug, PartialEq, Eq, Hash, Structural)]
pub enum WeaponType {
    Sword,
    Dagger,
    Axe,
}

#[derive(Clone, Copy, Debug, PartialEq, Eq, Hash, Structural)]
pub enum JewelleryType {
    Belt,
    Ring,
    Amulet,
}

#[derive(Clone, Copy, Debug, PartialEq, Eq, Hash, Structural)]
pub enum EquipmentType {
    Armour(ArmourType),
    Weapon(WeaponType),
    Jewellery(JewelleryType),
}

#[derive(Clone, Copy, Debug, PartialEq, Eq, Structural)]
pub enum ItemClass {
    Equipment(EquipmentType),
    Unclassified,
}

/// Display name of an item class.
pub open spec fn class_label(c: ItemClass) -> Seq<char> {
    match c {
        ItemClass::Equipment(EquipmentType::Armour(a)) => match a {
            ArmourType::Helmet => "Helmet"@,
            ArmourType::BodyArmour => "Body Armour"@,
            ArmourType::Gloves => "Gloves"@,
            ArmourType::Boots => "Boots"@,
            ArmourType::Shield => "Shield"@,
        },
        ItemClass::Equipment(EquipmentType::Weapon(w)) => match w {
            WeaponType::Sword => "Sword"@,
            WeaponType::Dagger => "Dagger"@,
            WeaponType::Axe => "Axe"@,
        },
        ItemClass::Equipment(EquipmentType::Jewellery(j)) => match j {
            JewelleryType::Belt => "Belt"@,
            JewelleryType::Ring => "Ring"@,
            JewelleryType::Amulet => "Amulet"@,
        },
        ItemClass::Unclassified => "None"@,
    }
}

/// The class is a weapon of any type.
pub open spec fn is_weapon_class(c: ItemClass) -> bool {
    c matches ItemClass::Equipment(EquipmentType::Weapon(_))
}

impl ItemClass {
    /// The name under which the class is displayed.
    pub fn label(&self) -> (r: &'static str)
        ensures
            r@ == class_label(*self),
    {
        match self {
            ItemClass::Equipment(EquipmentType::Armour(a)) => match a {
                ArmourType::Helmet => "Helmet",
                ArmourType::BodyArmour => "Body Armour",
                ArmourType::Gloves => "Gloves",
                ArmourType::Boots => "Boots",
                ArmourType::Shield => "Shield",
            },
            ItemClass::Equipment(EquipmentType::Weapon(w)) => match w {
                WeaponType::Sword => "Sword",
                WeaponType::Dagger => "Dagger",
                WeaponType::Axe => "Axe",
            },
            ItemClass::Equipment(EquipmentType::Jewellery(j)) => match j {
                JewelleryType::Belt => "Belt",
                JewelleryType::Ring => "Ring",
                JewelleryType::Amulet => "Amulet",
            },
            ItemClass::Unclassified => "None",
        }
    }

    /// The class is a weapon of any type.
    pub fn is_weapon(&self) -> (r: bool)
        ensures
            r == is_weapon_class(*self),
    {
        match self {
            ItemClass::Equipment(EquipmentType::Weapon(_)) => true,
            _ => false,
        }
    }
}

/// `s` after running, in list order, every modifier of `mods` that belongs to
/// `pass`, each on an item target.
pub open spec fn pass_applied(s: Seq<Stat>, mods: Seq<ItemModifier>, pass: ModifierPass) -> Seq<
    Stat,
>
    decreases mods.len(),
{
    if mods.len() == 0 {
        s
    } else {
        let prev = pass_applied(s, mods.drop_last(), pass);
        if mods.last().spec_pass() == pass {
            mods.last().stats_effect(ModifierTargetKind::Item, prev)
        } else {
            prev
        }
    }
}

/// An item's effective stats: the flat pass, then the increased pass.
pub open spec fn derived_item_stats(base: Seq<Stat>, mods: Seq<ItemModifier>) -> Seq<Stat> {
    pass_applied(pass_applied(base, mods, ModifierPass::Flat), mods, ModifierPass::Increased)
}

/// An item's effective requirements: every requirements-pass modifier in list order.
pub open spec fn derived_item_requirements(
    r: Seq<StatRequirement>,
    mods: Seq<ItemModifier>,
) -> Seq<StatRequirement>
    decreases mods.len(),
{
    if mods.len() == 0 {
        r
    } else {
        let prev = derived_item_requirements(r, mods.drop_last());
        if mods.last().spec_pass() == ModifierPass::Requirements {
            mods.last().requirements_effect(prev)
        } else {
            prev
        }
    }
}

/// Relies on uuid::Uuid::new_v4 (read as its 128-bit value): a random
/// identifier for a new item.
#[verifier::external_body]
pub(crate) fn fresh_item_id() -> (r: u128) {
    uuid::Uuid::new_v4().as_u128()
}

/// A piece of equipment: base data plus an ordered list of modifiers.
#[derive(Debug)]
pub struct Item {
    pub id: u128,
    pub item_base: String,
    pub name: Option<String>,
    pub rarity: ItemRarity,
    pub item_class: ItemClass,
    pub requirements: RequirementBlock,
    pub base_stats: StatBlock,
    pub modifiers: Vec<ItemModifier>,
}

impl PartialEq for Item {
    fn eq(&self, other: &Self) -> (r: bool)
        ensures
            r == (self.id == other.id),
    {
        self.id == other.id
    }
}

impl vstd::std_specs::cmp::PartialEqSpecImpl for Item {
    open spec fn obeys_eq_spec() -> bool {
        true
    }

    open spec fn eq_spec(&self, other: &Item) -> bool {
        self.id == other.id
    }
}

impl Item {
    pub fn builder() -> (r: ItemBuilder)
        ensures
            r.is_fresh(),
    {
        ItemBuilder::new()
    }

    fn apply_pass(&self, stats: &mut StatBlock, pass: ModifierPass)
        ensures
            final(stats).stats@ == pass_applied(old(stats).stats@, self.modifiers@, pass),
    {
        let mut i: usize = 0;
        while i < self.modifiers.len()
            invariant
                i <= self.modifiers.len(),
                stats.stats@ == pass_applied(
                    old(stats).stats@,
                    self.modifiers@.subrange(0, i as int),
                    pass,
                ),
            decreases self.modifiers.len() - i,
        {
            let m = &self.modifiers[i];
            if *m.pass() == pass {
                m.apply_to(ModifierTarget::Item(stats));
            }
            assert(self.modifiers@.subrange(0, i + 1).drop_last() =~= self.modifiers@.subrange(
                0,
                i as int,
            ));
            i = i + 1;
        }
        assert(self.modifiers@.subrange(0, self.modifiers.len() as int) =~= self.modifiers@);
    }

    /// The item's effective stats; the item itself is left as it is.
    pub fn get_derived_stats(&self) -> (r: StatBlock)
        ensures
            r.stats@ == derived_item_stats(self.base_stats.stats@, self.modifiers@),
    {
        let mut stats = self.base_stats.clone();
        self.apply_pass(&mut stats, ModifierPass::Flat);
        self.apply_pass(&mut stats, ModifierPass::Increased);
        stats
    }

    /// The item's effective requirements; the item itself is left as it is.
    pub fn get_derived_requirements(&self) -> (r: RequirementBlock)
        ensures
            r.requirements@ == derived_item_requirements(
                self.requirements.requirements@,
                self.modifiers@,
            ),
    {
        let mut reqs = self.requirements.clone();
        let mut i: usize = 0;
        while i < self.modifiers.len()
            invariant
                i <= self.modifiers.len(),
                reqs.requirements@ == derived_item_requirements(
                    self.requirements.requirements@,
                    self.modifiers@.subrange(0, i as int),
                ),
            decreases self.modifiers.len() - i,
        {
            let m = &self.modifiers[i];
            if *m.pass() == ModifierPass::Requirements {
                m.apply_to(ModifierTarget::Requirements(&mut reqs));
            }
            assert(self.modifiers@.subrange(0, i + 1).drop_last() =~= self.modifiers@.subrange(
                0,
                i as int,
            ));
            i = i + 1;
        }
        assert(self.modifiers@.subrange(0, self.modifiers.len() as int) =~= self.modifiers@);
        reqs
    }
}

} // verus!
