use vstd::prelude::*;

use crate::item::{fresh_item_id, Item, ItemClass, ItemRarity};
use crate::modifier::ItemModifier;
use crate::requirement::{RequirementBlock, StatRequirement};
use crate::stat::{added, Stat, StatBlock, StatType};

verus! {

/// The one way building an item fails: no base name was given.
#[derive(Debug)]
pub struct ItemCreationError(String);

/// Message of the error for a missing base name.
pub open spec fn missing_base_message() -> Seq<char> {
    "Item Base not specified"@
}

impl ItemCreationError {
    pub closed spec fn spec_message(&self) -> Seq<char> {
        self.0@
    }

    pub fn message(&self) -> (r: &String)
        ensures
            r@ == self.spec_message(),
    {
        &self.0
    }

    /// The error as displayed: `Item creation error: <message>`.
    pub fn to_string(&self) -> (r: String)
        ensures
            r@ == "Item creation error: "@ + self.spec_message(),
    {
        let mut out = String::from_str("Item creation error: ");
        out.append(self.0.as_str());
        out
    }
}

/// Collects an item's data; `build` checks that a base name was given.
pub struct ItemBuilder {
    name: Option<String>,
    item_base: Option<String>,
    rarity: ItemRarity,
    item_class: ItemClass,
    requirements: RequirementBlock,
    base_stats: StatBlock,
    modifiers: Vec<ItemModifier>,
}

impl ItemBuilder {
    pub closed spec fn spec_name(&self) -> Option<String> {
        self.name
    }

    pub closed spec fn spec_base(&self) -> Option<String> {
        self.item_base
    }

    pub closed spec fn spec_rarity(&self) -> ItemRarity {
        self.rarity
    }

    pub closed spec fn spec_class(&self) -> ItemClass {
        self.item_class
    }

    pub closed spec fn spec_requirements(&self) -> Seq<StatRequirement> {
        self.requirements.requirements@
    }

    pub closed spec fn spec_stats(&self) -> Seq<Stat> {
        self.base_stats.stats@
    }

    pub closed spec fn spec_modifiers(&self) -> Seq<ItemModifier> {
        self.modifiers@
    }

    /// Nothing set yet: no names, normal rarity, no class, no data.
    pub open spec fn is_fresh(&self) -> bool {
        &&& self.spec_name() is None
        &&& self.spec_base() is None
        &&& self.spec_rarity() == ItemRarity::Normal
        &&& self.spec_class() == ItemClass::Unclassified
        &&& self.spec_requirements() == Seq::<StatRequirement>::empty()
        &&& self.spec_stats() == Seq::<Stat>::empty()
        &&& self.spec_modifiers() == Seq::<ItemModifier>::empty()
    }

    pub fn new() -> (r: Self)
        ensures
            r.is_fresh(),
    {
        Self::default()
    }

    pub fn name(self, name: String) -> (r: Self)
        ensures
            r.spec_name() == Some(name),
            r.spec_base() == self.spec_base(),
            r.spec_rarity() == self.spec_rarity(),
            r.spec_class() == self.spec_class(),
            r.spec_requirements() == self.spec_requirements(),
            r.spec_stats() == self.spec_stats(),
            r.spec_modifiers() == self.spec_modifiers(),
    {
        let mut b = self;
        b.name = Some(name);
        b
    }

    pub fn base(self, base: String) -> (r: Self)
        ensures
            r.spec_name() == self.spec_name(),
            r.spec_base() == Some(base),
            r.spec_rarity() == self.spec_rarity(),
            r.spec_class() == self.spec_class(),
            r.spec_requirements() == self.spec_requirements(),
            r.spec_stats() == self.spec_stats(),
            r.spec_modifiers() == self.spec_modifiers(),
    {
        let mut b = self;
        b.item_base = Some(base);
        b
    }

    pub fn class(self, class: ItemClass) -> (r: Self)
        ensures
            r.spec_name() == self.spec_name(),
            r.spec_base() == self.spec_base(),
            r.spec_rarity() == self.spec_rarity(),
            r.spec_class() == class,
            r.spec_requirements() == self.spec_requirements(),
            r.spec_stats() == self.spec_stats(),
            r.spec_modifiers() == self.spec_modifiers(),
    {
        let mut b = self;
        b.item_class = class;
        b
    }

    pub fn rarity(self, rarity: ItemRarity) -> (r: Self)
        ensures
            r.spec_name() == self.spec_name(),
            r.spec_base() == self.spec_base(),
            r.spec_rarity() == rarity,
            r.spec_class() == self.spec_class(),
            r.spec_requirements() == self.spec_requirements(),
            r.spec_stats() == self.spec_stats(),
            r.spec_modifiers() == self.spec_modifiers(),
    {
        let mut b = self;
        b.rarity = rarity;
        b
    }

    /// Adds a base stat; a kind given twice keeps its first value.
    pub fn with_stat(self, stat_type: StatType, value: i32) -> (r: Self)
        ensures
            r.spec_name() == self.spec_name(),
            r.spec_base() == self.spec_base(),
            r.spec_rarity() == self.spec_rarity(),
            r.spec_class() == self.spec_class(),
            r.spec_requirements() == self.spec_requirements(),
            r.spec_stats() == added(self.spec_stats(), Stat { stat_type, value }),
            r.spec_modifiers() == self.spec_modifiers(),
    {
        let mut b = self;
        b.base_stats.add(Stat { stat_type, value });
        b
    }

    /// Appends a modifier to the ordered list.
    pub fn with_modifier(self, modifier: ItemModifier) -> (r: Self)
        ensures
            r.spec_name() == self.spec_name(),
            r.spec_base() == self.spec_base(),
            r.spec_rarity() == self.spec_rarity(),
            r.spec_class() == self.spec_class(),
            r.spec_requirements() == self.spec_requirements(),
            r.spec_stats() == self.spec_stats(),
            r.spec_modifiers() == self.spec_modifiers().push(modifier),
    {
        let mut b = self;
        b.modifiers.push(modifier);
        b
    }

    /// Appends a requirement.
    pub fn with_requirement(self, stat_type: StatType, value: i32) -> (r: Self)
        ensures
            r.spec_name() == self.spec_name(),
            r.spec_base() == self.spec_base(),
            r.spec_rarity() == self.spec_rarity(),
            r.spec_class() == self.spec_class(),
            r.spec_requirements() == self.spec_requirements().push(
                StatRequirement { stat_type, amount: value },
            ),
            r.spec_stats() == self.spec_stats(),
            r.spec_modifiers() == self.spec_modifiers(),
    {
        let mut b = self;
        b.requirements.requirements.push(StatRequirement { stat_type, amount: value });
        b
    }

    /// The item with a fresh identifier, or an error when no base name was given.
    pub fn build(self) -> (r: Result<Item, ItemCreationError>)
        ensures
            r is Ok <==> self.spec_base() is Some,
            match r {
                Ok(item) => {
                    &&& Some(item.item_base) == self.spec_base()
                    &&& item.name == self.spec_name()
                    &&& item.rarity == self.spec_rarity()
                    &&& item.item_class == self.spec_class()
                    &&& item.requirements.requirements@ == self.spec_requirements()
                    &&& item.base_stats.stats@ == self.spec_stats()
                    &&& item.modifiers@ == self.spec_modifiers()
                },
                Err(e) => e.spec_message() == missing_base_message(),
            },
    {
        let item_base = match self.item_base {
            None => {
                return Err(ItemCreationError(String::from_str("Item Base not specified")));
            },
            Some(base) => base,
        };
        Ok(
            Item {
                id: fresh_item_id(),
                item_base,
                name: self.name,
                rarity: self.rarity,
                item_class: self.item_class,
                requirements: self.requirements,
                base_stats: self.base_stats,
                modifiers: self.modifiers,
            },
        )
    }
}

impl Default for ItemBuilder {
    fn default() -> (r: Self)
        ensures
            r.is_fresh(),
    {
        ItemBuilder {
            name: None,
            item_base: None,
            rarity: ItemRarity::Normal,
            item_class: ItemClass::Unclassified,
            requirements: RequirementBlock::default(),
            base_stats: StatBlock::default(),
            modifiers: Vec::new(),
        }
    }
}

} // verus!
