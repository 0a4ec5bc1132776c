use arpg_core::item::{ArmourType, EquipmentType, Item, ItemClass, ItemRarity, WeaponType};
use arpg_core::modifier::{
    BasicStatModifier, CompositeStatModifier, FlatStatModifier, FrontStatModifier, ItemModifier,
    Modifier, ModifierKind, ModifierPass, ModifierTarget, ModifierTargetKind, RequirementModifier,
};
use arpg_core::player::Player;
use arpg_core::requirement::{RequirementBlock, StatRequirement};
use arpg_core::stat::{Stat, StatBlock, StatType};

fn value_of(stats: &StatBlock, kind: StatType) -> Option<i32> {
    stats.get(kind).map(|s| s.value)
}

fn flat(value: i32, stat: StatType, target: ModifierTargetKind) -> ItemModifier {
    ItemModifier::Flat(FlatStatModifier { value, stat, target })
}

fn percent(value: i32, stat: StatType, target: ModifierTargetKind) -> ItemModifier {
    ItemModifier::Basic(BasicStatModifier {
        value,
        stat,
        modifier_kind: ModifierKind::Percent,
        modifier_pass: ModifierPass::Increased,
        target,
    })
}

#[test]
fn add_keeps_existing_value() {
    let mut block = StatBlock { stats: vec![Stat::new(StatType::Strength, 15)] };
    block.add(Stat::new(StatType::Strength, 99));
    assert_eq!(block.stats.len(), 1);
    assert_eq!(value_of(&block, StatType::Strength), Some(15));
    block.add(Stat::new(StatType::Life, 40));
    assert_eq!(block.stats.len(), 2);
    assert_eq!(value_of(&block, StatType::Life), Some(40));
}

#[test]
fn lookups_by_kind() {
    let mut block = StatBlock {
        stats: vec![Stat::new(StatType::Dexterity, 13), Stat::new(StatType::Defense, 5)],
    };
    assert!(block.has(StatType::Defense));
    assert!(!block.has(StatType::Life));
    assert!(block.get(StatType::Life).is_none());
    assert!(block.get_mut(StatType::Life).is_none());
    if let Some(s) = block.get_mut(StatType::Defense) {
        s.value = 9;
    }
    assert_eq!(value_of(&block, StatType::Defense), Some(9));
    assert_eq!(value_of(&block, StatType::Dexterity), Some(13));
    assert!(StatBlock::default().stats.is_empty());
}

#[test]
fn flat_pass_runs_before_increased_pass() {
    // The percent modifier is listed first, yet runs after the flat one.
    let item = Item::builder()
        .base(String::from("Club"))
        .with_stat(StatType::MinimumDamage, 10)
        .with_modifier(percent(50, StatType::MinimumDamage, ModifierTargetKind::Item))
        .with_modifier(flat(10, StatType::MinimumDamage, ModifierTargetKind::Item))
        .build()
        .unwrap();
    assert_eq!(value_of(&item.get_derived_stats(), StatType::MinimumDamage), Some(30));
}

#[test]
fn percent_modifiers_compound_with_truncation() {
    let derive = |base: i32, first: i32, second: i32| {
        let item = Item::builder()
            .base(String::from("Club"))
            .with_stat(StatType::MaximumDamage, base)
            .with_modifier(percent(first, StatType::MaximumDamage, ModifierTargetKind::Item))
            .with_modifier(percent(second, StatType::MaximumDamage, ModifierTargetKind::Item))
            .build()
            .unwrap();
        value_of(&item.get_derived_stats(), StatType::MaximumDamage)
    };
    assert_eq!(derive(7, 50, 50), Some(15));
    assert_eq!(derive(10, 50, 10), Some(16));
    assert_eq!(derive(10, 50, -50), Some(7));
    assert_eq!(derive(-7, 50, 0), Some(-10));
}

#[test]
fn character_modifier_leaves_item_stats_alone() {
    let item = Item::builder()
        .base(String::from("Ring"))
        .with_stat(StatType::Life, 40)
        .with_modifier(flat(5, StatType::Life, ModifierTargetKind::Character))
        .build()
        .unwrap();
    assert_eq!(value_of(&item.get_derived_stats(), StatType::Life), Some(40));
}

#[test]
fn item_modifier_leaves_wearer_stats_alone() {
    let item = Item::builder()
        .base(String::from("Short Sword"))
        .with_stat(StatType::MinimumDamage, 3)
        .with_modifier(flat(5, StatType::Dexterity, ModifierTargetKind::Item))
        .with_modifier(flat(2, StatType::Strength, ModifierTargetKind::Character))
        .build()
        .unwrap();
    let mut player = Player::new(StatBlock {
        stats: vec![Stat::new(StatType::Strength, 15), Stat::new(StatType::Dexterity, 13)],
    });
    player.equip(item);
    let stats = player.get_derived_stats();
    assert_eq!(value_of(&stats, StatType::Dexterity), Some(13));
    assert_eq!(value_of(&stats, StatType::Strength), Some(17));
    assert_eq!(value_of(&stats, StatType::MinimumDamage), Some(3));
}

#[test]
fn requirement_modifier_scales_requirements() {
    let item = Item::builder()
        .base(String::from("Short Sword"))
        .with_requirement(StatType::Strength, 1000)
        .with_modifier(ItemModifier::Requirement(RequirementModifier { value: -98 }))
        .build()
        .unwrap();
    let reqs = item.get_derived_requirements();
    assert_eq!(reqs.requirements, vec![StatRequirement { stat_type: StatType::Strength, amount: 20 }]);
    assert_eq!(item.requirements.requirements[0].amount, 1000);
}

#[test]
fn requirement_modifiers_compound_in_order() {
    let item = Item::builder()
        .base(String::from("Belt"))
        .with_requirement(StatType::Level, 68)
        .with_requirement(StatType::Strength, 25)
        .with_modifier(ItemModifier::Requirement(RequirementModifier { value: -30 }))
        .with_modifier(ItemModifier::Requirement(RequirementModifier { value: 10 }))
        .build()
        .unwrap();
    let reqs = item.get_derived_requirements();
    // 68 * 0.7 = 47.6 -> 47, 47 * 1.1 = 51.7 -> 51; 25 * 0.7 = 17.5 -> 17, 17 * 1.1 = 18.7 -> 18
    assert_eq!(reqs.requirements[0].amount, 51);
    assert_eq!(reqs.requirements[1].amount, 18);
}

fn excalibur() -> Item {
    Item::builder()
        .name(String::from("Excalibur"))
        .base(String::from("Short Sword"))
        .rarity(ItemRarity::Magic)
        .class(ItemClass::Equipment(EquipmentType::Weapon(WeaponType::Sword)))
        .with_requirement(StatType::Strength, 1000)
        .with_stat(StatType::MinimumDamage, 3)
        .with_stat(StatType::MaximumDamage, 5)
        .with_modifier(flat(5, StatType::Dexterity, ModifierTargetKind::Item))
        .with_modifier(flat(5, StatType::MinimumDamage, ModifierTargetKind::Item))
        .with_modifier(flat(10, StatType::MaximumDamage, ModifierTargetKind::Item))
        .with_modifier(ItemModifier::Front(FrontStatModifier {
            value: 50,
            front: StatType::IncreasedDamage,
            stats: vec![StatType::MinimumDamage, StatType::MaximumDamage],
            modifier_kind: ModifierKind::Percent,
            modifier_pass: ModifierPass::Increased,
            target: ModifierTargetKind::Item,
        }))
        .with_modifier(ItemModifier::Requirement(RequirementModifier { value: -98 }))
        .build()
        .unwrap()
}

#[test]
fn end_to_end_damage() {
    let item = excalibur();
    let stats = item.get_derived_stats();
    assert_eq!(value_of(&stats, StatType::MinimumDamage), Some(12));
    assert_eq!(value_of(&stats, StatType::MaximumDamage), Some(22));
    assert_eq!(stats.stats.len(), 2);
    assert_eq!(value_of(&item.base_stats, StatType::MinimumDamage), Some(3));

    let player = StatBlock { stats: vec![Stat::new(StatType::Strength, 15)] };
    let shown = item.present(&player);
    let damage = shown.damage.unwrap();
    assert_eq!((damage.min, damage.max, damage.is_modified), (12, 22, true));
    assert_eq!(shown.item_base, "Short Sword");
    assert_eq!(shown.name, Some(String::from("Excalibur")));
    assert_eq!(shown.rarity, ItemRarity::Magic);
    assert_eq!(shown.item_class, "Sword");
    assert_eq!(shown.requirements.len(), 1);
    assert_eq!(shown.requirements[0].requirement.amount, 20);
    assert!(!shown.requirements[0].is_met);
    assert!(shown.requirements[0].is_modified);
    assert_eq!(
        shown.modifiers,
        vec![
            "+5 Dexterity",
            "+5 Minimum Damage",
            "+10 Maximum Damage",
            "+50% Increased Damage",
            "98% Reduced Requirements",
        ]
    );
}

#[test]
fn requirement_met_and_unmet() {
    let player = StatBlock { stats: vec![Stat::new(StatType::Dexterity, 13)] };
    let dex = player.get(StatType::Dexterity).unwrap();
    assert!(StatRequirement { stat_type: StatType::Dexterity, amount: 12 }.is_met(dex));
    assert!(!StatRequirement { stat_type: StatType::Dexterity, amount: 15 }.is_met(dex));
    assert!(!StatRequirement { stat_type: StatType::Strength, amount: 1 }.is_met(dex));

    let item = Item::builder()
        .base(String::from("Kris"))
        .class(ItemClass::Equipment(EquipmentType::Weapon(WeaponType::Dagger)))
        .with_requirement(StatType::Dexterity, 12)
        .with_requirement(StatType::Dexterity, 15)
        .with_requirement(StatType::Intelligence, 10)
        .build()
        .unwrap();
    let shown = item.present(&player);
    let met: Vec<bool> = shown.requirements.iter().map(|r| r.is_met).collect();
    assert_eq!(met, vec![true, false, false]);
    assert!(shown.requirements.iter().all(|r| !r.is_modified));
    assert!(shown.damage.is_none());
}

fn armour_with_defense() -> Item {
    Item::builder()
        .base(String::from("Plate"))
        .class(ItemClass::Equipment(EquipmentType::Armour(ArmourType::BodyArmour)))
        .with_stat(StatType::Defense, 40)
        .build()
        .unwrap()
}

#[test]
fn granted_stat_precedence() {
    let mut bare = Player::new(StatBlock { stats: vec![Stat::new(StatType::Strength, 15)] });
    bare.equip(armour_with_defense());
    assert_eq!(value_of(&bare.get_derived_stats(), StatType::Defense), Some(40));

    let mut armoured = Player::new(StatBlock { stats: vec![Stat::new(StatType::Defense, 5)] });
    armoured.equip(armour_with_defense());
    let stats = armoured.get_derived_stats();
    assert_eq!(value_of(&stats, StatType::Defense), Some(5));
    assert_eq!(stats.stats.len(), 1);
}

#[test]
fn first_item_to_grant_a_stat_wins() {
    let second = Item::builder()
        .base(String::from("Leather Belt"))
        .with_stat(StatType::Defense, 7)
        .build()
        .unwrap();
    let mut player = Player::new(StatBlock::default());
    player.equip(armour_with_defense());
    player.equip(second);
    assert_eq!(value_of(&player.get_derived_stats(), StatType::Defense), Some(40));
}

#[test]
fn character_modifiers_apply_in_list_order_across_passes() {
    // Character derivation walks the list once: the percent runs before the flat.
    let item = Item::builder()
        .base(String::from("Amulet"))
        .with_modifier(percent(50, StatType::Strength, ModifierTargetKind::Character))
        .with_modifier(flat(10, StatType::Strength, ModifierTargetKind::Character))
        .build()
        .unwrap();
    let mut player = Player::new(StatBlock { stats: vec![Stat::new(StatType::Strength, 10)] });
    player.equip(item);
    assert_eq!(value_of(&player.get_derived_stats(), StatType::Strength), Some(25));
    assert_eq!(value_of(&player.base_stats, StatType::Strength), Some(10));
}

#[test]
fn build_without_base_fails() {
    let err = Item::builder().name(String::from("Nameless")).build().unwrap_err();
    assert_eq!(err.message(), "Item Base not specified");
    assert_eq!(err.to_string(), "Item creation error: Item Base not specified");
}

#[test]
fn builder_defaults_and_fields() {
    let item = Item::builder().base(String::from("Kris")).build().unwrap();
    assert_eq!(item.item_base, "Kris");
    assert_eq!(item.name, None);
    assert_eq!(item.rarity, ItemRarity::Normal);
    assert_eq!(item.item_class, ItemClass::Unclassified);
    assert!(item.modifiers.is_empty());
    assert!(item.base_stats.stats.is_empty());
    assert!(item.requirements.requirements.is_empty());
    assert_eq!(item.item_class.label(), "None");
}

#[test]
fn builder_keeps_first_value_of_repeated_stat() {
    let item = Item::builder()
        .base(String::from("Kris"))
        .with_stat(StatType::Life, 10)
        .with_stat(StatType::Life, 20)
        .build()
        .unwrap();
    assert_eq!(item.base_stats.stats, vec![Stat::new(StatType::Life, 10)]);
}

#[test]
fn built_items_get_distinct_ids() {
    let a = Item::builder().base(String::from("Ring")).build().unwrap();
    let b = Item::builder().base(String::from("Ring")).build().unwrap();
    assert_ne!(a.id, b.id);
    assert!(a != b);
    assert!(a == a);
}

#[test]
fn equip_unequip_pickup_drop() {
    let sword = excalibur();
    let ring = Item::builder().base(String::from("Ring")).build().unwrap();
    let ring_id = ring.id;
    let mut player = Player::new(StatBlock::default());
    player.pickup(ring);
    player.equip(sword);
    assert_eq!(player.inventory.len(), 1);
    assert_eq!(player.equippement.len(), 1);

    let probe = Item::builder().base(String::from("Other")).build().unwrap();
    assert!(player.drop(&probe).is_none());
    assert!(player.unnequip(&probe).is_none());

    let ring_ref = Item { id: ring_id, ..Item::builder().base(String::from("x")).build().unwrap() };
    let dropped = player.drop(&ring_ref).unwrap();
    assert_eq!(dropped.item_base, "Ring");
    assert_eq!(player.inventory.len(), 0);
    assert_eq!(player.equippement.len(), 1);
    let names: Vec<&str> = player.equippement.iter().map(|i| i.item_base.as_str()).collect();
    assert_eq!(names, vec!["Short Sword"]);
}

#[test]
fn modifier_descriptions() {
    let composite = CompositeStatModifier::new(
        vec![20, 20, 20],
        vec![StatType::Strength, StatType::Dexterity, StatType::Intelligence],
        ModifierKind::Flat,
        ModifierPass::Flat,
        ModifierTargetKind::Character,
    );
    assert_eq!(composite.description(), "+20 Strength, +20 Dexterity, +20 Intelligence");
    assert_eq!(composite.get_affected_stat(), StatType::Strength);
    let composite_percent = CompositeStatModifier::new(
        vec![5],
        vec![StatType::Life],
        ModifierKind::Percent,
        ModifierPass::Increased,
        ModifierTargetKind::Item,
    );
    assert_eq!(composite_percent.description(), "+%5 Life");
    assert_eq!(
        FlatStatModifier { value: -3, stat: StatType::Defense, target: ModifierTargetKind::Item }
            .description(),
        "+-3 Defence"
    );
    assert_eq!(
        BasicStatModifier {
            value: 35,
            stat: StatType::IncreasedAttackSpeed,
            modifier_kind: ModifierKind::Percent,
            modifier_pass: ModifierPass::Increased,
            target: ModifierTargetKind::Item,
        }
        .description(),
        "+35% Increased Attack Speed"
    );
    assert_eq!(RequirementModifier { value: 30 }.description(), "30% Increased Requirements");
    assert_eq!(RequirementModifier { value: -30 }.description(), "30% Reduced Requirements");
    assert_eq!(*RequirementModifier { value: -30 }.pass(), ModifierPass::Requirements);
}

#[test]
fn composite_applies_each_value_to_its_stat() {
    let mut stats = StatBlock {
        stats: vec![Stat::new(StatType::Strength, 10), Stat::new(StatType::Intelligence, 8)],
    };
    let composite = CompositeStatModifier::new(
        vec![20, 5, 50],
        vec![StatType::Strength, StatType::Dexterity, StatType::Intelligence],
        ModifierKind::Flat,
        ModifierPass::Flat,
        ModifierTargetKind::Character,
    );
    composite.apply_to(ModifierTarget::Item(&mut stats));
    assert_eq!(value_of(&stats, StatType::Strength), Some(10));
    composite.apply_to(ModifierTarget::Character(&mut stats));
    assert_eq!(value_of(&stats, StatType::Strength), Some(30));
    assert_eq!(value_of(&stats, StatType::Intelligence), Some(58));
    assert!(!stats.has(StatType::Dexterity));
}

#[test]
fn requirement_modifier_ignores_stat_targets() {
    let mut stats = StatBlock { stats: vec![Stat::new(StatType::Strength, 10)] };
    RequirementModifier { value: -50 }.apply_to(ModifierTarget::Character(&mut stats));
    assert_eq!(value_of(&stats, StatType::Strength), Some(10));
    let mut reqs = RequirementBlock::default();
    reqs.requirements.push(StatRequirement { stat_type: StatType::Level, amount: 43 });
    RequirementModifier { value: -50 }.apply_to(ModifierTarget::Requirements(&mut reqs));
    assert_eq!(reqs.requirements[0].amount, 21);
    let mut target = ModifierTarget::Requirements(&mut reqs);
    assert_eq!(target.kind(), ModifierTargetKind::Requirements);
    target = ModifierTarget::Item(&mut stats);
    assert_eq!(target.kind(), ModifierTargetKind::Item);
}

#[test]
fn arithmetic_saturates() {
    let mut stats = StatBlock { stats: vec![Stat::new(StatType::Life, i32::MAX - 1)] };
    FlatStatModifier { value: 10, stat: StatType::Life, target: ModifierTargetKind::Item }
        .apply_to(ModifierTarget::Item(&mut stats));
    assert_eq!(value_of(&stats, StatType::Life), Some(i32::MAX));
    percent(100, StatType::Life, ModifierTargetKind::Item).apply_to(ModifierTarget::Item(&mut stats));
    assert_eq!(value_of(&stats, StatType::Life), Some(i32::MAX));
}

#[test]
fn damage_line_needs_weapon_and_both_bounds() {
    let player = StatBlock::default();
    let unmodified_axe = Item::builder()
        .base(String::from("Hand Axe"))
        .class(ItemClass::Equipment(EquipmentType::Weapon(WeaponType::Axe)))
        .with_stat(StatType::MinimumDamage, 2)
        .with_stat(StatType::MaximumDamage, 6)
        .build()
        .unwrap();
    let damage = unmodified_axe.present(&player).damage.unwrap();
    assert_eq!((damage.min, damage.max, damage.is_modified), (2, 6, false));

    let one_bound = Item::builder()
        .base(String::from("Hand Axe"))
        .class(ItemClass::Equipment(EquipmentType::Weapon(WeaponType::Axe)))
        .with_stat(StatType::MinimumDamage, 2)
        .build()
        .unwrap();
    assert!(one_bound.present(&player).damage.is_none());

    let helmet = Item::builder()
        .base(String::from("Shako"))
        .class(ItemClass::Equipment(EquipmentType::Armour(ArmourType::Helmet)))
        .with_stat(StatType::MinimumDamage, 2)
        .with_stat(StatType::MaximumDamage, 6)
        .build()
        .unwrap();
    let shown = helmet.present(&player);
    assert!(shown.damage.is_none());
    assert_eq!(shown.item_class, "Helmet");
}
