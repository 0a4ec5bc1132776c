use std::cell::RefCell;
use std::rc::Rc;

use arpg_core::inventory::Inventory;
use arpg_core::item::{EquipmentType, Item, ItemClass, ItemRarity, WeaponType};
use arpg_core::modifier::{
    FlatStatModifier, FrontStatModifier, ItemModifier, ModifierKind, ModifierPass,
    ModifierTargetKind, RequirementModifier,
};
use arpg_core::player::Player;
use arpg_core::presentation::ItemViewModel;
use arpg_core::render::{
    BoldDecorator, ColorDecorator, ConsoleTextRenderer, ConsoleUI, Decoration,
    HighlightDecorator, HighlightModificationDecorator, ItalicDecorator, NewLineDecorator,
    TextRenderer, TextRendererBuilder, UnderlineDecorator,
};
use arpg_core::stat::{Stat, StatBlock, StatType};
use arpg_core::ui::{
    EquipmentSlot, EquipmentState, Focusable, InputEvent, InputHandler, InventoryState,
    ItemPopupState, KeyCode, KeyInput, Observer, PlayerState, Publisher, RatatuiApp, Screen,
    StatState, UIEvent, WorldState,
};
use arpg_core::view::{
    ItemView, PlayerView, StatBlockViewModel, StatViewModel, StatsView, TextStyle, TextView,
};

const RESET: &str = "\x1b[0m";

fn press(code: KeyCode) -> KeyInput {
    KeyInput { code, is_press: true }
}

fn text(value: &str, style: TextStyle) -> TextView {
    TextView { value: String::from(value), style }
}

fn excalibur() -> Item {
    Item::builder()
        .name(String::from("Excalibur"))
        .base(String::from("Short Sword"))
        .rarity(ItemRarity::Magic)
        .class(ItemClass::Equipment(EquipmentType::Weapon(WeaponType::Sword)))
        .with_requirement(StatType::Strength, 1000)
        .with_stat(StatType::MinimumDamage, 3)
        .with_stat(StatType::MaximumDamage, 5)
        .with_modifier(ItemModifier::Flat(FlatStatModifier {
            value: 5,
            stat: StatType::MinimumDamage,
            target: ModifierTargetKind::Item,
        }))
        .with_modifier(ItemModifier::Front(FrontStatModifier {
            value: 50,
            front: StatType::IncreasedDamage,
            stats: vec![StatType::MinimumDamage, StatType::MaximumDamage],
            modifier_kind: ModifierKind::Percent,
            modifier_pass: ModifierPass::Increased,
            target: ModifierTargetKind::Item,
        }))
        .with_modifier(ItemModifier::Requirement(RequirementModifier { value: -98 }))
        .build()
        .unwrap()
}

#[test]
fn style_follows_rarity() {
    assert_eq!(TextStyle::from_rarity(ItemRarity::Normal), TextStyle::Normal);
    assert_eq!(TextStyle::from_rarity(ItemRarity::Magic), TextStyle::Magic);
    assert_eq!(TextStyle::from_rarity(ItemRarity::Rare), TextStyle::Rare);
    assert_eq!(TextStyle::from_rarity(ItemRarity::Unique), TextStyle::Unique);
}

#[test]
fn item_view_lines() {
    let player = StatBlock { stats: vec![Stat::new(StatType::Strength, 15)] };
    let view = ItemView::from_presentation(&excalibur().present(&player));
    let name = view.item_name.unwrap();
    assert_eq!((name.value.as_str(), name.style), ("Excalibur", TextStyle::Magic));
    assert_eq!(view.item_base.value, "Short Sword");
    let damage = view.damage.unwrap();
    assert_eq!(damage.value, "Damage: %mod_start12 to 7%mod_end");
    assert_eq!(damage.style, TextStyle::ColorWhenModified);
    assert_eq!(view.requirements.len(), 1);
    assert_eq!(view.requirements[0].value, "Required Strength: %mod_start20%mod_end");
    assert_eq!(view.requirements[0].style, TextStyle::UnfulfilledRequirement);
    assert_eq!(view.item_class.value, "Sword");
    let lines: Vec<&str> = view.description.iter().map(|t| t.value.as_str()).collect();
    assert_eq!(
        lines,
        vec!["+5 Minimum Damage", "+50% Increased Damage", "98% Reduced Requirements"]
    );
    assert!(view.description.iter().all(|t| t.style == TextStyle::Magic));
}

#[test]
fn item_view_model_needs_base_minimum_damage() {
    let player = StatBlock::default();
    let model = ItemViewModel::from(&excalibur(), &player);
    let damage = model.damage.unwrap();
    assert_eq!((damage.min, damage.max), (12, 7));
    assert_eq!(model.item_class, "Sword");

    let granted_only = Item::builder()
        .base(String::from("Wand"))
        .class(ItemClass::Equipment(EquipmentType::Weapon(WeaponType::Dagger)))
        .with_stat(StatType::MaximumDamage, 4)
        .build()
        .unwrap();
    assert!(ItemViewModel::from(&granted_only, &player).damage.is_none());
}

#[test]
fn stat_lines() {
    let block = StatBlock {
        stats: vec![Stat::new(StatType::Strength, 15), Stat::new(StatType::Life, -3)],
    };
    let view = StatsView::from_stats(&block);
    let lines: Vec<&str> = view.stats.iter().map(|t| t.value.as_str()).collect();
    assert_eq!(lines, vec!["Strength: 15", "Life: -3"]);
    assert_eq!(TextView::from_stat(Stat::new(StatType::Defense, 0)).value, "Defence: 0");
    assert_eq!(
        StatViewModel::from_stat(&Stat::new(StatType::IncreasedAttackSpeed, 35)).value,
        "Increased Attack Speed: 35"
    );
    let state = StatState::new(block);
    let model = StatBlockViewModel::from_state(&state);
    assert_eq!(model.stats[1].value, "Life: -3");
    assert_eq!(StatBlockViewModel::from_stats(&state.stats).stats.len(), 2);
}

#[test]
fn player_view_lists_equipped_items() {
    let mut player = Player::new(StatBlock { stats: vec![Stat::new(StatType::Dexterity, 13)] });
    player.equip(excalibur());
    player.equip(
        Item::builder()
            .base(String::from("Leather Belt"))
            .rarity(ItemRarity::Unique)
            .with_stat(StatType::Life, 40)
            .build()
            .unwrap(),
    );
    let view = PlayerView::from_player(&player);
    let stats: Vec<&str> = view.stats.stats.iter().map(|t| t.value.as_str()).collect();
    assert_eq!(stats, vec!["Dexterity: 13", "Minimum Damage: 12", "Maximum Damage: 7", "Life: 40"]);
    let names: Vec<(&str, TextStyle)> =
        view.equipped_items.iter().map(|t| (t.value.as_str(), t.style)).collect();
    assert_eq!(names, vec![("Excalibur", TextStyle::Magic), ("Leather Belt", TextStyle::Unique)]);
}

#[test]
fn equipment_slots_wrap() {
    assert_eq!(EquipmentSlot::Boots.next(), EquipmentSlot::Helmet);
    assert_eq!(EquipmentSlot::Helmet.previous(), EquipmentSlot::Boots);
    assert_eq!(EquipmentSlot::Ring.next(), EquipmentSlot::Amulet);
    assert_eq!(EquipmentSlot::Weapon.label(), "Weapon");
    assert_eq!(EquipmentSlot::at(4), EquipmentSlot::Armour);
    assert_eq!(EquipmentSlot::Gloves.index(), 6);
}

#[test]
fn equipment_state_keys_and_focus() {
    let mut state = EquipmentState::new();
    assert_eq!(state.equipment.len(), 8);
    assert!(state.equipment.iter().all(|(_, item)| item.is_none()));
    assert!(state.handle_key_event(press(KeyCode::Down)) == InputEvent::Consumed);
    assert_eq!(state.selected, None);
    state.on_focus_gained();
    assert!(state.ui_state.focused);
    assert_eq!(state.selected, Some(EquipmentSlot::Helmet));
    state.handle_key_event(press(KeyCode::Up));
    assert_eq!(state.selected, Some(EquipmentSlot::Boots));
    state.handle_key_event(press(KeyCode::Down));
    state.handle_key_event(press(KeyCode::Down));
    assert_eq!(state.selected, Some(EquipmentSlot::Ring));
    assert!(state.handle_key_event(press(KeyCode::Enter)) == InputEvent::Ignored);
    state.on_focus_lost();
    assert!(!state.ui_state.focused);
    assert_eq!(state.selected, None);
}

struct Recorder {
    seen: Rc<RefCell<Vec<UIEvent>>>,
}

impl Observer for Recorder {
    fn on_ui_event(&mut self, event: UIEvent) {
        self.seen.borrow_mut().push(event);
    }
}

fn inventory_of(n: usize) -> Inventory {
    let mut inventory = Inventory::new();
    for _ in 0..n {
        inventory.add(Item::builder().base(String::from("Ring")).build().unwrap());
    }
    inventory
}

#[test]
fn inventory_selection_wraps_and_announces() {
    let seen = Rc::new(RefCell::new(Vec::new()));
    let mut state = InventoryState::new(inventory_of(3));
    state.add_on_item_selected_listener(Box::new(Recorder { seen: seen.clone() }));
    assert!(state.handle_key_event(press(KeyCode::Enter)) == InputEvent::Ignored);
    state.handle_key_event(press(KeyCode::Up));
    assert_eq!(state.selected, Some(0));
    state.handle_key_event(press(KeyCode::Up));
    assert_eq!(state.selected, Some(2));
    state.handle_key_event(press(KeyCode::Down));
    assert_eq!(state.selected, Some(0));
    state.handle_key_event(press(KeyCode::Down));
    assert_eq!(state.selected, Some(1));
    match state.handle_key_event(press(KeyCode::Enter)) {
        InputEvent::Selected(i) => assert_eq!(i, 1),
        _ => panic!("enter on a selected entry selects it"),
    }
    assert_eq!(*seen.borrow(), vec![UIEvent::InventoryItemSelected(1)]);
    assert!(state.handle_key_event(press(KeyCode::Char('x'))) == InputEvent::Ignored);
    state.on_focus_lost();
    assert_eq!(state.selected, None);
    state.on_focus_gained();
    assert_eq!(state.selected, Some(0));
    assert!(state.ui_state.focused);
}

#[test]
fn empty_inventory_selection_stays_put() {
    let mut state = InventoryState::new(Inventory::new());
    state.handle_key_event(press(KeyCode::Down));
    assert_eq!(state.selected, Some(0));
    state.handle_key_event(press(KeyCode::Down));
    assert_eq!(state.selected, Some(0));
    state.handle_key_event(press(KeyCode::Up));
    assert_eq!(state.selected, Some(0));
}

#[test]
fn publisher_tells_every_subscriber() {
    let seen = Rc::new(RefCell::new(Vec::new()));
    let mut publisher = Publisher::new();
    publisher.subscribe(Box::new(Recorder { seen: seen.clone() }));
    publisher.subscribe(Box::new(Recorder { seen: seen.clone() }));
    publisher.notify(UIEvent::EquipmentSlotSelected(EquipmentSlot::Belt));
    assert_eq!(seen.borrow().len(), 2);
}

#[test]
fn input_events_compare_by_variant() {
    assert!(InputEvent::Selected(1) == InputEvent::Selected(2));
    assert!(InputEvent::Consumed != InputEvent::Ignored);
    let mut popup = ItemPopupState::new(4);
    assert_eq!(popup.index, 4);
    assert!(popup.handle_key_event(press(KeyCode::Up)) == InputEvent::Ignored);
    popup.on_focus_gained();
    assert!(popup.ui_state.focused);
    let mut world = WorldState::new();
    world.on_focus_gained();
    assert!(world.ui_state.focused);
    world.on_focus_lost();
    assert!(!world.ui_state.focused);
}

fn app_with_items(n: usize) -> RatatuiApp {
    let mut player = Player::new(StatBlock { stats: vec![Stat::new(StatType::Strength, 15)] });
    for _ in 0..n {
        player.pickup(Item::builder().base(String::from("Ring")).build().unwrap());
    }
    RatatuiApp::new(PlayerState::from_player(player))
}

#[test]
fn app_switches_screens() {
    let mut app = app_with_items(2);
    assert_eq!(app.focus, Screen::Stats);
    assert!(app.handle_key_event(press(KeyCode::Char('i'))) == InputEvent::Consumed);
    assert_eq!(app.focus, Screen::Inventory);
    assert!(app.player_state.inventory_state.ui_state.focused);
    assert_eq!(app.player_state.inventory_state.selected, Some(0));
    app.handle_key_event(press(KeyCode::Tab));
    assert_eq!(app.focus, Screen::Stats);
    assert!(!app.player_state.inventory_state.ui_state.focused);
    app.handle_key_event(press(KeyCode::Tab));
    assert_eq!(app.focus, Screen::World);
    app.handle_key_event(press(KeyCode::Char('e')));
    assert_eq!(app.focus, Screen::Equipment);
    assert_eq!(app.player_state.equipment_state.selected, Some(EquipmentSlot::Helmet));
    app.handle_key_event(press(KeyCode::Down));
    assert_eq!(app.player_state.equipment_state.selected, Some(EquipmentSlot::Ring));
    let released = KeyInput { code: KeyCode::Char('s'), is_press: false };
    assert!(app.handle_key_event(released) == InputEvent::Ignored);
    assert_eq!(app.focus, Screen::Equipment);
    app.change_screen(Screen::World);
    assert_eq!(app.focus, Screen::World);
}

#[test]
fn app_popup_and_exit() {
    let mut app = app_with_items(2);
    app.handle_key_event(press(KeyCode::Char('i')));
    app.handle_key_event(press(KeyCode::Down));
    app.handle_key_event(press(KeyCode::Enter));
    match &app.popup {
        Some(arpg_core::ui::PopupType::Item(state)) => assert_eq!(state.index, 1),
        None => panic!("enter on an inventory entry opens its popup"),
    }
    // With the popup open, screen keys do nothing.
    app.handle_key_event(press(KeyCode::Char('s')));
    assert_eq!(app.focus, Screen::Inventory);
    app.handle_key_event(press(KeyCode::Esc));
    assert!(app.popup.is_none());
    assert!(!app.should_exit());
    app.handle_key_event(press(KeyCode::Esc));
    assert!(app.should_exit());
}

#[test]
fn decorators_wrap_the_inner_text() {
    let plain = ConsoleTextRenderer {};
    let t = text("Kris", TextStyle::Magic);
    assert_eq!(plain.render(&t), "Kris");
    assert_eq!(
        ColorDecorator { decoratee: plain }.render(&t),
        format!("\x1b[38;5;39mKris{}", RESET)
    );
    assert_eq!(BoldDecorator { decoratee: plain }.render(&t), format!("\x1b[1mKris{}", RESET));
    assert_eq!(ItalicDecorator { decoratee: plain }.render(&t), format!("\x1b[3mKris{}", RESET));
    assert_eq!(UnderlineDecorator { decoratee: plain }.render(&t), format!("\x1b[4mKris{}", RESET));
    assert_eq!(
        HighlightDecorator { decoratee: plain }.render(&t),
        format!("\x1b[1m\x1b[48;5;60mKris{}", RESET)
    );
    assert_eq!(NewLineDecorator { decoratee: plain }.render(&t), "Kris\n");
    let nested = NewLineDecorator { decoratee: BoldDecorator { decoratee: plain } };
    assert_eq!(nested.render(&t), format!("\x1b[1mKris{}\n", RESET));
}

#[test]
fn modification_markers_become_colours() {
    let plain = ConsoleTextRenderer {};
    let marked = text("Damage: %mod_start12 to 22%mod_end", TextStyle::ColorWhenModified);
    assert_eq!(
        HighlightModificationDecorator { decoratee: plain }.render(&marked),
        format!("Damage: \x1b[38;5;39m12 to 22{}", RESET)
    );
    let half = text("Damage: %mod_start12", TextStyle::Normal);
    assert_eq!(HighlightModificationDecorator { decoratee: plain }.render(&half), half.value);
}

#[test]
fn builder_stacks_layers() {
    let renderer = TextRendererBuilder::new().with_underline().with_bold().build();
    assert_eq!(renderer.layers, vec![Decoration::Underline, Decoration::Bold, Decoration::NewLine]);
    assert_eq!(
        renderer.render(&text("x", TextStyle::Normal)),
        format!("\x1b[1m\x1b[4mx{}{}\n", RESET, RESET)
    );
}

#[test]
fn console_ui_writes_an_item() {
    let ui = ConsoleUI::default();
    let view = ItemView {
        item_name: None,
        item_base: text("Kris", TextStyle::Normal),
        damage: None,
        requirements: vec![],
        item_class: text("None", TextStyle::Normal),
        description: vec![],
    };
    let expected = format!(
        "\x1b[3m\x1b[1mKris{r}{r}{r}{r}\n\x1b[3mNone{r}\n",
        r = RESET
    );
    assert_eq!(ui.display_item_view(&view), expected);

    let player = StatBlock::default();
    let full = ItemView::from_presentation(&excalibur().present(&player));
    let out = ui.display_item_view(&full);
    assert!(out.contains("Damage: \x1b[38;5;39m12 to 7\x1b[0m"));
    assert!(out.contains("\x1b[31mRequired Strength: %mod_start20%mod_end"));
    assert_eq!(out.matches('\n').count(), 8);
}
