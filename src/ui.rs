use vstd::prelude::*;

use crate::inventory::Inventory;
use crate::item::Item;
use crate::player::Player;
use crate::stat::StatBlock;

verus! {

/// The keys the screens react to.
#[derive(Clone, Copy, Debug, PartialEq, Eq, Structural)]
pub enum KeyCode {
    Up,
    Down,
    Enter,
    Esc,
    Tab,
    Char(char),
    Other,
}

/// A key event: which key, and whether it was pressed (rather than released
/// or repeated).
#[derive(Clone, Copy, Debug, PartialEq, Eq, Structural)]
pub struct KeyInput {
    pub code: KeyCode,
    pub is_press: bool,
}

/// What a screen did with a key.
#[derive(Clone, Copy, Debug)]
pub enum InputEvent {
    Consumed,
    Selected(usize),
    Ignored,
}

/// Two input events are equal when they are the same variant; a selection's
/// index is not compared.
pub open spec fn same_event(a: InputEvent, b: InputEvent) -> bool {
    match (a, b) {
        (InputEvent::Consumed, InputEvent::Consumed) => true,
        (InputEvent::Selected(_), InputEvent::Selected(_)) => true,
        (InputEvent::Ignored, InputEvent::Ignored) => true,
        _ => false,
    }
}

impl PartialEq for InputEvent {
    fn eq(&self, other: &Self) -> (r: bool)
        ensures
            r == same_event(*self, *other),
    {
        match (self, other) {
            (InputEvent::Consumed, InputEvent::Consumed) => true,
            (InputEvent::Selected(_), InputEvent::Selected(_)) => true,
            (InputEvent::Ignored, InputEvent::Ignored) => true,
            _ => false,
        }
    }
}

impl vstd::std_specs::cmp::PartialEqSpecImpl for InputEvent {
    open spec fn obeys_eq_spec() -> bool {
        true
    }

    open spec fn eq_spec(&self, other: &InputEvent) -> bool {
        same_event(*self, *other)
    }
}

/// A screen that reacts to keys.
pub trait InputHandler {
    fn handle_key_event(&mut self, key: KeyInput) -> InputEvent;
}

/// A screen that can gain and lose focus.
pub trait Focusable {
    spec fn is_focused(&self) -> bool;

    fn on_focus_gained(&mut self)
        ensures
            final(self).is_focused(),
    ;

    fn on_focus_lost(&mut self)
        ensures
            !final(self).is_focused(),
    ;
}

/// Focus flag shared by the screens.
#[derive(Clone, Copy, Debug, PartialEq, Eq, Structural)]
pub struct UIState {
    pub focused: bool,
}

/// The equipment slots, in display order.
#[derive(Clone, Copy, Debug, PartialEq, Eq, Hash, Structural)]
pub enum EquipmentSlot {
    Helmet,
    Ring,
    Amulet,
    Weapon,
    Armour,
    Belt,
    Gloves,
    Boots,
}

pub open spec fn slot_index(s: EquipmentSlot) -> int {
    match s {
        EquipmentSlot::Helmet => 0,
        EquipmentSlot::Ring => 1,
        EquipmentSlot::Amulet => 2,
        EquipmentSlot::Weapon => 3,
        EquipmentSlot::Armour => 4,
        EquipmentSlot::Belt => 5,
        EquipmentSlot::Gloves => 6,
        EquipmentSlot::Boots => 7,
    }
}

pub open spec fn slot_at(i: int) -> EquipmentSlot {
    if i == 0 {
        EquipmentSlot::Helmet
    } else if i == 1 {
        EquipmentSlot::Ring
    } else if i == 2 {
        EquipmentSlot::Amulet
    } else if i == 3 {
        EquipmentSlot::Weapon
    } else if i == 4 {
        EquipmentSlot::Armour
    } else if i == 5 {
        EquipmentSlot::Belt
    } else if i == 6 {
        EquipmentSlot::Gloves
    } else {
        EquipmentSlot::Boots
    }
}

/// The slot after `s`, wrapping from the last to the first.
pub open spec fn next_slot(s: EquipmentSlot) -> EquipmentSlot {
    slot_at((slot_index(s) + 1) % 8)
}

/// The slot before `s`, wrapping from the first to the last.
pub open spec fn previous_slot(s: EquipmentSlot) -> EquipmentSlot {
    slot_at((slot_index(s) + 7) % 8)
}

pub open spec fn slot_label(s: EquipmentSlot) -> Seq<char> {
    match s {
        EquipmentSlot::Helmet => "Helmet"@,
        EquipmentSlot::Ring => "Ring"@,
        EquipmentSlot::Amulet => "Amulet"@,
        EquipmentSlot::Weapon => "Weapon"@,
        EquipmentSlot::Armour => "Armour"@,
        EquipmentSlot::Belt => "Belt"@,
        EquipmentSlot::Gloves => "Gloves"@,
        EquipmentSlot::Boots => "Boots"@,
    }
}

impl EquipmentSlot {
    pub fn index(&self) -> (r: usize)
        ensures
            r == slot_index(*self),
    {
        match self {
            EquipmentSlot::Helmet => 0,
            EquipmentSlot::Ring => 1,
            EquipmentSlot::Amulet => 2,
            EquipmentSlot::Weapon => 3,
            EquipmentSlot::Armour => 4,
            EquipmentSlot::Belt => 5,
            EquipmentSlot::Gloves => 6,
            EquipmentSlot::Boots => 7,
        }
    }

    pub fn at(i: usize) -> (r: EquipmentSlot)
        requires
            i < 8,
        ensures
            r == slot_at(i as int),
            slot_index(r) == i,
    {
        if i == 0 {
            EquipmentSlot::Helmet
        } else if i == 1 {
            EquipmentSlot::Ring
        } else if i == 2 {
            EquipmentSlot::Amulet
        } else if i == 3 {
            EquipmentSlot::Weapon
        } else if i == 4 {
            EquipmentSlot::Armour
        } else if i == 5 {
            EquipmentSlot::Belt
        } else if i == 6 {
            EquipmentSlot::Gloves
        } else {
            EquipmentSlot::Boots
        }
    }

    pub fn next(&self) -> (r: EquipmentSlot)
        ensures
            r == next_slot(*self),
    {
        EquipmentSlot::at((self.index() + 1) % 8)
    }

    pub fn previous(&self) -> (r: EquipmentSlot)
        ensures
            r == previous_slot(*self),
    {
        EquipmentSlot::at((self.index() + 7) % 8)
    }

    pub fn label(&self) -> (r: &'static str)
        ensures
            r@ == slot_label(*self),
    {
        match self {
            EquipmentSlot::Helmet => "Helmet",
            EquipmentSlot::Ring => "Ring",
            EquipmentSlot::Amulet => "Amulet",
            EquipmentSlot::Weapon => "Weapon",
            EquipmentSlot::Armour => "Armour",
            EquipmentSlot::Belt => "Belt",
            EquipmentSlot::Gloves => "Gloves",
            EquipmentSlot::Boots => "Boots",
        }
    }
}

/// Something the screens announce.
#[derive(Clone, Copy, Debug, PartialEq, Eq, Hash, Structural)]
pub enum UIEvent {
    InventoryItemSelected(usize),
    EquipmentSlotSelected(EquipmentSlot),
}

/// Receives announced events.
pub trait Observer {
    fn on_ui_event(&mut self, event: UIEvent);
}

/// Hands each announced event to every subscriber, in subscription order.
pub struct Publisher {
    events: Vec<Box<dyn Observer>>,
}

impl Publisher {
    pub closed spec fn subscribers(&self) -> nat {
        self.events@.len()
    }

    pub fn new() -> (r: Self)
        ensures
            r.subscribers() == 0,
    {
        Self { events: Vec::new() }
    }

    pub fn subscribe(&mut self, observer: Box<dyn Observer>)
    {
        self.events.push(observer);
    }

    pub fn notify(&mut self, event: UIEvent)
    {
        let mut i: usize = 0;
        while i < self.events.len()
            invariant
                i <= self.events.len() == old(self).events.len(),
            decreases self.events.len() - i,
        {
            self.events[i].on_ui_event(event);
            i = i + 1;
        }
    }
}

/// The slots with what each holds, and the selected slot.
pub struct EquipmentState {
    pub equipment: Vec<(EquipmentSlot, Option<Item>)>,
    pub selected: Option<EquipmentSlot>,
    pub ui_state: UIState,
}

impl EquipmentState {
    /// Every slot, in display order, empty; nothing selected; not focused.
    pub fn new() -> (r: Self)
        ensures
            r.equipment@.len() == 8,
            forall|i: int|
                0 <= i < 8 ==> (#[trigger] r.equipment@[i]).0 == slot_at(i) && r.equipment@[i].1
                    is None,
            r.selected is None,
            !r.ui_state.focused,
    {
        let mut equipment: Vec<(EquipmentSlot, Option<Item>)> = Vec::new();
        let mut i: usize = 0;
        while i < 8
            invariant
                i <= 8,
                equipment@.len() == i,
                forall|j: int|
                    0 <= j < i ==> (#[trigger] equipment@[j]).0 == slot_at(j) && equipment@[j].1
                        is None,
            decreases 8 - i,
        {
            equipment.push((EquipmentSlot::at(i), None));
            i = i + 1;
        }
        Self { equipment, selected: None, ui_state: UIState { focused: false } }
    }

    fn select_next_equipment_slot(&mut self)
        ensures
            final(self).selected == match old(self).selected {
                Some(s) => Some(next_slot(s)),
                None => None,
            },
            final(self).ui_state == old(self).ui_state,
    {
        if let Some(slot) = self.selected {
            self.selected = Some(slot.next());
        }
    }

    fn select_previous_equipment_slot(&mut self)
        ensures
            final(self).selected == match old(self).selected {
                Some(s) => Some(previous_slot(s)),
                None => None,
            },
            final(self).ui_state == old(self).ui_state,
    {
        if let Some(slot) = self.selected {
            self.selected = Some(slot.previous());
        }
    }

    fn select_if_none(&mut self) -> (r: bool)
        ensures
            r == old(self).selected is None,
            final(self).selected == if r {
                Some(EquipmentSlot::Helmet)
            } else {
                old(self).selected
            },
            final(self).ui_state == old(self).ui_state,
    {
        if self.selected.is_none() {
            self.selected = Some(EquipmentSlot::Helmet);
            return true;
        }
        false
    }
}

impl InputHandler for EquipmentState {
    /// Up and down move the selection round the slots.
    fn handle_key_event(&mut self, key: KeyInput) -> (r: InputEvent)
        ensures
            match key.code {
                KeyCode::Up => r is Consumed && final(self).selected == match old(self).selected {
                    Some(s) => Some(previous_slot(s)),
                    None => None,
                },
                KeyCode::Down => r is Consumed && final(self).selected == match old(self).selected {
                    Some(s) => Some(next_slot(s)),
                    None => None,
                },
                _ => r is Ignored && final(self).selected == old(self).selected,
            },
            final(self).ui_state == old(self).ui_state,
    {
        match key.code {
            KeyCode::Up => {
                self.select_previous_equipment_slot();
                InputEvent::Consumed
            },
            KeyCode::Down => {
                self.select_next_equipment_slot();
                InputEvent::Consumed
            },
            _ => InputEvent::Ignored,
        }
    }
}

impl Focusable for EquipmentState {
    open spec fn is_focused(&self) -> bool {
        self.ui_state.focused
    }

    /// Gaining focus selects the first slot when none is selected.
    fn on_focus_gained(&mut self)
        ensures
            final(self).selected == match old(self).selected {
                Some(s) => Some(s),
                None => Some(EquipmentSlot::Helmet),
            },
    {
        self.ui_state.focused = true;
        self.select_if_none();
    }

    /// Losing focus clears the selection.
    fn on_focus_lost(&mut self)
        ensures
            final(self).selected is None,
    {
        self.ui_state.focused = false;
        self.selected = None;
    }
}

/// The selection after moving down a list of `n` entries: the first entry
/// when nothing is selected, wrapping from the last entry to the first.
pub open spec fn next_selection(sel: Option<usize>, n: nat) -> Option<usize> {
    match sel {
        None => Some(0),
        Some(s) => if n == 0 {
            Some(s)
        } else if s >= n - 1 {
            Some(0)
        } else {
            Some((s + 1) as usize)
        },
    }
}

/// The selection after moving up a list of `n` entries: the first entry when
/// nothing is selected, wrapping from the first entry to the last.
pub open spec fn previous_selection(sel: Option<usize>, n: nat) -> Option<usize> {
    match sel {
        None => Some(0),
        Some(s) => if n == 0 {
            Some(s)
        } else if s == 0 {
            Some((n - 1) as usize)
        } else {
            Some((s - 1) as usize)
        },
    }
}

/// The carried items, the selected entry, and the listeners told of selections.
pub struct InventoryState {
    pub inventory: Inventory,
    pub selected: Option<usize>,
    pub ui_state: UIState,
    pub publisher: Publisher,
}

impl InventoryState {
    pub fn new(inventory: Inventory) -> (r: Self)
        ensures
            r.inventory@ == inventory@,
            r.selected is None,
            !r.ui_state.focused,
            r.publisher.subscribers() == 0,
    {
        Self {
            inventory,
            selected: None,
            ui_state: UIState { focused: false },
            publisher: Publisher::new(),
        }
    }

    pub fn add_on_item_selected_listener(&mut self, listener: Box<dyn Observer>)
        ensures
            final(self).selected == old(self).selected,
            final(self).inventory@ == old(self).inventory@,
    {
        self.publisher.subscribe(listener)
    }

    fn select_next_item(&mut self)
        ensures
            final(self).selected == next_selection(old(self).selected, old(self).inventory@.len()),
            final(self).inventory@ == old(self).inventory@,
            final(self).ui_state == old(self).ui_state,
    {
        match self.selected {
            None => {
                self.selected = Some(0);
            },
            Some(s) => {
                let n = self.inventory.len();
                if n > 0 {
                    if s >= n - 1 {
                        self.selected = Some(0);
                    } else {
                        self.selected = Some(s + 1);
                    }
                }
            },
        }
    }

    fn select_previous_item(&mut self)
        ensures
            final(self).selected == previous_selection(
                old(self).selected,
                old(self).inventory@.len(),
            ),
            final(self).inventory@ == old(self).inventory@,
            final(self).ui_state == old(self).ui_state,
    {
        match self.selected {
            None => {
                self.selected = Some(0);
            },
            Some(s) => {
                let n = self.inventory.len();
                if n > 0 {
                    if s == 0 {
                        self.selected = Some(n - 1);
                    } else {
                        self.selected = Some(s - 1);
                    }
                }
            },
        }
    }
}

impl InputHandler for InventoryState {
    /// Up and down move the selection; enter announces the selected entry.
    fn handle_key_event(&mut self, key: KeyInput) -> (r: InputEvent)
        ensures
            match key.code {
                KeyCode::Up => r is Consumed && final(self).selected == previous_selection(
                    old(self).selected,
                    old(self).inventory@.len(),
                ),
                KeyCode::Down => r is Consumed && final(self).selected == next_selection(
                    old(self).selected,
                    old(self).inventory@.len(),
                ),
                KeyCode::Enter => final(self).selected == old(self).selected && match old(self).selected {
                    Some(i) => r == InputEvent::Selected(i),
                    None => r is Ignored,
                },
                _ => r is Ignored && final(self).selected == old(self).selected,
            },
            final(self).inventory@ == old(self).inventory@,
            final(self).ui_state == old(self).ui_state,
    {
        match key.code {
            KeyCode::Up => {
                self.select_previous_item();
                InputEvent::Consumed
            },
            KeyCode::Down => {
                self.select_next_item();
                InputEvent::Consumed
            },
            KeyCode::Enter => match self.selected {
                Some(index) => {
                    self.publisher.notify(UIEvent::InventoryItemSelected(index));
                    InputEvent::Selected(index)
                },
                None => InputEvent::Ignored,
            },
            _ => InputEvent::Ignored,
        }
    }
}

impl Focusable for InventoryState {
    open spec fn is_focused(&self) -> bool {
        self.ui_state.focused
    }

    /// Gaining focus selects the first entry when none is selected.
    fn on_focus_gained(&mut self)
        ensures
            final(self).selected == match old(self).selected {
                Some(s) => Some(s),
                None => Some(0usize),
            },
    {
        self.ui_state.focused = true;
        if self.selected.is_none() {
            self.selected = Some(0);
        }
    }

    /// Losing focus clears the selection.
    fn on_focus_lost(&mut self)
        ensures
            final(self).selected is None,
    {
        self.ui_state.focused = false;
        self.selected = None;
    }
}

/// The stats panel.
pub struct StatState {
    pub stats: StatBlock,
    pub ui_state: UIState,
}

impl StatState {
    pub fn new(stats: StatBlock) -> (r: Self)
        ensures
            r.stats.stats@ == stats.stats@,
            !r.ui_state.focused,
    {
        Self { stats, ui_state: UIState { focused: false } }
    }
}

impl Focusable for StatState {
    open spec fn is_focused(&self) -> bool {
        self.ui_state.focused
    }

    fn on_focus_gained(&mut self) {
        self.ui_state.focused = true;
    }

    fn on_focus_lost(&mut self) {
        self.ui_state.focused = false;
    }
}

/// The world panel.
pub struct WorldState {
    pub ui_state: UIState,
}

impl WorldState {
    pub fn new() -> (r: Self)
        ensures
            !r.ui_state.focused,
    {
        Self { ui_state: UIState { focused: false } }
    }
}

impl Focusable for WorldState {
    open spec fn is_focused(&self) -> bool {
        self.ui_state.focused
    }

    fn on_focus_gained(&mut self) {
        self.ui_state.focused = true;
    }

    fn on_focus_lost(&mut self) {
        self.ui_state.focused = false;
    }
}

/// A popup showing the inventory entry at `index`.
pub struct ItemPopupState {
    pub ui_state: UIState,
    pub index: usize,
}

impl ItemPopupState {
    pub fn new(index: usize) -> (r: Self)
        ensures
            r.index == index,
            !r.is_focused(),
    {
        Self { ui_state: UIState { focused: false }, index }
    }
}

impl InputHandler for ItemPopupState {
    /// The popup reacts to no key.
    fn handle_key_event(&mut self, key: KeyInput) -> (r: InputEvent)
        ensures
            r is Ignored,
            final(self).index == old(self).index,
    {
        InputEvent::Ignored
    }
}

impl Focusable for ItemPopupState {
    open spec fn is_focused(&self) -> bool {
        self.ui_state.focused
    }

    fn on_focus_gained(&mut self) {
        self.ui_state.focused = true;
    }

    fn on_focus_lost(&mut self) {
        self.ui_state.focused = false;
    }
}

/// The panels built from a character.
pub struct PlayerState {
    pub stats_state: StatState,
    pub inventory_state: InventoryState,
    pub equipment_state: EquipmentState,
}

impl PlayerState {
    /// Panels showing the character's own stats and carried items.
    pub fn from_player(player: Player) -> (r: Self)
        ensures
            r.stats_state.stats.stats@ == player.base_stats.stats@,
            r.inventory_state.inventory@ == player.inventory@,
            r.inventory_state.selected is None,
            r.equipment_state.selected is None,
    {
        Self {
            stats_state: StatState::new(player.base_stats),
            inventory_state: InventoryState::new(player.inventory),
            equipment_state: EquipmentState::new(),
        }
    }
}

/// The panels that can hold focus, in tab order.
#[derive(Clone, Copy, Debug, PartialEq, Eq, Structural)]
pub enum Screen {
    Stats,
    World,
    Equipment,
    Inventory,
}

/// The panel after `s` in tab order, wrapping to the first.
pub open spec fn next_screen(s: Screen) -> Screen {
    match s {
        Screen::Stats => Screen::World,
        Screen::World => Screen::Equipment,
        Screen::Equipment => Screen::Inventory,
        Screen::Inventory => Screen::Stats,
    }
}

/// The panel that a key switches to from `focus`.
pub open spec fn screen_for(code: KeyCode, focus: Screen) -> Screen {
    match code {
        KeyCode::Char(c) => if c == 's' {
            Screen::Stats
        } else if c == 'w' {
            Screen::World
        } else if c == 'i' {
            Screen::Inventory
        } else if c == 'e' {
            Screen::Equipment
        } else {
            focus
        },
        KeyCode::Tab => next_screen(focus),
        _ => focus,
    }
}

/// Popups that can be open over the panels.
pub enum PopupType {
    Item(ItemPopupState),
}

/// The decision state of the terminal front end: the panels, which one has
/// focus, the open popup, and whether to quit.
pub struct RatatuiApp {
    pub exit: bool,
    pub player_state: PlayerState,
    pub world_state: WorldState,
    pub focus: Screen,
    pub popup: Option<PopupType>,
}

/// A key reaches a panel that consumes it: no popup, an equipment or
/// inventory panel in focus, and an up or down key.
pub open spec fn panel_consumes(has_popup: bool, focus: Screen, code: KeyCode) -> bool {
    &&& !has_popup
    &&& focus == Screen::Equipment || focus == Screen::Inventory
    &&& code == KeyCode::Up || code == KeyCode::Down
}

/// A key opens the item popup: enter on the inventory panel with an entry selected.
pub open spec fn opens_popup(
    has_popup: bool,
    focus: Screen,
    code: KeyCode,
    selected: Option<usize>,
) -> bool {
    !has_popup && focus == Screen::Inventory && code == KeyCode::Enter && selected is Some
}

impl RatatuiApp {
    pub fn new(player_state: PlayerState) -> (r: Self)
        ensures
            !r.exit,
            r.focus == Screen::Stats,
            r.popup is None,
    {
        Self {
            exit: false,
            player_state,
            world_state: WorldState::new(),
            focus: Screen::Stats,
            popup: None,
        }
    }

    pub fn should_exit(&self) -> (r: bool)
        ensures
            r == self.exit,
    {
        self.exit
    }

    fn focus_lost(&mut self)
        ensures
            final(self).focus == old(self).focus,
            final(self).exit == old(self).exit,
            final(self).popup is None == old(self).popup is None,
    {
        match self.focus {
            Screen::Stats => self.player_state.stats_state.on_focus_lost(),
            Screen::World => self.world_state.on_focus_lost(),
            Screen::Equipment => self.player_state.equipment_state.on_focus_lost(),
            Screen::Inventory => self.player_state.inventory_state.on_focus_lost(),
        }
    }

    fn focus_gained(&mut self)
        ensures
            final(self).focus == old(self).focus,
            final(self).exit == old(self).exit,
            final(self).popup is None == old(self).popup is None,
    {
        match self.focus {
            Screen::Stats => self.player_state.stats_state.on_focus_gained(),
            Screen::World => self.world_state.on_focus_gained(),
            Screen::Equipment => self.player_state.equipment_state.on_focus_gained(),
            Screen::Inventory => self.player_state.inventory_state.on_focus_gained(),
        }
    }

    /// Moves focus to `new_screen`: the old panel loses it, the new one gains it.
    pub fn change_screen(&mut self, new_screen: Screen)
        ensures
            final(self).focus == new_screen,
            final(self).exit == old(self).exit,
            final(self).popup is None == old(self).popup is None,
    {
        self.focus_lost();
        self.focus = new_screen;
        self.focus_gained();
    }

    fn forward_input(&mut self, key: KeyInput) -> (r: InputEvent)
        ensures
            r is Consumed <==> panel_consumes(old(self).popup is Some, old(self).focus, key.code),
            final(self).focus == old(self).focus,
            final(self).exit == old(self).exit,
            final(self).popup is Some <==> (old(self).popup is Some || opens_popup(
                old(self).popup is Some,
                old(self).focus,
                key.code,
                old(self).player_state.inventory_state.selected,
            )),
    {
        if let Some(popup) = &mut self.popup {
            return match popup {
                PopupType::Item(state) => state.handle_key_event(key),
            };
        }
        let input = match self.focus {
            Screen::Stats => InputEvent::Ignored,
            Screen::World => InputEvent::Ignored,
            Screen::Equipment => self.player_state.equipment_state.handle_key_event(key),
            Screen::Inventory => self.player_state.inventory_state.handle_key_event(key),
        };
        if let InputEvent::Selected(index) = input {
            if self.focus == Screen::Inventory {
                self.popup = Some(PopupType::Item(ItemPopupState::new(index)));
            }
        }
        input
    }
}

impl InputHandler for RatatuiApp {
    /// Only key presses count. A panel that consumes the key ends the matter;
    /// otherwise escape closes the popup or, with none open, asks to quit, and
    /// with no popup open the screen keys move the focus.
    fn handle_key_event(&mut self, key: KeyInput) -> (r: InputEvent)
        ensures
            !key.is_press ==> r is Ignored && final(self).focus == old(self).focus && final(self).exit == old(self).exit && (final(self).popup is None == old(self).popup is None),
            key.is_press ==> r is Consumed,
            key.is_press && panel_consumes(old(self).popup is Some, old(self).focus, key.code) ==> {
                &&& final(self).focus == old(self).focus
                &&& final(self).exit == old(self).exit
                &&& final(self).popup is None == old(self).popup is None
            },
            key.is_press && !panel_consumes(old(self).popup is Some, old(self).focus, key.code)
                ==> {
                let opened = old(self).popup is Some || opens_popup(
                    old(self).popup is Some,
                    old(self).focus,
                    key.code,
                    old(self).player_state.inventory_state.selected,
                );
                let still_open = opened && key.code != KeyCode::Esc;
                &&& final(self).exit == (old(self).exit || (key.code == KeyCode::Esc && !opened))
                &&& final(self).popup is Some == still_open
                &&& final(self).focus == if still_open {
                    old(self).focus
                } else {
                    screen_for(key.code, old(self).focus)
                }
            },
    {
        if !key.is_press {
            return InputEvent::Ignored;
        }
        match self.forward_input(key) {
            InputEvent::Consumed => {
                return InputEvent::Consumed;
            },
            _ => {},
        }
        if key.code == KeyCode::Esc {
            if self.popup.is_some() {
                self.popup = None;
            } else {
                self.exit = true;
            }
        }
        if self.popup.is_none() {
            match key.code {
                KeyCode::Char(c) => {
                    if c == 's' {
                        self.change_screen(Screen::Stats);
                    } else if c == 'w' {
                        self.change_screen(Screen::World);
                    } else if c == 'i' {
                        self.change_screen(Screen::Inventory);
                    } else if c == 'e' {
                        self.change_screen(Screen::Equipment);
                    }
                },
                KeyCode::Tab => {
                    let next = match self.focus {
                        Screen::Stats => Screen::World,
                        Screen::World => Screen::Equipment,
                        Screen::Equipment => Screen::Inventory,
                        Screen::Inventory => Screen::Stats,
                    };
                    self.change_screen(next);
                },
                _ => {},
            }
        }
        InputEvent::Consumed
    }
}

} // verus!
