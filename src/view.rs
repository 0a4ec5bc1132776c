use vstd::prelude::*;

use crate::item::ItemRarity;
use crate::player::{equipped_stats, Player};
use crate::presentation::{DamageLine, ItemPresentation, RequirementLine};
use crate::stat::{stat_label, Stat, StatBlock};
use crate::text::{int_chars, int_text};
use crate::ui::StatState;

verus! {

/// How a piece of text is styled when shown.
#[derive(Clone, Copy, Debug, PartialEq, Eq, Structural)]
pub enum TextStyle {
    Normal,
    Magic,
    Rare,
    Unique,
    UnfulfilledRequirement,
    ColorWhenModified,
}

pub open spec fn rarity_style(r: ItemRarity) -> TextStyle {
    match r {
        ItemRarity::Normal => TextStyle::Normal,
        ItemRarity::Magic => TextStyle::Magic,
        ItemRarity::Rare => TextStyle::Rare,
        ItemRarity::Unique => TextStyle::Unique,
    }
}

impl TextStyle {
    pub fn from_rarity(rarity: ItemRarity) -> (r: TextStyle)
        ensures
            r == rarity_style(rarity),
    {
        match rarity {
            ItemRarity::Normal => TextStyle::Normal,
            ItemRarity::Magic => TextStyle::Magic,
            ItemRarity::Rare => TextStyle::Rare,
            ItemRarity::Unique => TextStyle::Unique,
        }
    }
}

/// A piece of text with its style.
#[derive(Clone, Debug)]
pub struct TextView {
    pub value: String,
    pub style: TextStyle,
}

/// Marker placed before a modified value.
pub open spec fn mod_start(on: bool) -> Seq<char> {
    if on {
        "%mod_start"@
    } else {
        Seq::empty()
    }
}

/// Marker placed after a modified value.
pub open spec fn mod_end(on: bool) -> Seq<char> {
    if on {
        "%mod_end"@
    } else {
        Seq::empty()
    }
}

/// `Damage: <min> to <max>`, with markers round the numbers when modified.
pub open spec fn damage_text(d: DamageLine) -> Seq<char> {
    "Damage: "@ + mod_start(d.is_modified) + int_chars(d.min as int) + " to "@ + int_chars(
        d.max as int,
    ) + mod_end(d.is_modified)
}

/// `Required <stat>: <amount>`, with markers round the amount when modified.
pub open spec fn requirement_line_text(r: RequirementLine) -> Seq<char> {
    "Required "@ + stat_label(r.requirement.stat_type) + ": "@ + mod_start(r.is_modified)
        + int_chars(r.requirement.amount as int) + mod_end(r.is_modified)
}

/// `<stat>: <value>`.
pub open spec fn stat_text(st: Stat) -> Seq<char> {
    stat_label(st.stat_type) + ": "@ + int_chars(st.value as int)
}

fn push_marker(out: &mut String, on: bool, start: bool)
    ensures
        final(out)@ == old(out)@ + if start {
            mod_start(on)
        } else {
            mod_end(on)
        },
{
    proof {
        reveal_strlit("%mod_start");
        reveal_strlit("%mod_end");
    }
    if on {
        if start {
            out.append("%mod_start");
        } else {
            out.append("%mod_end");
        }
    }
    assert(final(out)@ =~= old(out)@ + if start {
        mod_start(on)
    } else {
        mod_end(on)
    });
}

/// The text of a damage line.
pub fn damage_line_text(d: &DamageLine) -> (r: String)
    ensures
        r@ == damage_text(*d),
{
    let mut out = String::from_str("Damage: ");
    push_marker(&mut out, d.is_modified, true);
    let lo = int_text(d.min as i64);
    out.append(lo.as_str());
    out.append(" to ");
    let hi = int_text(d.max as i64);
    out.append(hi.as_str());
    push_marker(&mut out, d.is_modified, false);
    proof {
        reveal_strlit("Damage: ");
        reveal_strlit(" to ");
    }
    assert(out@ =~= damage_text(*d));
    out
}

/// The text of a requirement line.
pub fn requirement_line_string(r: &RequirementLine) -> (s: String)
    ensures
        s@ == requirement_line_text(*r),
{
    let mut out = String::from_str("Required ");
    out.append(r.requirement.stat_type.label());
    out.append(": ");
    push_marker(&mut out, r.is_modified, true);
    let amount = int_text(r.requirement.amount as i64);
    out.append(amount.as_str());
    push_marker(&mut out, r.is_modified, false);
    proof {
        reveal_strlit("Required ");
        reveal_strlit(": ");
    }
    assert(out@ =~= requirement_line_text(*r));
    out
}

impl TextView {
    /// `<stat>: <value>` in the normal style.
    pub fn from_stat(stat: Stat) -> (r: TextView)
        ensures
            r.value@ == stat_text(stat),
            r.style == TextStyle::Normal,
    {
        let mut out = String::from_str(stat.stat_type.label());
        out.append(": ");
        let number = int_text(stat.value as i64);
        out.append(number.as_str());
        proof {
            reveal_strlit(": ");
        }
        assert(out@ =~= stat_text(stat));
        TextView { value: out, style: TextStyle::Normal }
    }
}

/// What is shown of an item, line by line.
#[derive(Clone, Debug)]
pub struct ItemView {
    pub item_name: Option<TextView>,
    pub item_base: TextView,
    pub damage: Option<TextView>,
    pub requirements: Vec<TextView>,
    pub item_class: TextView,
    pub description: Vec<TextView>,
}

impl ItemView {
    pub fn from_presentation(p: &ItemPresentation) -> (r: ItemView)
        ensures
            match (r.item_name, p.name) {
                (Some(v), Some(n)) => v.value@ == n@ && v.style == rarity_style(p.rarity),
                (None, None) => true,
                _ => false,
            },
            r.item_base.value@ == p.item_base@,
            r.item_base.style == rarity_style(p.rarity),
            match (r.damage, p.damage) {
                (Some(v), Some(d)) => v.value@ == damage_text(d) && v.style
                    == TextStyle::ColorWhenModified,
                (None, None) => true,
                _ => false,
            },
            r.requirements@.len() == p.requirements@.len(),
            forall|i: int|
                0 <= i < p.requirements@.len() ==> {
                    &&& (#[trigger] r.requirements@[i]).value@ == requirement_line_text(
                        p.requirements@[i],
                    )
                    &&& r.requirements@[i].style == if p.requirements@[i].is_met {
                        TextStyle::Normal
                    } else {
                        TextStyle::UnfulfilledRequirement
                    }
                },
            r.item_class.value@ == p.item_class@,
            r.item_class.style == rarity_style(p.rarity),
            r.description@.len() == p.modifiers@.len(),
            forall|i: int|
                0 <= i < p.modifiers@.len() ==> (#[trigger] r.description@[i]).value@
                    == p.modifiers@[i]@ && r.description@[i].style == TextStyle::Magic,
    {
        let style = TextStyle::from_rarity(p.rarity);
        let item_name = match &p.name {
            Some(n) => Some(TextView { value: n.clone(), style }),
            None => None,
        };
        let damage = match &p.damage {
            Some(d) => Some(TextView { value: damage_line_text(d), style: TextStyle::ColorWhenModified }),
            None => None,
        };
        let mut requirements: Vec<TextView> = Vec::new();
        let mut i: usize = 0;
        while i < p.requirements.len()
            invariant
                i <= p.requirements@.len(),
                requirements@.len() == i,
                forall|j: int|
                    0 <= j < i ==> {
                        &&& (#[trigger] requirements@[j]).value@ == requirement_line_text(
                            p.requirements@[j],
                        )
                        &&& requirements@[j].style == if p.requirements@[j].is_met {
                            TextStyle::Normal
                        } else {
                            TextStyle::UnfulfilledRequirement
                        }
                    },
            decreases p.requirements.len() - i,
        {
            let line = &p.requirements[i];
            let style = if line.is_met {
                TextStyle::Normal
            } else {
                TextStyle::UnfulfilledRequirement
            };
            requirements.push(TextView { value: requirement_line_string(line), style });
            i = i + 1;
        }
        let mut description: Vec<TextView> = Vec::new();
        let mut k: usize = 0;
        while k < p.modifiers.len()
            invariant
                k <= p.modifiers@.len(),
                description@.len() == k,
                forall|j: int|
                    0 <= j < k ==> (#[trigger] description@[j]).value@ == p.modifiers@[j]@
                        && description@[j].style == TextStyle::Magic,
            decreases p.modifiers.len() - k,
        {
            description.push(TextView { value: p.modifiers[k].clone(), style: TextStyle::Magic });
            k = k + 1;
        }
        ItemView {
            item_name,
            item_base: TextView { value: p.item_base.clone(), style },
            damage,
            requirements,
            item_class: TextView { value: p.item_class.clone(), style },
            description,
        }
    }
}

/// One line per stat.
#[derive(Clone, Debug)]
pub struct StatsView {
    pub stats: Vec<TextView>,
}

/// `lines` shows each stat of `stats` in order, in the normal style.
pub open spec fn stat_lines(lines: Seq<TextView>, stats: Seq<Stat>) -> bool {
    &&& lines.len() == stats.len()
    &&& forall|i: int|
        0 <= i < stats.len() ==> (#[trigger] lines[i]).value@ == stat_text(stats[i])
            && lines[i].style == TextStyle::Normal
}

impl StatsView {
    pub fn from_stats(block: &StatBlock) -> (r: StatsView)
        ensures
            stat_lines(r.stats@, block.stats@),
    {
        let mut lines: Vec<TextView> = Vec::new();
        let mut i: usize = 0;
        while i < block.stats.len()
            invariant
                i <= block.stats@.len(),
                stat_lines(lines@, block.stats@.subrange(0, i as int)),
            decreases block.stats.len() - i,
        {
            lines.push(TextView::from_stat(block.stats[i]));
            i = i + 1;
        }
        assert(block.stats@.subrange(0, block.stats.len() as int) =~= block.stats@);
        StatsView { stats: lines }
    }
}

/// A character's derived stats and the names of its equipped items.
#[derive(Clone, Debug)]
pub struct PlayerView {
    pub stats: StatsView,
    pub equipped_items: Vec<TextView>,
}

impl PlayerView {
    /// Derived stats, then each equipped item under its name (its base name when
    /// unnamed) in its rarity's style.
    pub fn from_player(player: &Player) -> (r: PlayerView)
        ensures
            stat_lines(
                r.stats.stats@,
                equipped_stats(player.base_stats.stats@, player.equippement@),
            ),
            r.equipped_items@.len() == player.equippement@.len(),
            forall|i: int|
                0 <= i < player.equippement@.len() ==> {
                    let it = #[trigger] player.equippement@[i];
                    &&& r.equipped_items@[i].value@ == match it.name {
                        Some(n) => n@,
                        None => it.item_base@,
                    }
                    &&& r.equipped_items@[i].style == rarity_style(it.rarity)
                },
    {
        let derived = player.get_derived_stats();
        let stats = StatsView::from_stats(&derived);
        let mut names: Vec<TextView> = Vec::new();
        let n = player.equippement.len();
        let mut i: usize = 0;
        while i < n
            invariant
                i <= n == player.equippement@.len(),
                names@.len() == i,
                forall|j: int|
                    0 <= j < i ==> {
                        let it = #[trigger] player.equippement@[j];
                        &&& names@[j].value@ == match it.name {
                            Some(n) => n@,
                            None => it.item_base@,
                        }
                        &&& names@[j].style == rarity_style(it.rarity)
                    },
            decreases n - i,
        {
            let it = player.equippement.get(i);
            let value = match &it.name {
                Some(name) => name.clone(),
                None => it.item_base.clone(),
            };
            names.push(TextView { value, style: TextStyle::from_rarity(it.rarity) });
            i = i + 1;
        }
        PlayerView { stats, equipped_items: names }
    }
}

/// One stat as a display line.
#[derive(Clone, Debug)]
pub struct StatViewModel {
    pub value: String,
}

impl StatViewModel {
    pub fn from_stat(stat: &Stat) -> (r: StatViewModel)
        ensures
            r.value@ == stat_text(*stat),
    {
        StatViewModel { value: TextView::from_stat(*stat).value }
    }
}

/// A stat block as display lines.
#[derive(Clone, Debug)]
pub struct StatBlockViewModel {
    pub stats: Vec<StatViewModel>,
}

impl StatBlockViewModel {
    /// The lines of a stats panel.
    pub fn from_state(state: &StatState) -> (r: StatBlockViewModel)
        ensures
            r.stats@.len() == state.stats.stats@.len(),
            forall|i: int|
                0 <= i < state.stats.stats@.len() ==> (#[trigger] r.stats@[i]).value@ == stat_text(
                    state.stats.stats@[i],
                ),
    {
        StatBlockViewModel::from_stats(&state.stats)
    }

    pub fn from_stats(block: &StatBlock) -> (r: StatBlockViewModel)
        ensures
            r.stats@.len() == block.stats@.len(),
            forall|i: int|
                0 <= i < block.stats@.len() ==> (#[trigger] r.stats@[i]).value@ == stat_text(
                    block.stats@[i],
                ),
    {
        let mut lines: Vec<StatViewModel> = Vec::new();
        let mut i: usize = 0;
        while i < block.stats.len()
            invariant
                i <= block.stats@.len(),
                lines@.len() == i,
                forall|j: int|
                    0 <= j < i ==> (#[trigger] lines@[j]).value@ == stat_text(block.stats@[j]),
            decreases block.stats.len() - i,
        {
            lines.push(StatViewModel::from_stat(&block.stats[i]));
            i = i + 1;
        }
        StatBlockViewModel { stats: lines }
    }
}

} // verus!
