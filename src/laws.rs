use vstd::prelude::*;

use crate::item::{derived_item_stats, pass_applied, Item};
use crate::modifier::{
    changed_value, percent_scaled, stat_changed, target_of, BasicStatModifier, ItemModifier,
    Modifier, ModifierKind, ModifierPass, ModifierTargetKind,
};
use crate::player::{character_applied, equipped_stats, granted};
use crate::stat::{
    added, first_of, has_kind, is_first_of, kinds_unique, lemma_first_of, stat_of, Stat, StatType,
};

verus! {

/// A lookup after pushing `st` finds what it found before, or `st` when the
/// kind was absent and `st` has it.
pub proof fn lemma_stat_of_push(s: Seq<Stat>, st: Stat, k: StatType)
    ensures
        stat_of(s.push(st), k) == if has_kind(s, k) {
            stat_of(s, k)
        } else if st.stat_type == k {
            Some(st)
        } else {
            None
        },
{
    let t = s.push(st);
    if has_kind(s, k) {
        lemma_first_of(s, k);
        let i = first_of(s, k);
        assert(t[i] == s[i]);
        assert(has_kind(t, k));
        assert(is_first_of(t, k, i)) by {
            assert forall|j: int| 0 <= j < i implies #[trigger] t[j].stat_type != k by {
                assert(t[j] == s[j]);
            }
        }
        lemma_first_of(t, k);
    } else if st.stat_type == k {
        let i = s.len() as int;
        assert(t[i] == st);
        assert(has_kind(t, k));
        assert(is_first_of(t, k, i)) by {
            assert forall|j: int| 0 <= j < i implies #[trigger] t[j].stat_type != k by {
                assert(t[j] == s[j]);
            }
        }
        lemma_first_of(t, k);
    } else {
        assert forall|j: int| 0 <= j < t.len() implies #[trigger] t[j].stat_type != k by {
            if j < s.len() {
                assert(t[j] == s[j]);
            }
        }
    }
}

/// Changing the stat of kind `k` keeps its position, and a lookup then finds
/// the changed value.
pub proof fn lemma_stat_changed_lookup(s: Seq<Stat>, k: StatType, kind: ModifierKind, m: i32)
    requires
        has_kind(s, k),
    ensures
        stat_of(stat_changed(s, k, kind, m), k) == Some(
            Stat { stat_type: k, value: changed_value(kind, stat_of(s, k).unwrap().value, m) },
        ),
{
    lemma_first_of(s, k);
    let i = first_of(s, k);
    let t = stat_changed(s, k, kind, m);
    assert(t[i].stat_type == k);
    assert(is_first_of(t, k, i)) by {
        assert forall|j: int| 0 <= j < i implies #[trigger] t[j].stat_type != k by {
            assert(t[j] == s[j]);
        }
    }
    lemma_first_of(t, k);
}

/// Adding a stat whose kind is already present changes nothing: the value
/// found for that kind stays the original one.
pub proof fn law_add_keeps_existing(s: Seq<Stat>, st: Stat)
    requires
        has_kind(s, st.stat_type),
    ensures
        added(s, st) == s,
        stat_of(added(s, st), st.stat_type) == stat_of(s, st.stat_type),
{
}

/// Adding a stat keeps a stat block free of repeated kinds.
pub proof fn law_add_keeps_kinds_unique(s: Seq<Stat>, st: Stat)
    requires
        kinds_unique(s),
    ensures
        kinds_unique(added(s, st)),
{
    if !has_kind(s, st.stat_type) {
        let t = s.push(st);
        assert forall|i: int, j: int|
            0 <= i < t.len() && 0 <= j < t.len() && i != j implies #[trigger] t[i].stat_type
            != #[trigger] t[j].stat_type by {
            if i < s.len() && j < s.len() {
                assert(t[i] == s[i] && t[j] == s[j]);
            } else if i < s.len() {
                assert(t[i] == s[i]);
            } else {
                assert(t[j] == s[j]);
            }
        }
    }
}

/// Whatever the order of the two in an item's list, a flat-pass modifier is
/// fully applied before an increased-pass modifier runs.
pub proof fn law_flat_before_increased(
    base: Seq<Stat>,
    flat: ItemModifier,
    increased: ItemModifier,
    flat_first: bool,
)
    requires
        flat.spec_pass() == ModifierPass::Flat,
        increased.spec_pass() == ModifierPass::Increased,
    ensures
        derived_item_stats(
            base,
            if flat_first {
                seq![flat, increased]
            } else {
                seq![increased, flat]
            },
        ) == increased.stats_effect(
            ModifierTargetKind::Item,
            flat.stats_effect(ModifierTargetKind::Item, base),
        ),
{
    let mods = if flat_first {
        seq![flat, increased]
    } else {
        seq![increased, flat]
    };
    assert(mods.drop_last() =~= seq![mods[0]]);
    assert(seq![mods[0]].drop_last() =~= Seq::<ItemModifier>::empty());
    reveal_with_fuel(pass_applied, 3);
}

/// Two increased-pass percent modifiers on the same stat compound: the second
/// scales the value the first produced, each step truncated toward zero.
pub proof fn law_percent_compounds(
    base: Seq<Stat>,
    k: StatType,
    first: BasicStatModifier,
    second: BasicStatModifier,
)
    requires
        has_kind(base, k),
        first.stat == k,
        second.stat == k,
        first.modifier_kind == ModifierKind::Percent,
        second.modifier_kind == ModifierKind::Percent,
        first.modifier_pass == ModifierPass::Increased,
        second.modifier_pass == ModifierPass::Increased,
        first.target == ModifierTargetKind::Item,
        second.target == ModifierTargetKind::Item,
    ensures
        stat_of(
            derived_item_stats(base, seq![ItemModifier::Basic(first), ItemModifier::Basic(second)]),
            k,
        ) == Some(
            Stat {
                stat_type: k,
                value: percent_scaled(
                    percent_scaled(stat_of(base, k).unwrap().value, first.value),
                    second.value,
                ),
            },
        ),
{
    let mods = seq![ItemModifier::Basic(first), ItemModifier::Basic(second)];
    assert(mods.drop_last() =~= seq![mods[0]]);
    assert(seq![mods[0]].drop_last() =~= Seq::<ItemModifier>::empty());
    reveal_with_fuel(pass_applied, 3);
    let once = stat_changed(base, k, ModifierKind::Percent, first.value);
    lemma_stat_changed_lookup(base, k, ModifierKind::Percent, first.value);
    assert(has_kind(once, k)) by {
        lemma_first_of(once, k);
    }
    lemma_stat_changed_lookup(once, k, ModifierKind::Percent, second.value);
}

/// A modifier leaves alone any target of a kind other than its own.
pub proof fn law_target_gate(m: ItemModifier, tk: ModifierTargetKind, s: Seq<Stat>)
    requires
        target_of(m) != tk,
    ensures
        m.stats_effect(tk, s) == s,
{
}

/// Running a pass over a list that holds a modifier not targeting items gives
/// the same stats as running it without that modifier.
pub proof fn lemma_pass_skips(s: Seq<Stat>, mods: Seq<ItemModifier>, i: int, pass: ModifierPass)
    requires
        0 <= i < mods.len(),
        target_of(mods[i]) != ModifierTargetKind::Item,
    ensures
        pass_applied(s, mods, pass) == pass_applied(s, mods.remove(i), pass),
    decreases mods.len(),
{
    if i == mods.len() - 1 {
        assert(mods.remove(i) =~= mods.drop_last());
    } else {
        let r = mods.remove(i);
        assert(r.drop_last() =~= mods.drop_last().remove(i));
        assert(r.last() == mods.last());
        lemma_pass_skips(s, mods.drop_last(), i, pass);
    }
}

/// A character-targeted modifier on an item does not change the item's own
/// derived stats.
pub proof fn law_item_ignores_character_modifiers(
    base: Seq<Stat>,
    mods: Seq<ItemModifier>,
    i: int,
)
    requires
        0 <= i < mods.len(),
        target_of(mods[i]) == ModifierTargetKind::Character,
    ensures
        derived_item_stats(base, mods) == derived_item_stats(base, mods.remove(i)),
{
    lemma_pass_skips(base, mods, i, ModifierPass::Flat);
    lemma_pass_skips(
        pass_applied(base, mods, ModifierPass::Flat),
        mods,
        i,
        ModifierPass::Increased,
    );
}

/// In a character's derivation, an item's modifier that does not target the
/// character has no effect beyond the stats the item grants.
pub proof fn law_character_ignores_other_modifiers(acc: Seq<Stat>, mods: Seq<ItemModifier>, i: int)
    requires
        0 <= i < mods.len(),
        target_of(mods[i]) != ModifierTargetKind::Character,
    ensures
        character_applied(acc, mods) == character_applied(acc, mods.remove(i)),
    decreases mods.len(),
{
    if i == mods.len() - 1 {
        assert(mods.remove(i) =~= mods.drop_last());
    } else {
        let r = mods.remove(i);
        assert(r.drop_last() =~= mods.drop_last().remove(i));
        assert(r.last() == mods.last());
        law_character_ignores_other_modifiers(acc, mods.drop_last(), i);
    }
}

/// A stat kind that the character has innately keeps the value it had in the
/// accumulated stats; items never overwrite it.
pub proof fn law_innate_stat_wins(base: Seq<Stat>, acc: Seq<Stat>, derived: Seq<Stat>, k: StatType)
    requires
        has_kind(base, k),
    ensures
        stat_of(granted(base, acc, derived), k) == stat_of(acc, k),
    decreases derived.len(),
{
    if derived.len() > 0 {
        let prev = granted(base, acc, derived.drop_last());
        law_innate_stat_wins(base, acc, derived.drop_last(), k);
        if !has_kind(base, derived.last().stat_type) {
            assert(derived.last().stat_type != k);
            lemma_stat_of_push(prev, derived.last(), k);
        }
    }
}

/// A stat kind that neither the character nor the accumulated stats hold is
/// granted with the value of the item's first derived stat of that kind.
pub proof fn law_missing_stat_granted(
    base: Seq<Stat>,
    acc: Seq<Stat>,
    derived: Seq<Stat>,
    k: StatType,
)
    requires
        !has_kind(base, k),
        !has_kind(acc, k),
    ensures
        stat_of(granted(base, acc, derived), k) == stat_of(derived, k),
    decreases derived.len(),
{
    if derived.len() > 0 {
        let p = derived.drop_last();
        let prev = granted(base, acc, p);
        let st = derived.last();
        law_missing_stat_granted(base, acc, p, k);
        lemma_stat_of_push(p, st, k);
        assert(derived =~= p.push(st));
        if !has_kind(base, st.stat_type) {
            lemma_stat_of_push(prev, st, k);
            if has_kind(prev, st.stat_type) && st.stat_type == k {
                lemma_first_of(prev, k);
            }
        } else {
            assert(st.stat_type != k);
        }
    }
}


/// Modifiers none of which targets the character leave a character's stats as they are.
pub proof fn lemma_no_character_modifiers(acc: Seq<Stat>, mods: Seq<ItemModifier>)
    requires
        forall|i: int|
            0 <= i < mods.len() ==> target_of(#[trigger] mods[i]) != ModifierTargetKind::Character,
    ensures
        character_applied(acc, mods) == acc,
    decreases mods.len(),
{
    if mods.len() > 0 {
        lemma_no_character_modifiers(acc, mods.drop_last());
    }
}

/// A character equipping one item whose modifiers do not target characters:
/// a stat kind the character lacks takes the item's derived value, and a kind
/// the character has keeps the character's own value.
pub proof fn law_equipped_stat_precedence(base: Seq<Stat>, item: Item, k: StatType)
    requires
        forall|i: int|
            0 <= i < item.modifiers@.len() ==> target_of(#[trigger] item.modifiers@[i])
                != ModifierTargetKind::Character,
    ensures
        !has_kind(base, k) ==> stat_of(equipped_stats(base, seq![item]), k) == stat_of(
            derived_item_stats(item.base_stats.stats@, item.modifiers@),
            k,
        ),
        has_kind(base, k) ==> stat_of(equipped_stats(base, seq![item]), k) == stat_of(base, k),
{
    let items = seq![item];
    let derived = derived_item_stats(item.base_stats.stats@, item.modifiers@);
    assert(items.drop_last() =~= Seq::<Item>::empty());
    assert(items.last() == item);
    assert(equipped_stats(base, items.drop_last()) == base);
    lemma_no_character_modifiers(granted(base, base, derived), item.modifiers@);
    if has_kind(base, k) {
        law_innate_stat_wins(base, base, derived, k);
    } else {
        law_missing_stat_granted(base, base, derived, k);
    }
}

} // verus!
