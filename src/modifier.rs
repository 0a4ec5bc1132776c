use vstd::prelude::*;

use crate::requirement::{RequirementBlock, StatRequirement};
use crate::stat::{first_of, has_kind, lemma_first_of, stat_label, Stat, StatBlock, StatType};
use crate::text::{int_chars, int_text};

verus! {

/// How a modifier's value acts on a stat.
#[derive(Clone, Copy, Debug, PartialEq, Eq, Structural)]
pub enum ModifierKind {
    Flat,
    Percent,
}

/// The processing stage a modifier belongs to.
#[derive(Clone, Copy, Debug, PartialEq, Eq, Structural)]
pub enum ModifierPass {
    Flat,
    Increased,
    Requirements,
}

/// The data set a modifier is allowed to change.
#[derive(Clone, Copy, Debug, PartialEq, Eq, Structural)]
pub enum ModifierTargetKind {
    Character,
    Item,
    Requirements,
}

/// What a modifier is applied to: a character's stats, an item's stats, or an
/// item's requirements.
pub enum ModifierTarget<'a> {
    Character(&'a mut StatBlock),
    Item(&'a mut StatBlock),
    Requirements(&'a mut RequirementBlock),
}

pub open spec fn target_kind_of(t: ModifierTarget) -> ModifierTargetKind {
    match t {
        ModifierTarget::Character(_) => ModifierTargetKind::Character,
        ModifierTarget::Item(_) => ModifierTargetKind::Item,
        ModifierTarget::Requirements(_) => ModifierTargetKind::Requirements,
    }
}

impl<'a> ModifierTarget<'a> {
    pub fn kind(&self) -> (r: ModifierTargetKind)
        ensures
            r == target_kind_of(*self),
    {
        match self {
            ModifierTarget::Character(_) => ModifierTargetKind::Character,
            ModifierTarget::Item(_) => ModifierTargetKind::Item,
            ModifierTarget::Requirements(_) => ModifierTargetKind::Requirements,
        }
    }

    /// The stat block of a character or item target, borrowed for change; none
    /// for a requirements target.
    pub fn stats_mut(&mut self) -> (r: Option<&mut StatBlock>)
        ensures
            r is Some <==> target_kind_of(*old(self)) != ModifierTargetKind::Requirements,
            match (*old(self), r) {
                (ModifierTarget::Character(s), Some(b)) => *b == *s,
                (ModifierTarget::Item(s), Some(b)) => *b == *s,
                _ => true,
            },
    {
        match self {
            ModifierTarget::Character(stats) => Some(*stats),
            ModifierTarget::Item(stats) => Some(*stats),
            _ => None,
        }
    }
}

/// `x` saturated to the range of `i32`.
pub open spec fn clamp_i32(x: int) -> i32 {
    if x > i32::MAX {
        i32::MAX
    } else if x < i32::MIN {
        i32::MIN
    } else {
        x as i32
    }
}

/// Division rounding toward zero, for a positive divisor.
pub open spec fn trunc_div(a: int, b: int) -> int {
    if a >= 0 {
        a / b
    } else {
        -((-a) / b)
    }
}

/// `v` plus `m`, saturated to `i32`.
pub open spec fn flat_added(v: i32, m: i32) -> i32 {
    clamp_i32(v + m)
}

/// `v * (100 + p) / 100` truncated toward zero, saturated to `i32`.
pub open spec fn percent_scaled(v: i32, p: i32) -> i32 {
    clamp_i32(trunc_div(v * (100 + p), 100))
}

/// The new value of a stat after one modifier value of the given kind.
pub open spec fn changed_value(kind: ModifierKind, v: i32, m: i32) -> i32 {
    match kind {
        ModifierKind::Flat => flat_added(v, m),
        ModifierKind::Percent => percent_scaled(v, m),
    }
}

/// `s` with its first stat of kind `k` changed by `m`; unchanged when no stat has kind `k`.
pub open spec fn stat_changed(s: Seq<Stat>, k: StatType, kind: ModifierKind, m: i32) -> Seq<Stat> {
    if has_kind(s, k) {
        let i = first_of(s, k);
        s.update(i, Stat { stat_type: k, value: changed_value(kind, s[i].value, m) })
    } else {
        s
    }
}

/// `s` after changing each kind of `kinds` in turn by the same value `m`.
pub open spec fn each_changed(
    s: Seq<Stat>,
    kinds: Seq<StatType>,
    kind: ModifierKind,
    m: i32,
) -> Seq<Stat>
    decreases kinds.len(),
{
    if kinds.len() == 0 {
        s
    } else {
        stat_changed(each_changed(s, kinds.drop_last(), kind, m), kinds.last(), kind, m)
    }
}

/// `s` after changing each kind of `kinds` in turn by the value at the same position of `values`.
pub open spec fn pairs_changed(
    s: Seq<Stat>,
    kinds: Seq<StatType>,
    values: Seq<i32>,
    kind: ModifierKind,
) -> Seq<Stat>
    decreases kinds.len(),
{
    if kinds.len() == 0 {
        s
    } else {
        let n = kinds.len() - 1;
        stat_changed(pairs_changed(s, kinds.drop_last(), values, kind), kinds[n], kind, values[n])
    }
}

/// Requirements with every amount scaled by `p` percent.
pub open spec fn requirements_scaled(r: Seq<StatRequirement>, p: i32) -> Seq<StatRequirement> {
    r.map_values(
        |q: StatRequirement| StatRequirement { stat_type: q.stat_type, amount: percent_scaled(q.amount, p) },
    )
}

/// Description of a single value on a single stat label: `+5 Strength`, `+50% Life`.
pub open spec fn value_text(kind: ModifierKind, m: i32, label: Seq<char>) -> Seq<char> {
    match kind {
        ModifierKind::Flat => "+"@ + int_chars(m as int) + " "@ + label,
        ModifierKind::Percent => "+"@ + int_chars(m as int) + "% "@ + label,
    }
}

/// One part of a composite description: `+5 Strength`, `+%5 Strength`.
pub open spec fn composite_part(kind: ModifierKind, m: i32, k: StatType) -> Seq<char> {
    match kind {
        ModifierKind::Flat => "+"@ + int_chars(m as int) + " "@ + stat_label(k),
        ModifierKind::Percent => "+%"@ + int_chars(m as int) + " "@ + stat_label(k),
    }
}

/// The parts of a composite description joined by `, `.
pub open spec fn composite_text(kinds: Seq<StatType>, values: Seq<i32>, kind: ModifierKind) -> Seq<
    char,
>
    decreases kinds.len(),
{
    if kinds.len() == 0 {
        Seq::empty()
    } else {
        let n = kinds.len() - 1;
        let sep = if n == 0 {
            Seq::<char>::empty()
        } else {
            ", "@
        };
        composite_text(kinds.drop_last(), values, kind) + sep + composite_part(kind, values[n], kinds[n])
    }
}

/// Description of a requirement modifier: `98% Reduced Requirements`.
pub open spec fn requirement_text(v: i32) -> Seq<char> {
    let magnitude: int = if v < 0 {
        -v
    } else {
        v as int
    };
    let word = if v < 0 {
        "Reduced"@
    } else {
        "Increased"@
    };
    int_chars(magnitude) + "% "@ + word + " "@ + stat_label(StatType::Requirements)
}

fn clamp_to_i32(x: i64) -> (r: i32)
    ensures
        r == clamp_i32(x as int),
{
    if x > i32::MAX as i64 {
        i32::MAX
    } else if x < i32::MIN as i64 {
        i32::MIN
    } else {
        x as i32
    }
}

/// `v + m`, saturated.
pub fn add_flat(v: i32, m: i32) -> (r: i32)
    ensures
        r == flat_added(v, m),
{
    clamp_to_i32(v as i64 + m as i64)
}

/// `v * (100 + p) / 100` rounded toward zero, saturated.
pub fn scale_percent(v: i32, p: i32) -> (r: i32)
    ensures
        r == percent_scaled(v, p),
{
    let factor: i64 = 100i64 + p as i64;
    assert(-0x8000_0000 <= v < 0x8000_0000);
    assert(-0x8000_0000 + 100 <= factor < 0x8000_0000 + 100);
    assert(-0x4000_0000_0000_0000 - 0x80_0000_0000 <= v * factor <= 0x4000_0000_0000_0000
        + 0x80_0000_0000) by (nonlinear_arith)
        requires
            -0x8000_0000 <= v < 0x8000_0000,
            -0x8000_0000 + 100 <= factor < 0x8000_0000 + 100,
    ;
    let product: i64 = v as i64 * factor;
    let quotient: i64 = if product >= 0 {
        ((product as u64) / 100) as i64
    } else {
        -((((-product) as u64) / 100) as i64)
    };
    clamp_to_i32(quotient)
}

/// The new value of a stat after one modifier value of the given kind.
pub fn change_value(kind: ModifierKind, v: i32, m: i32) -> (r: i32)
    ensures
        r == changed_value(kind, v, m),
{
    match kind {
        ModifierKind::Flat => add_flat(v, m),
        ModifierKind::Percent => scale_percent(v, m),
    }
}

/// Changes the first stat of kind `k` in `stats` by `m`.
fn change_stat(stats: &mut StatBlock, k: StatType, kind: ModifierKind, m: i32)
    ensures
        final(stats).stats@ == stat_changed(old(stats).stats@, k, kind, m),
{
    proof {
        if has_kind(stats.stats@, k) {
            lemma_first_of(stats.stats@, k);
        }
    }
    match stats.get_mut(k) {
        Some(st) => {
            st.value = change_value(kind, st.value, m);
        },
        None => {},
    }
}

/// Appends `value_text(kind, m, label@)`.
fn push_value_text(out: &mut String, kind: ModifierKind, m: i32, label: &str)
    ensures
        final(out)@ == old(out)@ + value_text(kind, m, label@),
{
    proof {
        reveal_strlit("+");
        reveal_strlit(" ");
        reveal_strlit("% ");
    }
    out.append("+");
    let number = int_text(m as i64);
    out.append(number.as_str());
    match kind {
        ModifierKind::Flat => out.append(" "),
        ModifierKind::Percent => out.append("% "),
    }
    out.append(label);
    assert(final(out)@ =~= old(out)@ + value_text(kind, m, label@));
}

/// A modifier of stats or requirements, applied to a target during derivation.
pub trait Modifier {
    /// The pass the modifier runs in.
    spec fn spec_pass(&self) -> ModifierPass;

    /// The stat reported as affected, for display.
    spec fn spec_affected_stat(&self) -> StatType;

    /// The human-readable description.
    spec fn spec_description(&self) -> Seq<char>;

    /// The effect on a stat block handed over as a target of kind `tk`.
    spec fn stats_effect(&self, tk: ModifierTargetKind, s: Seq<Stat>) -> Seq<Stat>;

    /// The effect on a requirement block handed over as a target.
    spec fn requirements_effect(&self, r: Seq<StatRequirement>) -> Seq<StatRequirement>;

    fn apply_to(&self, target: ModifierTarget)
        ensures
            match target {
                ModifierTarget::Character(s) => final(s).stats@ == self.stats_effect(
                    ModifierTargetKind::Character,
                    s.stats@,
                ),
                ModifierTarget::Item(s) => final(s).stats@ == self.stats_effect(
                    ModifierTargetKind::Item,
                    s.stats@,
                ),
                ModifierTarget::Requirements(r) => final(r).requirements@
                    == self.requirements_effect(r.requirements@),
            },
    ;

    fn pass(&self) -> (r: &ModifierPass)
        ensures
            *r == self.spec_pass(),
    ;

    fn description(&self) -> (r: String)
        ensures
            r@ == self.spec_description(),
    ;

    fn get_affected_stat(&self) -> (r: StatType)
        ensures
            r == self.spec_affected_stat(),
    ;
}

/// Adds a value to one stat; always in the flat pass.
#[derive(Clone, Debug)]
pub struct FlatStatModifier {
    pub value: i32,
    pub stat: StatType,
    pub target: ModifierTargetKind,
}

impl Modifier for FlatStatModifier {
    open spec fn spec_pass(&self) -> ModifierPass {
        ModifierPass::Flat
    }

    open spec fn spec_affected_stat(&self) -> StatType {
        self.stat
    }

    open spec fn spec_description(&self) -> Seq<char> {
        value_text(ModifierKind::Flat, self.value, stat_label(self.stat))
    }

    open spec fn stats_effect(&self, tk: ModifierTargetKind, s: Seq<Stat>) -> Seq<Stat> {
        if tk == self.target {
            stat_changed(s, self.stat, ModifierKind::Flat, self.value)
        } else {
            s
        }
    }

    open spec fn requirements_effect(&self, r: Seq<StatRequirement>) -> Seq<StatRequirement> {
        r
    }

    fn apply_to(&self, target: ModifierTarget) {
        if target.kind() != self.target {
            return ;
        }
        match target {
            ModifierTarget::Character(stats) | ModifierTarget::Item(stats) => {
                change_stat(stats, self.stat, ModifierKind::Flat, self.value);
            },
            ModifierTarget::Requirements(_) => {},
        }
    }

    fn pass(&self) -> (r: &ModifierPass) {
        &ModifierPass::Flat
    }

    fn description(&self) -> (r: String) {
        let mut out = String::new();
        push_value_text(&mut out, ModifierKind::Flat, self.value, self.stat.label());
        out
    }

    fn get_affected_stat(&self) -> (r: StatType) {
        self.stat
    }
}

/// Changes each kind of `kinds` in turn by `m`.
fn change_each(stats: &mut StatBlock, kinds: &Vec<StatType>, kind: ModifierKind, m: i32)
    ensures
        final(stats).stats@ == each_changed(old(stats).stats@, kinds@, kind, m),
{
    let mut i: usize = 0;
    while i < kinds.len()
        invariant
            i <= kinds.len(),
            stats.stats@ == each_changed(old(stats).stats@, kinds@.subrange(0, i as int), kind, m),
        decreases kinds.len() - i,
    {
        change_stat(stats, kinds[i], kind, m);
        assert(kinds@.subrange(0, i + 1).drop_last() =~= kinds@.subrange(0, i as int));
        i = i + 1;
    }
    assert(kinds@.subrange(0, kinds.len() as int) =~= kinds@);
}

/// Changes each kind of `kinds` in turn by the value at the same position of `values`.
fn change_pairs(
    stats: &mut StatBlock,
    kinds: &Vec<StatType>,
    values: &Vec<i32>,
    kind: ModifierKind,
)
    requires
        kinds.len() <= values.len(),
    ensures
        final(stats).stats@ == pairs_changed(old(stats).stats@, kinds@, values@, kind),
{
    let mut i: usize = 0;
    while i < kinds.len()
        invariant
            i <= kinds.len() <= values.len(),
            stats.stats@ == pairs_changed(
                old(stats).stats@,
                kinds@.subrange(0, i as int),
                values@,
                kind,
            ),
        decreases kinds.len() - i,
    {
        change_stat(stats, kinds[i], kind, values[i]);
        assert(kinds@.subrange(0, i + 1).drop_last() =~= kinds@.subrange(0, i as int));
        i = i + 1;
    }
    assert(kinds@.subrange(0, kinds.len() as int) =~= kinds@);
}

/// Adds or percent-scales one stat.
#[derive(Clone, Debug)]
pub struct BasicStatModifier {
    pub value: i32,
    pub stat: StatType,
    pub modifier_kind: ModifierKind,
    pub modifier_pass: ModifierPass,
    pub target: ModifierTargetKind,
}

impl Modifier for BasicStatModifier {
    open spec fn spec_pass(&self) -> ModifierPass {
        self.modifier_pass
    }

    open spec fn spec_affected_stat(&self) -> StatType {
        self.stat
    }

    open spec fn spec_description(&self) -> Seq<char> {
        value_text(self.modifier_kind, self.value, stat_label(self.stat))
    }

    open spec fn stats_effect(&self, tk: ModifierTargetKind, s: Seq<Stat>) -> Seq<Stat> {
        if tk == self.target {
            stat_changed(s, self.stat, self.modifier_kind, self.value)
        } else {
            s
        }
    }

    open spec fn requirements_effect(&self, r: Seq<StatRequirement>) -> Seq<StatRequirement> {
        r
    }

    fn apply_to(&self, target: ModifierTarget) {
        if target.kind() != self.target {
            return ;
        }
        match target {
            ModifierTarget::Character(stats) | ModifierTarget::Item(stats) => {
                change_stat(stats, self.stat, self.modifier_kind, self.value);
            },
            ModifierTarget::Requirements(_) => {},
        }
    }

    fn pass(&self) -> (r: &ModifierPass) {
        &self.modifier_pass
    }

    fn description(&self) -> (r: String) {
        let mut out = String::new();
        push_value_text(&mut out, self.modifier_kind, self.value, self.stat.label());
        out
    }

    fn get_affected_stat(&self) -> (r: StatType) {
        self.stat
    }
}

/// Applies one value to every stat of a list; described under a single front label.
#[derive(Clone, Debug)]
pub struct FrontStatModifier {
    pub front: StatType,
    pub value: i32,
    pub stats: Vec<StatType>,
    pub modifier_kind: ModifierKind,
    pub modifier_pass: ModifierPass,
    pub target: ModifierTargetKind,
}

impl Modifier for FrontStatModifier {
    open spec fn spec_pass(&self) -> ModifierPass {
        self.modifier_pass
    }

    open spec fn spec_affected_stat(&self) -> StatType {
        self.front
    }

    open spec fn spec_description(&self) -> Seq<char> {
        value_text(self.modifier_kind, self.value, stat_label(self.front))
    }

    open spec fn stats_effect(&self, tk: ModifierTargetKind, s: Seq<Stat>) -> Seq<Stat> {
        if tk == self.target {
            each_changed(s, self.stats@, self.modifier_kind, self.value)
        } else {
            s
        }
    }

    open spec fn requirements_effect(&self, r: Seq<StatRequirement>) -> Seq<StatRequirement> {
        r
    }

    fn apply_to(&self, target: ModifierTarget) {
        if target.kind() != self.target {
            return ;
        }
        match target {
            ModifierTarget::Character(stats) | ModifierTarget::Item(stats) => {
                change_each(stats, &self.stats, self.modifier_kind, self.value);
            },
            ModifierTarget::Requirements(_) => {},
        }
    }

    fn pass(&self) -> (r: &ModifierPass) {
        &self.modifier_pass
    }

    fn description(&self) -> (r: String) {
        let mut out = String::new();
        push_value_text(&mut out, self.modifier_kind, self.value, self.front.label());
        out
    }

    fn get_affected_stat(&self) -> (r: StatType) {
        self.front
    }
}

/// Applies a distinct value to each stat of a list. The two lists are parallel
/// and not empty.
#[derive(Debug)]
pub struct CompositeStatModifier {
    values: Vec<i32>,
    stats: Vec<StatType>,
    modifier_kind: ModifierKind,
    modifier_pass: ModifierPass,
    target: ModifierTargetKind,
}

impl CompositeStatModifier {
    #[verifier::type_invariant]
    spec fn well_formed(&self) -> bool {
        &&& self.stats.len() == self.values.len()
        &&& self.stats.len() > 0
    }

    pub closed spec fn spec_values(&self) -> Seq<i32> {
        self.values@
    }

    pub closed spec fn spec_stats(&self) -> Seq<StatType> {
        self.stats@
    }

    pub closed spec fn spec_kind(&self) -> ModifierKind {
        self.modifier_kind
    }

    pub closed spec fn spec_modifier_pass(&self) -> ModifierPass {
        self.modifier_pass
    }

    pub closed spec fn spec_target(&self) -> ModifierTargetKind {
        self.target
    }

    /// Builds the modifier; the value list must be as long as the stat list,
    /// and neither may be empty.
    pub fn new(
        values: Vec<i32>,
        stats: Vec<StatType>,
        modifier_kind: ModifierKind,
        modifier_pass: ModifierPass,
        target: ModifierTargetKind,
    ) -> (r: Self)
        requires
            values.len() == stats.len(),
            stats.len() > 0,
        ensures
            r.spec_values() == values@,
            r.spec_stats() == stats@,
            r.spec_kind() == modifier_kind,
            r.spec_modifier_pass() == modifier_pass,
            r.spec_target() == target,
    {
        CompositeStatModifier { values, stats, modifier_kind, modifier_pass, target }
    }

    pub fn values(&self) -> (r: &Vec<i32>)
        ensures
            r@ == self.spec_values(),
    {
        &self.values
    }

    /// The stat list, which is as long as the value list and not empty.
    pub fn stats(&self) -> (r: &Vec<StatType>)
        ensures
            r@ == self.spec_stats(),
            r@.len() == self.spec_values().len(),
            r@.len() > 0,
    {
        proof {
            use_type_invariant(self);
        }
        &self.stats
    }

    pub fn modifier_kind(&self) -> (r: ModifierKind)
        ensures
            r == self.spec_kind(),
    {
        self.modifier_kind
    }

    pub fn target(&self) -> (r: ModifierTargetKind)
        ensures
            r == self.spec_target(),
    {
        self.target
    }
}

impl Clone for CompositeStatModifier {
    fn clone(&self) -> (r: Self)
        ensures
            r.spec_values() == self.spec_values(),
            r.spec_stats() == self.spec_stats(),
            r.spec_kind() == self.spec_kind(),
            r.spec_modifier_pass() == self.spec_modifier_pass(),
            r.spec_target() == self.spec_target(),
    {
        proof {
            use_type_invariant(self);
        }
        CompositeStatModifier {
            values: self.values.clone(),
            stats: self.stats.clone(),
            modifier_kind: self.modifier_kind,
            modifier_pass: self.modifier_pass,
            target: self.target,
        }
    }
}

/// Appends `composite_part(kind, m, k)`.
fn push_composite_part(out: &mut String, kind: ModifierKind, m: i32, k: StatType)
    ensures
        final(out)@ == old(out)@ + composite_part(kind, m, k),
{
    proof {
        reveal_strlit("+");
        reveal_strlit("+%");
        reveal_strlit(" ");
    }
    match kind {
        ModifierKind::Flat => out.append("+"),
        ModifierKind::Percent => out.append("+%"),
    }
    let number = int_text(m as i64);
    out.append(number.as_str());
    out.append(" ");
    out.append(k.label());
    assert(final(out)@ =~= old(out)@ + composite_part(kind, m, k));
}

impl Modifier for CompositeStatModifier {
    open spec fn spec_pass(&self) -> ModifierPass {
        self.spec_modifier_pass()
    }

    open spec fn spec_affected_stat(&self) -> StatType {
        self.spec_stats()[0]
    }

    open spec fn spec_description(&self) -> Seq<char> {
        composite_text(self.spec_stats(), self.spec_values(), self.spec_kind())
    }

    open spec fn stats_effect(&self, tk: ModifierTargetKind, s: Seq<Stat>) -> Seq<Stat> {
        if tk == self.spec_target() {
            pairs_changed(s, self.spec_stats(), self.spec_values(), self.spec_kind())
        } else {
            s
        }
    }

    open spec fn requirements_effect(&self, r: Seq<StatRequirement>) -> Seq<StatRequirement> {
        r
    }

    fn apply_to(&self, target: ModifierTarget) {
        proof {
            use_type_invariant(self);
        }
        if target.kind() != self.target {
            return ;
        }
        match target {
            ModifierTarget::Character(stats) | ModifierTarget::Item(stats) => {
                change_pairs(stats, &self.stats, &self.values, self.modifier_kind);
            },
            ModifierTarget::Requirements(_) => {},
        }
    }

    fn pass(&self) -> (r: &ModifierPass) {
        &self.modifier_pass
    }

    fn description(&self) -> (r: String) {
        proof {
            use_type_invariant(self);
            reveal_strlit(", ");
        }
        let mut out = String::new();
        let mut i: usize = 0;
        while i < self.stats.len()
            invariant
                i <= self.stats.len() == self.values.len(),
                out@ == composite_text(
                    self.stats@.subrange(0, i as int),
                    self.values@,
                    self.modifier_kind,
                ),
            decreases self.stats.len() - i,
        {
            if i > 0 {
                out.append(", ");
            }
            push_composite_part(&mut out, self.modifier_kind, self.values[i], self.stats[i]);
            assert(self.stats@.subrange(0, i + 1).drop_last() =~= self.stats@.subrange(0, i as int));
            i = i + 1;
        }
        assert(self.stats@.subrange(0, self.stats.len() as int) =~= self.stats@);
        out
    }

    fn get_affected_stat(&self) -> (r: StatType) {
        proof {
            use_type_invariant(self);
        }
        self.stats[0]
    }
}

/// Scales every requirement amount of `reqs` by `p` percent.
fn scale_requirements(reqs: &mut RequirementBlock, p: i32)
    ensures
        final(reqs).requirements@ == requirements_scaled(old(reqs).requirements@, p),
{
    let n = reqs.requirements.len();
    let mut i: usize = 0;
    while i < n
        invariant
            i <= n == reqs.requirements@.len() == old(reqs).requirements@.len(),
            forall|j: int|
                0 <= j < i ==> #[trigger] reqs.requirements@[j] == requirements_scaled(
                    old(reqs).requirements@,
                    p,
                )[j],
            forall|j: int| i <= j < n ==> #[trigger] reqs.requirements@[j] == old(reqs).requirements@[j],
        decreases n - i,
    {
        let q = reqs.requirements[i];
        let amount = scale_percent(q.amount, p);
        reqs.requirements.set(i, StatRequirement { stat_type: q.stat_type, amount });
        i = i + 1;
    }
    assert(reqs.requirements@ =~= requirements_scaled(old(reqs).requirements@, p));
}

/// Scales every requirement amount by a signed percentage.
#[derive(Clone, Debug)]
pub struct RequirementModifier {
    pub value: i32,
}

impl Modifier for RequirementModifier {
    open spec fn spec_pass(&self) -> ModifierPass {
        ModifierPass::Requirements
    }

    open spec fn spec_affected_stat(&self) -> StatType {
        StatType::Requirements
    }

    open spec fn spec_description(&self) -> Seq<char> {
        requirement_text(self.value)
    }

    open spec fn stats_effect(&self, tk: ModifierTargetKind, s: Seq<Stat>) -> Seq<Stat> {
        s
    }

    open spec fn requirements_effect(&self, r: Seq<StatRequirement>) -> Seq<StatRequirement> {
        requirements_scaled(r, self.value)
    }

    fn apply_to(&self, target: ModifierTarget) {
        match target {
            ModifierTarget::Requirements(reqs) => scale_requirements(reqs, self.value),
            _ => {},
        }
    }

    fn pass(&self) -> (r: &ModifierPass) {
        &ModifierPass::Requirements
    }

    fn description(&self) -> (r: String) {
        proof {
            reveal_strlit("% ");
            reveal_strlit("Reduced");
            reveal_strlit("Increased");
            reveal_strlit(" ");
        }
        let magnitude: i64 = if self.value < 0 {
            -(self.value as i64)
        } else {
            self.value as i64
        };
        let mut out = int_text(magnitude);
        out.append("% ");
        if self.value < 0 {
            out.append("Reduced");
        } else {
            out.append("Increased");
        }
        out.append(" ");
        out.append(StatType::Requirements.label());
        assert(out@ =~= requirement_text(self.value));
        out
    }

    fn get_affected_stat(&self) -> (r: StatType) {
        StatType::Requirements
    }
}

/// The data set a modifier may change; a requirement modifier changes requirements.
pub open spec fn target_of(m: ItemModifier) -> ModifierTargetKind {
    match m {
        ItemModifier::Flat(f) => f.target,
        ItemModifier::Basic(b) => b.target,
        ItemModifier::Front(f) => f.target,
        ItemModifier::Composite(c) => c.spec_target(),
        ItemModifier::Requirement(_) => ModifierTargetKind::Requirements,
    }
}

/// Any of the modifier variants, as stored in an item's ordered modifier list.
#[derive(Clone, Debug)]
pub enum ItemModifier {
    Flat(FlatStatModifier),
    Basic(BasicStatModifier),
    Front(FrontStatModifier),
    Composite(CompositeStatModifier),
    Requirement(RequirementModifier),
}

impl Modifier for ItemModifier {
    open spec fn spec_pass(&self) -> ModifierPass {
        match self {
            ItemModifier::Flat(m) => m.spec_pass(),
            ItemModifier::Basic(m) => m.spec_pass(),
            ItemModifier::Front(m) => m.spec_pass(),
            ItemModifier::Composite(m) => m.spec_pass(),
            ItemModifier::Requirement(m) => m.spec_pass(),
        }
    }

    open spec fn spec_affected_stat(&self) -> StatType {
        match self {
            ItemModifier::Flat(m) => m.spec_affected_stat(),
            ItemModifier::Basic(m) => m.spec_affected_stat(),
            ItemModifier::Front(m) => m.spec_affected_stat(),
            ItemModifier::Composite(m) => m.spec_affected_stat(),
            ItemModifier::Requirement(m) => m.spec_affected_stat(),
        }
    }

    open spec fn spec_description(&self) -> Seq<char> {
        match self {
            ItemModifier::Flat(m) => m.spec_description(),
            ItemModifier::Basic(m) => m.spec_description(),
            ItemModifier::Front(m) => m.spec_description(),
            ItemModifier::Composite(m) => m.spec_description(),
            ItemModifier::Requirement(m) => m.spec_description(),
        }
    }

    open spec fn stats_effect(&self, tk: ModifierTargetKind, s: Seq<Stat>) -> Seq<Stat> {
        match self {
            ItemModifier::Flat(m) => m.stats_effect(tk, s),
            ItemModifier::Basic(m) => m.stats_effect(tk, s),
            ItemModifier::Front(m) => m.stats_effect(tk, s),
            ItemModifier::Composite(m) => m.stats_effect(tk, s),
            ItemModifier::Requirement(m) => m.stats_effect(tk, s),
        }
    }

    open spec fn requirements_effect(&self, r: Seq<StatRequirement>) -> Seq<StatRequirement> {
        match self {
            ItemModifier::Flat(m) => m.requirements_effect(r),
            ItemModifier::Basic(m) => m.requirements_effect(r),
            ItemModifier::Front(m) => m.requirements_effect(r),
            ItemModifier::Composite(m) => m.requirements_effect(r),
            ItemModifier::Requirement(m) => m.requirements_effect(r),
        }
    }

    fn apply_to(&self, target: ModifierTarget) {
        match self {
            ItemModifier::Flat(m) => m.apply_to(target),
            ItemModifier::Basic(m) => m.apply_to(target),
            ItemModifier::Front(m) => m.apply_to(target),
            ItemModifier::Composite(m) => m.apply_to(target),
            ItemModifier::Requirement(m) => m.apply_to(target),
        }
    }

    fn pass(&self) -> (r: &ModifierPass) {
        match self {
            ItemModifier::Flat(m) => m.pass(),
            ItemModifier::Basic(m) => m.pass(),
            ItemModifier::Front(m) => m.pass(),
            ItemModifier::Composite(m) => m.pass(),
            ItemModifier::Requirement(m) => m.pass(),
        }
    }

    fn description(&self) -> (r: String) {
        match self {
            ItemModifier::Flat(m) => m.description(),
            ItemModifier::Basic(m) => m.description(),
            ItemModifier::Front(m) => m.description(),
            ItemModifier::Composite(m) => m.description(),
            ItemModifier::Requirement(m) => m.description(),
        }
    }

    fn get_affected_stat(&self) -> (r: StatType) {
        match self {
            ItemModifier::Flat(m) => m.get_affected_stat(),
            ItemModifier::Basic(m) => m.get_affected_stat(),
            ItemModifier::Front(m) => m.get_affected_stat(),
            ItemModifier::Composite(m) => m.get_affected_stat(),
            ItemModifier::Requirement(m) => m.get_affected_stat(),
        }
    }
}

} // verus!
