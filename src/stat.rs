use vstd::prelude::*;

verus! {

/// The closed set of stat kinds. `Requirements` and `IncreasedDamage` are
/// pseudo-kinds used only as labels in modifier descriptions.
#[derive(Clone, Copy, Debug, PartialEq, Eq, Structural)]
pub enum StatType {
    Strength,
    Intelligence,
    Dexterity,
    Level,
    Requirements,
    IncreasedDamage,
    IncreasedAttackSpeed,
    MinimumDamage,
    MaximumDamage,
    Defense,
    Life,
}

/// Display name of a stat kind.
pub open spec fn stat_label(k: StatType) -> Seq<char> {
    match k {
        StatType::Strength => "Strength"@,
        StatType::Intelligence => "Intelligence"@,
        StatType::Dexterity => "Dexterity"@,
        StatType::Level => "Level"@,
        StatType::Requirements => "Requirements"@,
        StatType::IncreasedDamage => "Increased Damage"@,
        StatType::IncreasedAttackSpeed => "Increased Attack Speed"@,
        StatType::MinimumDamage => "Minimum Damage"@,
        StatType::MaximumDamage => "Maximum Damage"@,
        StatType::Defense => "Defence"@,
        StatType::Life => "Life"@,
    }
}

impl StatType {
    /// The name under which the stat kind is displayed.
    pub fn label(&self) -> (r: &'static str)
        ensures
            r@ == stat_label(*self),
    {
        match self {
            StatType::Strength => "Strength",
            StatType::Intelligence => "Intelligence",
            StatType::Dexterity => "Dexterity",
            StatType::Level => "Level",
            StatType::Requirements => "Requirements",
            StatType::IncreasedDamage => "Increased Damage",
            StatType::IncreasedAttackSpeed => "Increased Attack Speed",
            StatType::MinimumDamage => "Minimum Damage",
            StatType::MaximumDamage => "Maximum Damage",
            StatType::Defense => "Defence",
            StatType::Life => "Life",
        }
    }
}

/// A typed numeric value; its identity is its kind.
#[derive(Clone, Copy, Debug, PartialEq, Eq, Structural)]
pub struct Stat {
    pub stat_type: StatType,
    pub value: i32,
}

impl Stat {
    pub fn new(stat_type: StatType, value: i32) -> (r: Stat)
        ensures
            r.stat_type == stat_type,
            r.value == value,
    {
        Stat { stat_type, value }
    }
}

/// Some stat of `s` has kind `k`.
pub open spec fn has_kind(s: Seq<Stat>, k: StatType) -> bool {
    exists|i: int| 0 <= i < s.len() && #[trigger] s[i].stat_type == k
}

/// `i` is the position of the first stat of kind `k` in `s`.
pub open spec fn is_first_of(s: Seq<Stat>, k: StatType, i: int) -> bool {
    &&& 0 <= i < s.len()
    &&& s[i].stat_type == k
    &&& forall|j: int| 0 <= j < i ==> #[trigger] s[j].stat_type != k
}

/// The position of the first stat of kind `k` (meaningful when `has_kind(s, k)`).
pub open spec fn first_of(s: Seq<Stat>, k: StatType) -> int {
    choose|i: int| is_first_of(s, k, i)
}

/// The stat that a lookup of kind `k` finds in `s`: the first one of that kind.
pub open spec fn stat_of(s: Seq<Stat>, k: StatType) -> Option<Stat> {
    if has_kind(s, k) {
        Some(s[first_of(s, k)])
    } else {
        None
    }
}

/// `s` after adding `st`: unchanged when a stat of the same kind is present.
pub open spec fn added(s: Seq<Stat>, st: Stat) -> Seq<Stat> {
    if has_kind(s, st.stat_type) {
        s
    } else {
        s.push(st)
    }
}

/// At most one stat per kind.
pub open spec fn kinds_unique(s: Seq<Stat>) -> bool {
    forall|i: int, j: int|
        0 <= i < s.len() && 0 <= j < s.len() && i != j ==> #[trigger] s[i].stat_type
            != #[trigger] s[j].stat_type
}

/// Whenever `has_kind` holds, the first stat of that kind exists.
pub proof fn lemma_first_of(s: Seq<Stat>, k: StatType)
    requires
        has_kind(s, k),
    ensures
        is_first_of(s, k, first_of(s, k)),
    decreases s.len(),
{
    if s.last().stat_type == k && !has_kind(s.drop_last(), k) {
        let i = s.len() - 1;
        assert forall|j: int| 0 <= j < i implies #[trigger] s[j].stat_type != k by {
            assert(s.drop_last()[j] == s[j]);
        }
        assert(is_first_of(s, k, i));
    } else {
        let p = s.drop_last();
        let w = choose|i: int| 0 <= i < s.len() && #[trigger] s[i].stat_type == k;
        if w == s.len() - 1 {
            assert(has_kind(p, k));
        } else {
            assert(p[w] == s[w]);
            assert(has_kind(p, k));
        }
        lemma_first_of(p, k);
        let i = first_of(p, k);
        assert(p[i] == s[i]);
        assert forall|j: int| 0 <= j < i implies #[trigger] s[j].stat_type != k by {
            assert(p[j] == s[j]);
        }
        assert(is_first_of(s, k, i));
    }
}

/// An ordered collection of stats, looked up by kind.
#[derive(Debug)]
pub struct StatBlock {
    pub stats: Vec<Stat>,
}

impl StatBlock {
    /// Position of the first stat of kind `k`, if any.
    fn position(&self, k: StatType) -> (r: Option<usize>)
        ensures
            r is Some <==> has_kind(self.stats@, k),
            r is Some ==> is_first_of(self.stats@, k, r.unwrap() as int) && first_of(
                self.stats@,
                k,
            ) == r.unwrap() as int,
    {
        let mut i: usize = 0;
        while i < self.stats.len()
            invariant
                i <= self.stats.len(),
                forall|j: int| 0 <= j < i ==> #[trigger] self.stats@[j].stat_type != k,
            decreases self.stats.len() - i,
        {
            if self.stats[i].stat_type == k {
                assert(is_first_of(self.stats@, k, i as int));
                return Some(i);
            }
            i = i + 1;
        }
        None
    }

    /// The first stat of kind `k`, if any.
    pub fn get(&self, stat_type: StatType) -> (r: Option<&Stat>)
        ensures
            r is Some <==> has_kind(self.stats@, stat_type),
            r is Some ==> stat_of(self.stats@, stat_type) == Some(*r.unwrap()),
    {
        match self.position(stat_type) {
            Some(i) => Some(&self.stats[i]),
            None => None,
        }
    }

    /// A mutable borrow of the first stat of kind `k`, if any; writes through it
    /// land at that stat's position.
    pub fn get_mut(&mut self, stat_type: StatType) -> (r: Option<&mut Stat>)
        ensures
            r is Some <==> has_kind(old(self).stats@, stat_type),
            match r {
                Some(st) => {
                    &&& stat_of(old(self).stats@, stat_type) == Some(*st)
                    &&& final(self).stats@ == old(self).stats@.update(
                        first_of(old(self).stats@, stat_type),
                        *final(st),
                    )
                },
                None => *final(self) == *old(self),
            },
    {
        match self.position(stat_type) {
            Some(i) => Some(&mut self.stats[i]),
            None => None,
        }
    }

    /// Some stat of kind `k` is present.
    pub fn has(&self, stat_type: StatType) -> (r: bool)
        ensures
            r == has_kind(self.stats@, stat_type),
    {
        self.position(stat_type).is_some()
    }

    /// Adds `stat` unless a stat of its kind is already present.
    pub fn add(&mut self, stat: Stat)
        ensures
            final(self).stats@ == added(old(self).stats@, stat),
    {
        if self.has(stat.stat_type) {
            return ;
        }
        self.stats.push(stat);
    }
}

impl Clone for StatBlock {
    fn clone(&self) -> (r: Self)
        ensures
            r.stats@ == self.stats@,
    {
        StatBlock { stats: self.stats.clone() }
    }
}

impl Default for StatBlock {
    fn default() -> (r: Self)
        ensures
            r.stats@ == Seq::<Stat>::empty(),
    {
        StatBlock { stats: Vec::new() }
    }
}

} // verus!
