use vstd::prelude::*;

verus! {

/// Where a newly spawned projectile or drone goes in a list of entities.
#[derive(Debug, Clone, Copy, PartialEq, Eq, Structural)]
pub enum Slot {
    /// Overwrite the spent entity at this index.
    Reuse(usize),
    /// Append at the end of the list.
    Append,
    /// The list is at capacity with every entity still live: the spawn is dropped.
    Full,
}

/// The spawn rule: the first spent entry is reused; with none, the list grows while it is
/// below `cap` (no limit when `cap` is `None`); otherwise the spawn is dropped.
pub open spec fn slot_rule(active: Seq<bool>, cap: Option<usize>, s: Slot) -> bool {
    match s {
        Slot::Reuse(i) => {
            &&& i < active.len()
            &&& !active[i as int]
            &&& forall|j: int| 0 <= j < i ==> #[trigger] active[j]
        },
        Slot::Append => {
            &&& forall|j: int| 0 <= j < active.len() ==> #[trigger] active[j]
            &&& match cap {
                Some(c) => active.len() < c,
                None => true,
            }
        },
        Slot::Full => {
            &&& forall|j: int| 0 <= j < active.len() ==> #[trigger] active[j]
            &&& match cap {
                Some(c) => active.len() >= c,
                None => false,
            }
        },
    }
}

/// The activity flags after a new live entity is placed in slot `s`.
pub open spec fn place(active: Seq<bool>, s: Slot) -> Seq<bool> {
    match s {
        Slot::Reuse(i) => active.update(i as int, true),
        Slot::Append => active.push(true),
        Slot::Full => active,
    }
}

/// Number of set flags.
pub open spec fn count_set(s: Seq<bool>) -> nat
    decreases s.len(),
{
    if s.len() == 0 {
        0
    } else {
        count_set(s.drop_last()) + if s.last() { 1nat } else { 0nat }
    }
}

/// Chooses the slot for a new entity given which entries are live (see `slot_rule`).
pub fn spawn_slot(active: &Vec<bool>, cap: Option<usize>) -> (s: Slot)
    ensures
        slot_rule(active@, cap, s),
{
    let n = active.len();
    let mut i: usize = 0;
    while i < n
        invariant
            n == active@.len(),
            0 <= i <= n,
            forall|j: int| 0 <= j < i ==> #[trigger] active@[j],
        decreases n - i,
    {
        if !active[i] {
            return Slot::Reuse(i);
        }
        i += 1;
    }
    match cap {
        Some(c) => if n < c { Slot::Append } else { Slot::Full },
        None => Slot::Append,
    }
}

/// How many flags are set (for example, how many player missiles are in flight).
pub fn count_active(flags: &Vec<bool>) -> (n: usize)
    ensures
        n == count_set(flags@),
{
    let len = flags.len();
    let mut n: usize = 0;
    let mut i: usize = 0;
    while i < len
        invariant
            len == flags@.len(),
            0 <= i <= len,
            n == count_set(flags@.take(i as int)),
            n <= i,
        decreases len - i,
    {
        assert(flags@.take(i + 1).drop_last() =~= flags@.take(i as int));
        if flags[i] {
            n += 1;
        }
        i += 1;
    }
    assert(flags@.take(len as int) =~= flags@);
    n
}

/// No flag of `s` is set.
pub open spec fn none_set(s: Seq<bool>) -> bool {
    forall|i: int| 0 <= i < s.len() ==> !#[trigger] s[i]
}

/// Whether no flag is set (for example, whether every enemy of a kind is gone).
pub fn none_active(flags: &Vec<bool>) -> (b: bool)
    ensures
        b == none_set(flags@),
{
    let len = flags.len();
    let mut i: usize = 0;
    while i < len
        invariant
            len == flags@.len(),
            0 <= i <= len,
            forall|j: int| 0 <= j < i ==> !#[trigger] flags@[j],
        decreases len - i,
    {
        if flags[i] {
            return false;
        }
        i += 1;
    }
    true
}

proof fn lemma_count_update_free(s: Seq<bool>, i: int)
    requires
        0 <= i < s.len(),
        !s[i],
    ensures
        count_set(s.update(i, true)) == count_set(s) + 1,
    decreases s.len(),
{
    let u = s.update(i, true);
    if i == s.len() - 1 {
        assert(u.drop_last() =~= s.drop_last());
    } else {
        assert(u.drop_last() =~= s.drop_last().update(i, true));
        lemma_count_update_free(s.drop_last(), i);
    }
}

/// Law: placing a spawn never grows a list past its capacity, and it adds exactly one
/// live entity unless the list was full.
pub proof fn law_spawn_respects_capacity(active: Seq<bool>, cap: Option<usize>, s: Slot)
    requires
        slot_rule(active, cap, s),
        cap matches Some(c) ==> active.len() <= c,
    ensures
        cap matches Some(c) ==> place(active, s).len() <= c,
        s != Slot::Full ==> count_set(place(active, s)) == count_set(active) + 1,
        s == Slot::Full ==> place(active, s) == active,
{
    match s {
        Slot::Reuse(i) => {
            lemma_count_update_free(active, i as int);
        },
        Slot::Append => {
            assert(active.push(true).drop_last() =~= active);
        },
        Slot::Full => {},
    }
}

} // verus!
