use vstd::prelude::*;
use crate::types::LockedTarget;

verus! {

/// One enemy as the targeting computer sees it: whether it qualifies (live, not burning,
/// and for lock-on inside range and the forward cone), and its distance from the
/// helicopter or missile as an ordering key: smaller keys are nearer, equal keys equally
/// near.
#[derive(Debug, Clone, Copy, PartialEq, Eq)]
pub struct Contact {
    pub eligible: bool,
    pub range_key: u64,
}

/// The nearest qualifying contact strictly closer than `bound`, the earliest one among
/// equally near contacts, found by a scan that only switches to strictly nearer ones.
pub open spec fn scan_nearest(s: Seq<Contact>, bound: u64) -> Option<int>
    decreases s.len(),
{
    if s.len() == 0 {
        None
    } else {
        let prev = scan_nearest(s.drop_last(), bound);
        let best = match prev {
            None => bound,
            Some(i) => s[i].range_key,
        };
        if s.last().eligible && s.last().range_key < best {
            Some(s.len() - 1)
        } else {
            prev
        }
    }
}

proof fn lemma_scan_nearest(s: Seq<Contact>, bound: u64)
    ensures
        scan_nearest(s, bound) matches Some(i) ==> {
            &&& 0 <= i < s.len()
            &&& s[i].eligible
            &&& s[i].range_key < bound
            &&& forall|j: int| 0 <= j < s.len() && #[trigger] s[j].eligible ==> s[i].range_key <= s[j].range_key
            &&& forall|j: int| 0 <= j < i && #[trigger] s[j].eligible ==> s[i].range_key < s[j].range_key
        },
        scan_nearest(s, bound) is None ==> forall|j: int| 0 <= j < s.len() && #[trigger] s[j].eligible ==> s[j].range_key >= bound,
    decreases s.len(),
{
    if s.len() > 0 {
        let d = s.drop_last();
        let n = s.len() - 1;
        lemma_scan_nearest(d, bound);
        assert forall|j: int| 0 <= j < d.len() implies #[trigger] d[j] == s[j] by {}
        assert(s.last() == s[n]);
        let prev = scan_nearest(d, bound);
        match prev {
            None => {
                if s[n].eligible && s[n].range_key < bound {
                    assert forall|j: int| 0 <= j < s.len() && #[trigger] s[j].eligible implies s[n].range_key <= s[j].range_key by {
                        if j < n {
                            assert(d[j].eligible);
                        }
                    }
                    assert forall|j: int| 0 <= j < n && #[trigger] s[j].eligible implies s[n].range_key < s[j].range_key by {
                        assert(d[j].eligible);
                    }
                } else {
                    assert forall|j: int| 0 <= j < s.len() && #[trigger] s[j].eligible implies s[j].range_key >= bound by {
                        if j < n {
                            assert(d[j].eligible);
                        }
                    }
                }
            },
            Some(b) => {
                if s[n].eligible && s[n].range_key < s[b].range_key {
                    assert forall|j: int| 0 <= j < s.len() && #[trigger] s[j].eligible implies s[n].range_key <= s[j].range_key by {
                        if j < n {
                            assert(d[j].eligible);
                        }
                    }
                    assert forall|j: int| 0 <= j < n && #[trigger] s[j].eligible implies s[n].range_key < s[j].range_key by {
                        assert(d[j].eligible);
                    }
                } else {
                    assert forall|j: int| 0 <= j < s.len() && #[trigger] s[j].eligible implies s[b].range_key <= s[j].range_key by {
                        if j < n {
                            assert(d[j].eligible);
                        }
                    }
                    assert forall|j: int| 0 <= j < b && #[trigger] s[j].eligible implies s[b].range_key < s[j].range_key by {
                        assert(d[j].eligible);
                    }
                }
            },
        }
    }
}

/// Law: the targeting scan picks a qualifying contact nearer than the bound, no qualifying
/// contact is nearer, and every equally near one comes later; when it picks none, no
/// qualifying contact is nearer than the bound.
pub proof fn law_nearest_is_minimal(s: Seq<Contact>, bound: u64)
    ensures
        scan_nearest(s, bound) matches Some(i) ==> {
            &&& 0 <= i < s.len()
            &&& s[i].eligible
            &&& s[i].range_key < bound
            &&& forall|j: int| 0 <= j < s.len() && #[trigger] s[j].eligible ==> s[i].range_key <= s[j].range_key
            &&& forall|j: int| 0 <= j < i && #[trigger] s[j].eligible ==> s[i].range_key < s[j].range_key
        },
        scan_nearest(s, bound) is None ==> forall|j: int| 0 <= j < s.len() && #[trigger] s[j].eligible ==> s[j].range_key >= bound,
{
    lemma_scan_nearest(s, bound);
}

/// The index of the nearest qualifying contact closer than `bound` (see `scan_nearest`).
pub fn nearest(contacts: &Vec<Contact>, bound: u64) -> (r: Option<usize>)
    ensures
        r matches Some(i) ==> scan_nearest(contacts@, bound) == Some(i as int),
        r is None ==> scan_nearest(contacts@, bound) is None,
{
    let n = contacts.len();
    let mut best: Option<usize> = None;
    let mut best_key = bound;
    let mut i: usize = 0;
    while i < n
        invariant
            n == contacts@.len(),
            0 <= i <= n,
            best matches Some(b) ==> scan_nearest(contacts@.take(i as int), bound) == Some(b as int)
                && b < i && best_key == contacts@[b as int].range_key,
            best is None ==> scan_nearest(contacts@.take(i as int), bound) is None && best_key == bound,
        decreases n - i,
    {
        let ghost t = contacts@.take(i + 1);
        assert(t.drop_last() =~= contacts@.take(i as int));
        assert(t.last() == contacts@[i as int]);
        assert(best matches Some(b) ==> t[b as int] == contacts@[b as int]);
        let c = contacts[i];
        if c.eligible && c.range_key < best_key {
            best = Some(i);
            best_key = c.range_key;
        }
        i += 1;
    }
    assert(contacts@.take(n as int) =~= contacts@);
    best
}

/// The four enemy lists laid end to end, in the order the targeting computer scans them.
pub open spec fn all_contacts(
    boats: Seq<Contact>,
    factories: Seq<Contact>,
    tanks: Seq<Contact>,
    guns: Seq<Contact>,
) -> Seq<Contact> {
    boats + factories + tanks + guns
}

/// The target named by position `i` of the combined list.
pub open spec fn target_at(nb: int, nf: int, nt: int, i: int) -> LockedTarget {
    if i < nb {
        LockedTarget::Boat(i as usize)
    } else if i < nb + nf {
        LockedTarget::Factory((i - nb) as usize)
    } else if i < nb + nf + nt {
        LockedTarget::Tank((i - nb - nf) as usize)
    } else {
        LockedTarget::StaticAA((i - nb - nf - nt) as usize)
    }
}

/// The nearest qualifying enemy across boats, factories, tanks and static guns (scanned in
/// that order, earlier lists winning ties) that is nearer than `bound`, or `NoLock`.
pub open spec fn spec_select_target(
    boats: Seq<Contact>,
    factories: Seq<Contact>,
    tanks: Seq<Contact>,
    guns: Seq<Contact>,
    bound: u64,
) -> LockedTarget {
    match scan_nearest(all_contacts(boats, factories, tanks, guns), bound) {
        None => LockedTarget::NoLock,
        Some(i) => target_at(boats.len() as int, factories.len() as int, tanks.len() as int, i),
    }
}

fn append_all(dst: &mut Vec<Contact>, src: &Vec<Contact>)
    ensures
        final(dst)@ == old(dst)@ + src@,
{
    let n = src.len();
    let mut i: usize = 0;
    while i < n
        invariant
            n == src@.len(),
            0 <= i <= n,
            dst@ == old(dst)@ + src@.take(i as int),
        decreases n - i,
    {
        dst.push(src[i]);
        i += 1;
        assert(old(dst)@ + src@.take(i as int) =~= (old(dst)@ + src@.take(i - 1)).push(src@[i - 1]));
    }
    assert(src@.take(n as int) =~= src@);
}

/// Picks the target for lock-on or missile homing: the nearest qualifying enemy nearer than
/// `bound` (see `spec_select_target`).
pub fn select_target(
    boats: &Vec<Contact>,
    factories: &Vec<Contact>,
    tanks: &Vec<Contact>,
    guns: &Vec<Contact>,
    bound: u64,
) -> (t: LockedTarget)
    ensures
        t == spec_select_target(boats@, factories@, tanks@, guns@, bound),
{
    let mut all: Vec<Contact> = Vec::new();
    append_all(&mut all, boats);
    append_all(&mut all, factories);
    append_all(&mut all, tanks);
    append_all(&mut all, guns);
    assert(all@ =~= all_contacts(boats@, factories@, tanks@, guns@));
    let nb = boats.len();
    let nf = factories.len();
    let nt = tanks.len();
    let total = all.len();
    assert(total == nb + nf + nt + guns@.len());
    match nearest(&all, bound) {
        None => LockedTarget::NoLock,
        Some(i) => {
            proof {
                lemma_scan_nearest(all@, bound);
            }
            if i < nb {
                LockedTarget::Boat(i)
            } else if i < nb + nf {
                LockedTarget::Factory(i - nb)
            } else if i < nb + nf + nt {
                LockedTarget::Tank(i - nb - nf)
            } else {
                LockedTarget::StaticAA(i - nb - nf - nt)
            }
        },
    }
}

/// Every qualifying contact of `s` is at least as far as `key`.
pub open spec fn none_nearer(s: Seq<Contact>, key: u64) -> bool {
    forall|j: int| 0 <= j < s.len() && #[trigger] s[j].eligible ==> key <= s[j].range_key
}

/// Every qualifying contact of `s` is strictly farther than `key`.
pub open spec fn all_farther(s: Seq<Contact>, key: u64) -> bool {
    forall|j: int| 0 <= j < s.len() && #[trigger] s[j].eligible ==> key < s[j].range_key
}

/// Contact `k` of `s` exists, qualifies, and is nearer than `bound`.
pub open spec fn lockable(s: Seq<Contact>, k: int, bound: u64) -> bool {
    &&& 0 <= k < s.len()
    &&& s[k].eligible
    &&& s[k].range_key < bound
}

/// Law: lock-on names an enemy by its index in its own kind's list, and that enemy
/// qualifies, is nearer than the bound, and no qualifying enemy of any kind is nearer;
/// qualifying enemies of kinds scanned earlier, and earlier ones of its own kind, are
/// strictly farther. With no lock, no qualifying enemy is nearer than the bound.
pub proof fn law_lock_on_is_nearest(
    boats: Seq<Contact>,
    factories: Seq<Contact>,
    tanks: Seq<Contact>,
    guns: Seq<Contact>,
    bound: u64,
)
    requires
        boats.len() <= usize::MAX,
        factories.len() <= usize::MAX,
        tanks.len() <= usize::MAX,
        guns.len() <= usize::MAX,
    ensures
        match spec_select_target(boats, factories, tanks, guns, bound) {
            LockedTarget::Boat(k) => {
                let key = boats[k as int].range_key;
                &&& lockable(boats, k as int, bound)
                &&& all_farther(boats.take(k as int), key)
                &&& none_nearer(boats, key) && none_nearer(factories, key)
                &&& none_nearer(tanks, key) && none_nearer(guns, key)
            },
            LockedTarget::Factory(k) => {
                let key = factories[k as int].range_key;
                &&& lockable(factories, k as int, bound)
                &&& all_farther(boats, key) && all_farther(factories.take(k as int), key)
                &&& none_nearer(factories, key) && none_nearer(tanks, key) && none_nearer(guns, key)
            },
            LockedTarget::Tank(k) => {
                let key = tanks[k as int].range_key;
                &&& lockable(tanks, k as int, bound)
                &&& all_farther(boats, key) && all_farther(factories, key)
                &&& all_farther(tanks.take(k as int), key)
                &&& none_nearer(tanks, key) && none_nearer(guns, key)
            },
            LockedTarget::StaticAA(k) => {
                let key = guns[k as int].range_key;
                &&& lockable(guns, k as int, bound)
                &&& all_farther(boats, key) && all_farther(factories, key) && all_farther(tanks, key)
                &&& all_farther(guns.take(k as int), key)
                &&& none_nearer(guns, key)
            },
            LockedTarget::NoLock => {
                &&& none_nearer(boats, bound) && none_nearer(factories, bound)
                &&& none_nearer(tanks, bound) && none_nearer(guns, bound)
            },
        },
{
    let all = all_contacts(boats, factories, tanks, guns);
    let nb = boats.len() as int;
    let nf = factories.len() as int;
    let nt = tanks.len() as int;
    let ng = guns.len() as int;
    lemma_scan_nearest(all, bound);
    assert(all.len() == nb + nf + nt + ng);
    assert forall|j: int| 0 <= j < nb implies #[trigger] all[j] == boats[j] by {}
    assert forall|j: int| 0 <= j < nf implies #[trigger] all[nb + j] == factories[j] by {}
    assert forall|j: int| 0 <= j < nt implies #[trigger] all[nb + nf + j] == tanks[j] by {}
    assert forall|j: int| 0 <= j < ng implies #[trigger] all[nb + nf + nt + j] == guns[j] by {}
    match scan_nearest(all, bound) {
        None => {
            assert forall|j: int| 0 <= j < nb && #[trigger] boats[j].eligible implies bound <= boats[j].range_key by {
                assert(all[j] == boats[j]);
            }
            assert forall|j: int| 0 <= j < nf && #[trigger] factories[j].eligible implies bound <= factories[j].range_key by {
                assert(all[nb + j] == factories[j]);
            }
            assert forall|j: int| 0 <= j < nt && #[trigger] tanks[j].eligible implies bound <= tanks[j].range_key by {
                assert(all[nb + nf + j] == tanks[j]);
            }
            assert forall|j: int| 0 <= j < ng && #[trigger] guns[j].eligible implies bound <= guns[j].range_key by {
                assert(all[nb + nf + nt + j] == guns[j]);
            }
        },
        Some(i) => {
            let key = all[i].range_key;
            assert forall|j: int| 0 <= j < nb && #[trigger] boats[j].eligible implies key <= boats[j].range_key
                && (j < i ==> key < boats[j].range_key) by {
                assert(all[j] == boats[j]);
            }
            assert forall|j: int| 0 <= j < nf && #[trigger] factories[j].eligible implies key <= factories[j].range_key
                && (nb + j < i ==> key < factories[j].range_key) by {
                assert(all[nb + j] == factories[j]);
            }
            assert forall|j: int| 0 <= j < nt && #[trigger] tanks[j].eligible implies key <= tanks[j].range_key
                && (nb + nf + j < i ==> key < tanks[j].range_key) by {
                assert(all[nb + nf + j] == tanks[j]);
            }
            assert forall|j: int| 0 <= j < ng && #[trigger] guns[j].eligible implies key <= guns[j].range_key
                && (nb + nf + nt + j < i ==> key < guns[j].range_key) by {
                assert(all[nb + nf + nt + j] == guns[j]);
            }
            if i < nb {
                assert(all[i] == boats[i]);
                assert((i as usize) as int == i);
                assert forall|j: int| 0 <= j < boats.take(i).len() && #[trigger] boats.take(i)[j].eligible
                    implies key < boats.take(i)[j].range_key by {
                    assert(boats.take(i)[j] == boats[j]);
                }
            } else if i < nb + nf {
                let k = i - nb;
                assert(all[nb + k] == factories[k]);
                assert((k as usize) as int == k);
                assert forall|j: int| 0 <= j < factories.take(k).len() && #[trigger] factories.take(k)[j].eligible
                    implies key < factories.take(k)[j].range_key by {
                    assert(factories.take(k)[j] == factories[j]);
                }
            } else if i < nb + nf + nt {
                let k = i - nb - nf;
                assert(all[nb + nf + k] == tanks[k]);
                assert((k as usize) as int == k);
                assert forall|j: int| 0 <= j < tanks.take(k).len() && #[trigger] tanks.take(k)[j].eligible
                    implies key < tanks.take(k)[j].range_key by {
                    assert(tanks.take(k)[j] == tanks[j]);
                }
            } else {
                let k = i - nb - nf - nt;
                assert(all[nb + nf + nt + k] == guns[k]);
                assert((k as usize) as int == k);
                assert forall|j: int| 0 <= j < guns.take(k).len() && #[trigger] guns.take(k)[j].eligible
                    implies key < guns.take(k)[j].range_key by {
                    assert(guns.take(k)[j] == guns[j]);
                }
            }
        },
    }
}

} // verus!
