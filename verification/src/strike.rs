use vstd::prelude::*;

verus! {

/// One entity as a flying round sees it: whether its hit box overlaps the round, whether
/// it is alive, and whether it is already burning.
#[derive(Debug, Clone, Copy, PartialEq, Eq, Structural)]
pub struct Reach {
    pub overlaps: bool,
    pub active: bool,
    pub burning: bool,
}

/// The entity a round strikes, by kind and index in that kind's list.
#[derive(Debug, Clone, Copy, PartialEq, Eq, Structural)]
pub enum Victim {
    Boat(usize),
    StealthBoat(usize),
    Drone(usize),
    Factory(usize),
    Tank(usize),
    StaticAA(usize),
}

/// A round strikes `r` when it overlaps a live entity; where `standing_only`, a burning
/// one lets it pass.
pub open spec fn strikes(r: Reach, standing_only: bool) -> bool {
    r.overlaps && r.active && !(standing_only && r.burning)
}

/// No entity of `s` is struck.
pub open spec fn none_struck(s: Seq<Reach>, standing_only: bool) -> bool {
    forall|j: int| 0 <= j < s.len() ==> !strikes(#[trigger] s[j], standing_only)
}

/// Entity `i` of `s` is the first one struck.
pub open spec fn first_struck(s: Seq<Reach>, standing_only: bool, i: int) -> bool {
    &&& 0 <= i < s.len()
    &&& strikes(s[i], standing_only)
    &&& forall|j: int| 0 <= j < i ==> !strikes(#[trigger] s[j], standing_only)
}

/// The first entity of `s` a round strikes, if any.
pub fn first_hit(s: &Vec<Reach>, standing_only: bool) -> (r: Option<usize>)
    ensures
        match r {
            Some(i) => first_struck(s@, standing_only, i as int),
            None => none_struck(s@, standing_only),
        },
{
    let n = s.len();
    let mut i: usize = 0;
    while i < n
        invariant
            n == s@.len(),
            0 <= i <= n,
            forall|j: int| 0 <= j < i ==> !strikes(#[trigger] s@[j], standing_only),
        decreases n - i,
    {
        let r = s[i];
        if r.overlaps && r.active && !(standing_only && r.burning) {
            return Some(i);
        }
        i += 1;
    }
    None
}

/// The entity a round strikes: the first one struck among the boats, then the stealth
/// boats, the drones, the factories, the tanks and the static guns, in that order. Boats
/// (burning or not), stealth boats and drones take a round whenever they are alive and
/// overlap it; factories, tanks and guns only while they are not burning.
pub fn bullet_victim(
    boats: &Vec<Reach>,
    stealth: &Vec<Reach>,
    drones: &Vec<Reach>,
    factories: &Vec<Reach>,
    tanks: &Vec<Reach>,
    guns: &Vec<Reach>,
) -> (v: Option<Victim>)
    ensures
        match v {
            Some(Victim::Boat(i)) => first_struck(boats@, false, i as int),
            Some(Victim::StealthBoat(i)) => none_struck(boats@, false) && first_struck(stealth@, false, i as int),
            Some(Victim::Drone(i)) => none_struck(boats@, false) && none_struck(stealth@, false)
                && first_struck(drones@, false, i as int),
            Some(Victim::Factory(i)) => none_struck(boats@, false) && none_struck(stealth@, false)
                && none_struck(drones@, false) && first_struck(factories@, true, i as int),
            Some(Victim::Tank(i)) => none_struck(boats@, false) && none_struck(stealth@, false)
                && none_struck(drones@, false) && none_struck(factories@, true)
                && first_struck(tanks@, true, i as int),
            Some(Victim::StaticAA(i)) => none_struck(boats@, false) && none_struck(stealth@, false)
                && none_struck(drones@, false) && none_struck(factories@, true)
                && none_struck(tanks@, true) && first_struck(guns@, true, i as int),
            None => none_struck(boats@, false) && none_struck(stealth@, false)
                && none_struck(drones@, false) && none_struck(factories@, true)
                && none_struck(tanks@, true) && none_struck(guns@, true),
        },
{
    if let Some(i) = first_hit(boats, false) {
        return Some(Victim::Boat(i));
    }
    if let Some(i) = first_hit(stealth, false) {
        return Some(Victim::StealthBoat(i));
    }
    if let Some(i) = first_hit(drones, false) {
        return Some(Victim::Drone(i));
    }
    if let Some(i) = first_hit(factories, true) {
        return Some(Victim::Factory(i));
    }
    if let Some(i) = first_hit(tanks, true) {
        return Some(Victim::Tank(i));
    }
    if let Some(i) = first_hit(guns, true) {
        return Some(Victim::StaticAA(i));
    }
    None
}

/// Law: the struck entity is unique: two scans of the same list that both report a first
/// struck entity report the same one, and a list cannot both have a struck entity and none.
pub proof fn law_first_struck_unique(s: Seq<Reach>, standing_only: bool, i: int, k: int)
    requires
        first_struck(s, standing_only, i),
        first_struck(s, standing_only, k),
    ensures
        i == k,
        !none_struck(s, standing_only),
{
    if i < k {
        assert(!strikes(s[i], standing_only));
    }
    if k < i {
        assert(!strikes(s[k], standing_only));
    }
    assert(strikes(s[i], standing_only));
}

} // verus!
