use vstd::prelude::*;
use crate::game::{Game, MAX_HEAT};
use crate::types::LockedTarget;

verus! {

/// How urgently a cockpit reading is shown: red, orange or green.
#[derive(Debug, Clone, Copy, PartialEq, Eq, Structural)]
pub enum Alert {
    Critical,
    Caution,
    Nominal,
}

/// The flight-status banner.
#[derive(Debug, Clone, Copy, PartialEq, Eq, Structural)]
pub enum FlightStatus {
    /// On the pad with fuel still flowing in.
    Refueling,
    /// On the pad with a full tank.
    Ready,
    /// In the air with an empty tank.
    OutOfFuel,
    /// In the air with fuel.
    Airborne,
}

/// The lock-on readout.
#[derive(Debug, Clone, Copy, PartialEq, Eq, Structural)]
pub enum LockTag {
    NoLock,
    Boat,
    /// A factory still shielded by this many drones, airborne and in reserve.
    FactoryDrones(i32),
    /// A factory whose drones are all gone.
    FactoryShieldsDown,
    /// A factory whose record is missing.
    Factory,
    Tank,
    StaticAA,
}

/// How an explosion marker looks as it ages.
#[derive(Debug, Clone, Copy, PartialEq, Eq, Structural)]
pub enum Ember {
    /// A fresh flash (`*`, yellow): ages 0 to 3.
    Flash,
    /// Glowing debris (`¤`, orange): ages 4 to 8.
    Glow,
    /// Drifting smoke (`·`, grey): older.
    Smoke,
}

/// `s` repeated `n` times.
pub open spec fn repeat_chars(s: Seq<char>, n: nat) -> Seq<char>
    decreases n,
{
    if n == 0 {
        Seq::empty()
    } else {
        repeat_chars(s, (n - 1) as nat) + s
    }
}

/// `count` held between zero and `total`.
pub open spec fn clamp_count(count: int, total: int) -> int {
    if count < 0 {
        0
    } else if count > total {
        total
    } else {
        count
    }
}

/// A row of `total` indicator pips, the first `count` of them lit (`on`), the rest `off`.
pub open spec fn spec_pips(count: int, total: nat, on: Seq<char>, off: Seq<char>) -> Seq<char> {
    let k = clamp_count(count, total as int);
    repeat_chars(on, k as nat) + repeat_chars(off, (total - k) as nat)
}

/// A ten-cell gauge with `filled` solid cells (more than ten when overfull) and the rest of
/// the ten empty.
pub open spec fn spec_gauge(filled: int) -> Seq<char> {
    repeat_chars(seq!['█'], if filled > 0 { filled as nat } else { 0 })
        + repeat_chars(seq!['░'], if 10 - filled > 0 { (10 - filled) as nat } else { 0 })
}

/// Warning colour of the missile count: red when empty, orange at two or fewer.
pub fn ammo_alert(ammo: i32) -> (a: Alert)
    ensures
        a == if ammo == 0 { Alert::Critical } else if ammo <= 2 { Alert::Caution } else { Alert::Nominal },
{
    if ammo == 0 {
        Alert::Critical
    } else if ammo <= 2 {
        Alert::Caution
    } else {
        Alert::Nominal
    }
}

/// Warning colour of the life count: red at two or fewer, orange at three.
pub fn lives_alert(lives: i32) -> (a: Alert)
    ensures
        a == if lives <= 2 { Alert::Critical } else if lives <= 3 { Alert::Caution } else { Alert::Nominal },
{
    if lives <= 2 {
        Alert::Critical
    } else if lives <= 3 {
        Alert::Caution
    } else {
        Alert::Nominal
    }
}

/// Warning colour of the cannon: red when jammed or at heat 16 and up, orange from 10.
pub fn heat_alert(heat: i32, jammed: i32) -> (a: Alert)
    ensures
        a == if jammed > 0 || heat >= 16 { Alert::Critical } else if heat >= 10 { Alert::Caution } else { Alert::Nominal },
{
    if jammed > 0 || heat >= 16 {
        Alert::Critical
    } else if heat >= 10 {
        Alert::Caution
    } else {
        Alert::Nominal
    }
}

/// Cells of the ten-cell heat gauge that are lit for barrel heat `heat`.
pub fn heat_fill(heat: i32) -> (cells: i32)
    requires
        0 <= heat < MAX_HEAT,
    ensures
        cells == heat * 10 / MAX_HEAT as int,
        0 <= cells < 10,
{
    heat * 10 / MAX_HEAT
}

/// The flight-status banner: on the pad, refuelling until the tank is full; in the air,
/// out of fuel once the tank is empty.
pub fn flight_status(landed: bool, tank_full: bool, tank_empty: bool) -> (s: FlightStatus)
    ensures
        s == if landed {
            if tank_full { FlightStatus::Ready } else { FlightStatus::Refueling }
        } else if tank_empty {
            FlightStatus::OutOfFuel
        } else {
            FlightStatus::Airborne
        },
{
    if landed {
        if tank_full { FlightStatus::Ready } else { FlightStatus::Refueling }
    } else if tank_empty {
        FlightStatus::OutOfFuel
    } else {
        FlightStatus::Airborne
    }
}

/// The lock-on readout for `locked`. For a factory, `factory_reserves` holds its reserve
/// drones (`None` when the factory's record is missing) and `drones_up` its drones in the
/// air; the readout counts both.
pub fn lock_tag(locked: LockedTarget, factory_reserves: Option<i32>, drones_up: usize) -> (t: LockTag)
    requires
        drones_up <= 1_000_000,
        factory_reserves matches Some(r) ==> -1_000_000 <= r <= 1_000_000,
    ensures
        t == match locked {
            LockedTarget::NoLock => LockTag::NoLock,
            LockedTarget::Boat(_) => LockTag::Boat,
            LockedTarget::Factory(_) => match factory_reserves {
                None => LockTag::Factory,
                Some(r) => if drones_up + r > 0 {
                    LockTag::FactoryDrones((drones_up + r) as i32)
                } else {
                    LockTag::FactoryShieldsDown
                },
            },
            LockedTarget::Tank(_) => LockTag::Tank,
            LockedTarget::StaticAA(_) => LockTag::StaticAA,
        },
{
    match locked {
        LockedTarget::NoLock => LockTag::NoLock,
        LockedTarget::Boat(_) => LockTag::Boat,
        LockedTarget::Factory(_) => match factory_reserves {
            None => LockTag::Factory,
            Some(r) => {
                let total = drones_up as i32 + r;
                if total > 0 {
                    LockTag::FactoryDrones(total)
                } else {
                    LockTag::FactoryShieldsDown
                }
            },
        },
        LockedTarget::Tank(_) => LockTag::Tank,
        LockedTarget::StaticAA(_) => LockTag::StaticAA,
    }
}

/// The look of an explosion marker of age `age`.
pub fn ember(age: i32) -> (e: Ember)
    ensures
        e == if age < 4 { Ember::Flash } else if age < 9 { Ember::Glow } else { Ember::Smoke },
{
    if age < 4 {
        Ember::Flash
    } else if age < 9 {
        Ember::Glow
    } else {
        Ember::Smoke
    }
}

proof fn lemma_repeat_push(s: Seq<char>, n: nat)
    ensures
        repeat_chars(s, n + 1) == repeat_chars(s, n) + s,
{
}

/// A row of `total` pips, the first `count` lit (see `spec_pips`).
pub fn pips(count: i32, total: usize, on: &str, off: &str) -> (r: String)
    requires
        total <= 1000,
    ensures
        r@ == spec_pips(count as int, total as nat, on@, off@),
{
    let ghost k = clamp_count(count as int, total as int);
    let mut r = String::new();
    let mut i: usize = 0;
    while i < total
        invariant
            total <= 1000,
            0 <= i <= total,
            k == clamp_count(count as int, total as int),
            i <= k ==> r@ == repeat_chars(on@, i as nat),
            i > k ==> r@ == repeat_chars(on@, k as nat) + repeat_chars(off@, (i - k) as nat),
        decreases total - i,
    {
        let ghost before = r@;
        if (i as i32) < count {
            r.append(on);
            proof {
                lemma_repeat_push(on@, i as nat);
            }
        } else {
            r.append(off);
            proof {
                if i > k {
                    lemma_repeat_push(off@, (i - k) as nat);
                    assert(before + off@ =~= repeat_chars(on@, k as nat) + repeat_chars(off@, (i + 1 - k) as nat));
                } else {
                    assert(i == k);
                    assert(repeat_chars(off@, 1) =~= off@) by {
                        assert(repeat_chars(off@, 0) =~= Seq::<char>::empty());
                    }
                    assert(before + off@ =~= repeat_chars(on@, k as nat) + repeat_chars(off@, 1));
                }
            }
        }
        i += 1;
    }
    proof {
        if total as int <= k {
            assert(repeat_chars(off@, 0) =~= Seq::<char>::empty());
            assert(r@ =~= repeat_chars(on@, k as nat) + repeat_chars(off@, (total - k) as nat));
        }
    }
    r
}

/// A ten-cell gauge showing `filled` solid cells (see `spec_gauge`).
pub fn gauge(filled: i32) -> (r: String)
    requires
        -1000 <= filled <= 1000,
    ensures
        r@ == spec_gauge(filled as int),
{
    let solid: i32 = if filled > 0 { filled } else { 0 };
    let empty: i32 = if 10 - filled > 0 { 10 - filled } else { 0 };
    let mut r = String::new();
    let mut i: i32 = 0;
    while i < solid
        invariant
            0 <= i <= solid,
            solid <= 1000,
            r@ == repeat_chars(seq!['█'], i as nat),
        decreases solid - i,
    {
        r.append("█");
        proof {
            reveal_strlit("█");
            lemma_repeat_push(seq!['█'], i as nat);
            assert("█"@ =~= seq!['█']);
        }
        i += 1;
    }
    let ghost head = r@;
    let mut j: i32 = 0;
    while j < empty
        invariant
            0 <= j <= empty,
            empty <= 1010,
            head == repeat_chars(seq!['█'], solid as nat),
            r@ == head + repeat_chars(seq!['░'], j as nat),
        decreases empty - j,
    {
        let ghost before = r@;
        r.append("░");
        proof {
            reveal_strlit("░");
            lemma_repeat_push(seq!['░'], j as nat);
            assert("░"@ =~= seq!['░']);
            assert(before + seq!['░'] =~= head + repeat_chars(seq!['░'], (j + 1) as nat));
        }
        j += 1;
    }
    r
}

impl Game {
    /// The incoming-missile warning blinks with the rotor: shown while an enemy missile is in
    /// flight (`incoming`) on rotor frames 0 and 1.
    pub fn missile_warning_visible(&self, incoming: bool) -> (shown: bool)
        requires
            self.wf(),
        ensures
            shown == (incoming && (self.heli.rotor_state / 2) % 2 == 0),
    {
        incoming && (self.heli.rotor_state / 2) % 2 == 0
    }

    /// The stealth-threat warning blinks every four ticks while a stealth boat is near.
    pub fn stealth_warning_visible(&self) -> (shown: bool)
        requires
            self.wf(),
        ensures
            shown == (self.stealth_near && (self.ticks / 4) % 2 == 0),
    {
        self.stealth_near && (self.ticks / 4) % 2 == 0
    }
}

} // verus!
