use vstd::prelude::*;
use crate::dice::{random_byte, roll};
use crate::explosions::{burst_cell, burst_size};
use crate::game::{FULL_LIVES, Game, TICK_LIMIT, WAVE_LIMIT, min2};
use crate::pool::{none_active, none_set};
use crate::types::Explosion;

verus! {

/// Ticks the carrier takes to go down once a stealth boat has rammed it.
pub const DESTRUCTION_TICKS: i32 = 80;

/// Ticks in a game minute; stealth boats are considered once a minute.
pub const MINUTE_TICKS: i32 = 1500;

/// Ticks in a game second.
pub const TICKS_PER_SEC: i32 = 25;

/// Ticks between drone reinforcements.
pub const DRONE_PERIOD: i32 = 100;

/// Ticks between a factory's ground-launched missiles (from wave 4 on).
pub const SALVO_PERIOD: i32 = 800;

/// Reserve drones each factory holds when the game starts.
pub const FACTORY_DRONE_RESERVE: i32 = 8;

/// Reserve drones each factory is restocked with when a new wave begins.
pub const WAVE_DRONE_RESERVE: i32 = 5;

/// The orders that come with a new wave.
#[derive(Debug, Clone, Copy, PartialEq, Eq, Structural)]
pub struct WaveOrders {
    /// Tanks patrol from wave 2 on.
    pub tanks_active: bool,
    /// Static anti-aircraft guns fire from wave 3 on.
    pub guns_active: bool,
    /// The airborne helicopter was ordered home to the carrier.
    pub heli_recalled: bool,
}

/// The wave is won when no boat, factory, tank or static gun is left alive (`active`,
/// burning wrecks included).
pub fn all_clear(boats: &Vec<bool>, factories: &Vec<bool>, tanks: &Vec<bool>, guns: &Vec<bool>) -> (clear: bool)
    ensures
        clear == (none_set(boats@) && none_set(factories@) && none_set(tanks@) && none_set(guns@)),
{
    none_active(boats) && none_active(factories) && none_active(tanks) && none_active(guns)
}

/// A fresh explosion inside the carrier's rectangle whose age is below `age_bound`.
pub open spec fn on_deck_explosion(g: Game, e: Explosion, age_bound: int) -> bool {
    &&& g.spec_on_carrier(e.x as int, e.y as int)
    &&& 0 <= e.age < age_bound
}

/// The stealth-boat schedule that rolls `chance_roll` (out of 100) and `delay_roll` (out
/// of 10) give: when the chance roll falls below ten percent per wave, capped at eighty,
/// the boat sets out `1 + delay_roll` seconds from now; otherwise the schedule stays.
pub open spec fn stealth_outcome(g: Game, chance_roll: int, delay_roll: int) -> int {
    if chance_roll < min2(10 * g.wave, 80) {
        g.ticks + (1 + delay_roll) * TICKS_PER_SEC
    } else {
        g.stealth_spawn_at as int
    }
}


/// Law: a stealth boat is scheduled exactly when the chance roll (out of 100) falls below
/// ten percent per wave and below eighty percent, and then sets out a whole number of
/// seconds, one to ten, later; a roll that schedules a boat at one wave also does at every
/// later wave.
pub proof fn law_stealth_chance_per_wave(g: Game, chance_roll: int, delay_roll: int)
    requires
        0 <= chance_roll < 100,
        0 <= delay_roll < 10,
    ensures
        chance_roll < 10 * g.wave && chance_roll < 80 ==> {
            let at = stealth_outcome(g, chance_roll, delay_roll);
            &&& at == g.ticks + 25 * (delay_roll + 1)
            &&& (at - g.ticks) % 25 == 0
            &&& g.ticks + 25 <= at <= g.ticks + 250
        },
        !(chance_roll < 10 * g.wave && chance_roll < 80) ==> stealth_outcome(g, chance_roll, delay_roll) == g.stealth_spawn_at,
        chance_roll < 10 * g.wave && chance_roll < 80 ==> stealth_outcome(Game { wave: (g.wave + 1) as i32, ..g }, chance_roll, delay_roll)
            == stealth_outcome(g, chance_roll, delay_roll) || g.wave == i32::MAX,
{
}

impl Game {
    /// One more tick of game time.
    pub fn advance_clock(&mut self)
        requires
            old(self).wf(),
            old(self).ticks < TICK_LIMIT,
        ensures
            final(self).wf(),
            *final(self) == (Game { ticks: (old(self).ticks + 1) as i32, ..*old(self) }),
    {
        self.ticks += 1;
    }

    fn deck_explosion(&self, age_spread: i32) -> (e: Explosion)
        requires
            0 <= self.carrier.x <= 200_000,
            0 <= self.carrier.y <= 200_000,
            0 < self.carrier.width <= 1000,
            0 < self.carrier.height <= 1000,
            0 < age_spread <= 15,
        ensures
            on_deck_explosion(*self, e, age_spread as int),
    {
        self.deck_fire(random_byte(), random_byte(), random_byte(), age_spread)
    }

    /// The deck fire that three random bytes pick: column `bx` and row `by` modulo the
    /// carrier's width and height, counted from its corner, and age `ba` modulo
    /// `age_spread`.
    pub fn deck_fire(&self, bx: u8, by: u8, ba: u8, age_spread: i32) -> (e: Explosion)
        requires
            0 <= self.carrier.x <= 200_000,
            0 <= self.carrier.y <= 200_000,
            0 < self.carrier.width <= 1000,
            0 < self.carrier.height <= 1000,
            0 < age_spread <= 15,
        ensures
            e.x == self.carrier.x + bx as int % self.carrier.width as int,
            e.y == self.carrier.y + by as int % self.carrier.height as int,
            e.age == ba as int % age_spread as int,
            on_deck_explosion(*self, e, age_spread as int),
    {
        let ex = self.carrier.x + (bx as i32) % self.carrier.width;
        let ey = self.carrier.y + (by as i32) % self.carrier.height;
        let age = (ba as i32) % age_spread;
        Explosion { x: ex, y: ey, age }
    }

    /// A stealth boat has rammed the carrier: the destruction sequence starts with its full
    /// length to run, and fifteen fires break out at random cells of the deck.
    pub fn begin_carrier_destruction(&mut self)
        requires
            old(self).wf(),
        ensures
            final(self).wf(),
            final(self).carrier_destroying,
            final(self).destruction_ticks == DESTRUCTION_TICKS,
            final(self).explosions@.len() == old(self).explosions@.len() + 15,
            forall|i: int| 0 <= i < old(self).explosions@.len() ==> #[trigger] final(self).explosions@[i] == old(self).explosions@[i],
            forall|i: int| old(self).explosions@.len() <= i < final(self).explosions@.len()
                ==> on_deck_explosion(*old(self), #[trigger] final(self).explosions@[i], 3),
            *final(self) == (Game {
                carrier_destroying: true,
                destruction_ticks: DESTRUCTION_TICKS,
                explosions: final(self).explosions,
                ..*old(self)
            }),
    {
        let ghost start = *self;
        self.carrier_destroying = true;
        self.destruction_ticks = DESTRUCTION_TICKS;
        let mut k: usize = 0;
        while k < 15
            invariant
                0 <= k <= 15,
                start.wf(),
                *self == (Game {
                    carrier_destroying: true,
                    destruction_ticks: DESTRUCTION_TICKS,
                    explosions: self.explosions,
                    ..start
                }),
                self.wf(),
                self.explosions@.len() == start.explosions@.len() + k,
                forall|i: int| 0 <= i < start.explosions@.len() ==> #[trigger] self.explosions@[i] == start.explosions@[i],
                forall|i: int| start.explosions@.len() <= i < self.explosions@.len()
                    ==> on_deck_explosion(start, #[trigger] self.explosions@[i], 3),
            decreases 15 - k,
        {
            let e = self.deck_explosion(3);
            self.explosions.push(e);
            k += 1;
        }
    }

    /// One tick of the carrier going down. Every fourth tick a fire breaks out at a random
    /// deck cell (with an explosion sound every twelfth tick); when the sequence has run
    /// its course the game is over. Returns whether the explosion sound plays.
    pub fn tick_carrier_destruction(&mut self) -> (boom: bool)
        requires
            old(self).wf(),
            old(self).carrier_destroying,
        ensures
            final(self).wf(),
            final(self).destruction_ticks == old(self).destruction_ticks - 1,
            final(self).destruction_ticks % 4 == 0 ==> {
                &&& final(self).explosions@.len() == old(self).explosions@.len() + 1
                &&& final(self).explosions@.drop_last() == old(self).explosions@
                &&& on_deck_explosion(*old(self), final(self).explosions@.last(), 2)
            },
            final(self).destruction_ticks % 4 != 0 ==> final(self).explosions@ == old(self).explosions@,
            boom == (final(self).destruction_ticks % 12 == 0),
            final(self).carrier_destroying == (final(self).destruction_ticks > 0),
            final(self).game_over == (old(self).game_over || final(self).destruction_ticks <= 0),
            *final(self) == (Game {
                destruction_ticks: final(self).destruction_ticks,
                explosions: final(self).explosions,
                carrier_destroying: final(self).carrier_destroying,
                game_over: final(self).game_over,
                ..*old(self)
            }),
    {
        self.destruction_ticks -= 1;
        let mut boom = false;
        if self.destruction_ticks % 4 == 0 {
            let e = self.deck_explosion(2);
            self.explosions.push(e);
            assert(self.explosions@.drop_last() =~= old(self).explosions@);
            if self.destruction_ticks % 12 == 0 {
                boom = true;
            }
        }
        if self.destruction_ticks <= 0 {
            self.carrier_destroying = false;
            self.game_over = true;
        }
        boom
    }

    /// An enemy missile at rounded position `(mx, my)`: if it is over the carrier it strikes
    /// the deck, and a 5 x 3 patch of fire breaks out around it. Returns whether it struck.
    pub fn carrier_struck(&mut self, mx: i32, my: i32) -> (hit: bool)
        requires
            old(self).wf(),
        ensures
            final(self).wf(),
            hit == old(self).spec_on_carrier(mx as int, my as int),
            !hit ==> *final(self) == *old(self),
            hit ==> {
                &&& final(self).explosions@.len() == old(self).explosions@.len() + 15
                &&& forall|i: int| 0 <= i < old(self).explosions@.len() ==> #[trigger] final(self).explosions@[i] == old(self).explosions@[i]
                &&& forall|k: int| 0 <= k < 15 ==> {
                    let e = #[trigger] final(self).explosions@[old(self).explosions@.len() + k];
                    let cell = burst_cell(mx as int, my as int, 2, 1, k);
                    e.x == cell.0 && e.y == cell.1 && 0 <= e.age < 4
                }
            },
            *final(self) == (Game { explosions: final(self).explosions, ..*old(self) }),
    {
        if !self.on_carrier(mx, my) {
            return false;
        }
        self.push_burst_scattered(mx, my, 2, 1, 4);
        assert(burst_size(2, 1) == 15) by (nonlinear_arith);
        true
    }

    /// The carrier's hull has failed under missile fire: a 9 x 5 patch of fire covers its
    /// centre and the game is over.
    pub fn carrier_sunk(&mut self)
        requires
            old(self).wf(),
        ensures
            final(self).wf(),
            final(self).game_over,
            final(self).explosions@.len() == old(self).explosions@.len() + 45,
            forall|i: int| 0 <= i < old(self).explosions@.len() ==> #[trigger] final(self).explosions@[i] == old(self).explosions@[i],
            forall|k: int| 0 <= k < 45 ==> {
                let e = #[trigger] final(self).explosions@[old(self).explosions@.len() + k];
                let cell = burst_cell(
                    old(self).carrier.x + old(self).carrier.width / 2,
                    old(self).carrier.y + old(self).carrier.height / 2,
                    4,
                    2,
                    k,
                );
                e.x == cell.0 && e.y == cell.1 && 0 <= e.age < 5
            },
            *final(self) == (Game { explosions: final(self).explosions, game_over: true, ..*old(self) }),
    {
        let (cx, cy) = self.carrier_center();
        self.push_burst_scattered(cx, cy, 4, 2, 5);
        assert(burst_size(4, 2) == 45) by (nonlinear_arith);
        self.game_over = true;
    }

    /// Once a minute, when no stealth boat is out (`none_active`) and none is scheduled, a
    /// stealth boat may be scheduled: `roll(0, 100)` and `roll(0, 10)` are drawn and
    /// `schedule_from_rolls` decides (a chance of ten percent per wave, at most eighty, to
    /// set out one to ten seconds later). Returns whether a scheduled boat sets out now, in
    /// which case the schedule is cleared.
    pub fn schedule_stealth(&mut self, none_active: bool) -> (launch: bool)
        requires
            old(self).wf(),
        ensures
            final(self).wf(),
            launch == (old(self).stealth_spawn_at > 0 && old(self).ticks >= old(self).stealth_spawn_at),
            launch ==> final(self).stealth_spawn_at == 0,
            !launch && !(old(self).ticks > 0 && old(self).ticks % MINUTE_TICKS == 0 && none_active
                && old(self).stealth_spawn_at == 0) ==> final(self).stealth_spawn_at == old(self).stealth_spawn_at,
            !launch && old(self).ticks > 0 && old(self).ticks % MINUTE_TICKS == 0 && none_active
                && old(self).stealth_spawn_at == 0 ==> {
                exists|c: int, d: int|
                    #![trigger stealth_outcome(*old(self), c, d)]
                    0 <= c < 100 && 0 <= d < 10 && final(self).stealth_spawn_at == stealth_outcome(*old(self), c, d)
            },
            *final(self) == (Game { stealth_spawn_at: final(self).stealth_spawn_at, ..*old(self) }),
    {
        if self.ticks > 0 && self.ticks % MINUTE_TICKS == 0 && none_active && self.stealth_spawn_at == 0 {
            let ghost before = *self;
            assert(self.ticks + 10 * TICKS_PER_SEC <= i32::MAX) by (nonlinear_arith)
                requires
                    self.ticks % MINUTE_TICKS == 0,
                    0 <= self.ticks <= i32::MAX,
                    MINUTE_TICKS == 1500,
                    TICKS_PER_SEC == 25,
            ;
            let chance_roll = roll(0, 100);
            let delay_roll = roll(0, 10);
            self.schedule_from_rolls(chance_roll, delay_roll);
            assert(self.stealth_spawn_at == stealth_outcome(before, chance_roll as int, delay_roll as int));
        }
        if self.stealth_spawn_at > 0 && self.ticks >= self.stealth_spawn_at {
            self.stealth_spawn_at = 0;
            return true;
        }
        false
    }

    /// The stealth-boat decision for drawn rolls: the boat is scheduled when `chance_roll`
    /// (out of 100) falls below ten percent per wave, capped at eighty, and then sets out
    /// `1 + delay_roll` seconds from now; otherwise the schedule stays as it was.
    pub fn schedule_from_rolls(&mut self, chance_roll: i32, delay_roll: i32)
        requires
            old(self).wf(),
            0 <= chance_roll < 100,
            0 <= delay_roll < 10,
            old(self).ticks + 10 * TICKS_PER_SEC <= i32::MAX,
        ensures
            final(self).wf(),
            final(self).stealth_spawn_at == stealth_outcome(*old(self), chance_roll as int, delay_roll as int),
            chance_roll < 10 * old(self).wave && chance_roll < 80
                ==> final(self).stealth_spawn_at == old(self).ticks + 25 * (delay_roll + 1),
            !(chance_roll < 10 * old(self).wave && chance_roll < 80)
                ==> final(self).stealth_spawn_at == old(self).stealth_spawn_at,
            *final(self) == (Game { stealth_spawn_at: final(self).stealth_spawn_at, ..*old(self) }),
    {
        let chance = if self.wave >= 8 { 80 } else { self.wave * 10 };
        if chance_roll < chance {
            let delay_sec = 1 + delay_roll;
            self.stealth_spawn_at = self.ticks + delay_sec * TICKS_PER_SEC;
        }
    }

    /// While a stealth boat is near the carrier, the warning siren sounds every 20 ticks and
    /// the engine noise every 15. Returns (siren, engine).
    pub fn stealth_alarm(&self) -> (alarm: (bool, bool))
        requires
            self.wf(),
        ensures
            alarm.0 == (self.stealth_near && self.ticks % 20 == 0),
            alarm.1 == (self.stealth_near && self.ticks % 15 == 0),
    {
        if self.stealth_near {
            (self.ticks % 20 == 0, self.ticks % 15 == 0)
        } else {
            (false, false)
        }
    }

    /// Whether factory number `idx` launches a ground missile at the carrier this tick:
    /// from wave 4 on, every 800 ticks, the factories staggered 200 ticks apart.
    pub fn factory_salvo_due(&self, idx: usize) -> (due: bool)
        requires
            self.wf(),
        ensures
            due == (self.wave >= 4 && (self.ticks + 200 * idx) % SALVO_PERIOD as int == 0),
    {
        self.wave >= 4 && (self.ticks as i128 + (idx as i128) * 200) % (SALVO_PERIOD as i128) == 0
    }

    /// Whether the carrier launches a replacement defence drone this tick: only while the
    /// helicopter is on the pad, every 100 ticks, and when fewer than three fly.
    pub fn carrier_drone_due(&self, carrier_drones: usize) -> (due: bool)
        requires
            self.wf(),
        ensures
            due == (self.heli.landed && self.ticks % DRONE_PERIOD == 0 && carrier_drones < 3),
    {
        self.heli.landed && self.ticks % DRONE_PERIOD == 0 && carrier_drones < 3
    }

    /// Whether a standing factory launches a replacement drone this tick: every 100 ticks,
    /// when fewer than two of its drones fly and it has reserves left.
    pub fn factory_drone_due(&self, factory_drones: usize, reserves: i32) -> (due: bool)
        requires
            self.wf(),
        ensures
            due == (self.ticks % DRONE_PERIOD == 0 && factory_drones < 2 && reserves > 0),
    {
        self.ticks % DRONE_PERIOD == 0 && factory_drones < 2 && reserves > 0
    }

    /// A standing factory with `factory_drones` drones in the air launches a replacement
    /// when one is due (see `factory_drone_due`), spending one of its `reserves`. Returns
    /// whether it launched.
    pub fn launch_factory_drone(&self, factory_drones: usize, reserves: &mut i32) -> (launch: bool)
        requires
            self.wf(),
        ensures
            launch == (self.ticks % DRONE_PERIOD == 0 && factory_drones < 2 && *old(reserves) > 0),
            *final(reserves) == if launch { *old(reserves) - 1 } else { *old(reserves) as int },
    {
        let launch = self.factory_drone_due(factory_drones, *reserves);
        if launch {
            *reserves = *reserves - 1;
        }
        launch
    }

    /// All enemies are gone: the next wave begins with the lives restored; an airborne,
    /// intact helicopter (`heli_alive`, not respawning) is ordered home to the carrier.
    /// Returns which enemy groups join the new wave and whether the helicopter was recalled.
    pub fn advance_wave(&mut self, heli_alive: bool) -> (orders: WaveOrders)
        requires
            old(self).wf(),
            old(self).wave < WAVE_LIMIT,
        ensures
            final(self).wf(),
            final(self).wave == old(self).wave + 1,
            final(self).lives == FULL_LIVES,
            orders.tanks_active == (final(self).wave >= 2),
            orders.guns_active == (final(self).wave >= 3),
            orders.heli_recalled == (!old(self).heli.landed && heli_alive && old(self).heli.respawn_timer == 0),
            final(self).heli.returning_to_carrier == (old(self).heli.returning_to_carrier || orders.heli_recalled),
            *final(self) == (Game {
                wave: final(self).wave,
                lives: FULL_LIVES,
                heli: crate::game::Helicopter {
                    returning_to_carrier: final(self).heli.returning_to_carrier,
                    ..old(self).heli
                },
                ..*old(self)
            }),
    {
        self.wave += 1;
        self.lives = FULL_LIVES;
        let recalled = !self.heli.landed && heli_alive && self.heli.respawn_timer == 0;
        if recalled {
            self.heli.returning_to_carrier = true;
        }
        WaveOrders { tanks_active: self.wave >= 2, guns_active: self.wave >= 3, heli_recalled: recalled }
    }
}

} // verus!
