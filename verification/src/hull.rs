use vstd::prelude::*;
use crate::dice::roll;

verus! {

/// Ticks a destroyed boat, factory, tank or gun battery burns before it is gone.
pub const SINKING_TICKS: i32 = 45;

/// Damage a guided missile does to a factory.
pub const MISSILE_FACTORY_DAMAGE: i32 = 10;

/// The hit points and survival state shared by every enemy: boats, factories, tanks and
/// static anti-aircraft guns. An enemy is live while `active`; a `sinking_timer` above zero
/// means it is burning out and ignores further fire.
#[derive(Debug, Clone, Copy, PartialEq, Eq)]
pub struct Hull {
    pub health: i32,
    pub max_health: i32,
    pub active: bool,
    pub sinking_timer: i32,
}

/// How a hit on a boat ended.
#[derive(Debug, Clone, Copy, PartialEq, Eq, Structural)]
pub enum Strike {
    /// The boat was already burning; nothing changed.
    Deflected,
    /// The boat lost a hit point and stays afloat.
    Damaged,
    /// The boat lost its last hit point and is gone at once.
    Sunk,
}

/// One tick of a burning enemy.
#[derive(Debug, Clone, Copy, PartialEq, Eq, Structural)]
pub struct Burn {
    /// A fresh spark of fire appears this tick (every third tick).
    pub spark: bool,
    /// The fire has run its course: the enemy is gone and its wreck explodes.
    pub finished: bool,
}

impl Hull {
    /// A fresh enemy with `max_health` hit points, present on the map when `active`.
    pub fn new(max_health: i32, active: bool) -> (h: Hull)
        ensures
            h == (Hull { health: max_health, max_health, active, sinking_timer: 0 }),
    {
        Hull { health: max_health, max_health, active, sinking_timer: 0 }
    }

    /// A cannon round strikes a live boat. A burning boat shrugs it off; otherwise the boat
    /// loses one hit point, and with none left it sinks at once (no burning phase).
    pub fn cannon_hit_boat(&mut self) -> (s: Strike)
        requires
            old(self).health > i32::MIN,
        ensures
            old(self).sinking_timer != 0 ==> s == Strike::Deflected && *final(self) == *old(self),
            old(self).sinking_timer == 0 ==> final(self).health == old(self).health - 1,
            old(self).sinking_timer == 0 && final(self).health <= 0 ==> s == Strike::Sunk
                && *final(self) == (Hull { health: final(self).health, active: false, ..*old(self) }),
            old(self).sinking_timer == 0 && final(self).health > 0 ==> s == Strike::Damaged
                && *final(self) == (Hull { health: final(self).health, ..*old(self) }),
    {
        if self.sinking_timer != 0 {
            return Strike::Deflected;
        }
        self.health -= 1;
        if self.health <= 0 {
            self.active = false;
            Strike::Sunk
        } else {
            Strike::Damaged
        }
    }

    /// A cannon round strikes a standing factory, tank or gun: it loses one hit point and,
    /// with none left, starts burning. Returns whether it was destroyed.
    pub fn cannon_hit_structure(&mut self) -> (destroyed: bool)
        requires
            old(self).health > i32::MIN,
        ensures
            final(self).health == old(self).health - 1,
            destroyed == (final(self).health <= 0),
            old(self).sinking_timer == 0 ==> *final(self) == after_cannon_rounds(*old(self), 1),
            final(self).sinking_timer == if destroyed { SINKING_TICKS } else { old(self).sinking_timer },
            *final(self) == (Hull {
                health: final(self).health,
                sinking_timer: final(self).sinking_timer,
                ..*old(self)
            }),
    {
        self.health -= 1;
        if self.health <= 0 {
            self.sinking_timer = SINKING_TICKS;
            assert(after_cannon_rounds(*old(self), 0) == *old(self));
            true
        } else {
            assert(after_cannon_rounds(*old(self), 0) == *old(self));
            false
        }
    }

    /// A guided missile strikes a live boat: unless it is already burning, it loses all its
    /// hit points and starts burning. Returns whether it started burning.
    pub fn missile_hit_boat(&mut self) -> (ignited: bool)
        ensures
            ignited == (old(self).sinking_timer == 0),
            ignited ==> *final(self) == (Hull { health: 0, sinking_timer: SINKING_TICKS, ..*old(self) }),
            !ignited ==> *final(self) == *old(self),
    {
        if self.sinking_timer == 0 {
            self.sinking_timer = SINKING_TICKS;
            self.health = 0;
            true
        } else {
            false
        }
    }

    /// A guided missile strikes a standing factory: it loses ten hit points and, with none
    /// left, is set to zero and starts burning. Returns whether it was destroyed.
    pub fn missile_hit_factory(&mut self) -> (destroyed: bool)
        requires
            old(self).health >= i32::MIN + MISSILE_FACTORY_DAMAGE,
        ensures
            destroyed == (old(self).health - MISSILE_FACTORY_DAMAGE <= 0),
            destroyed ==> *final(self) == (Hull { health: 0, sinking_timer: SINKING_TICKS, ..*old(self) }),
            !destroyed ==> *final(self) == (Hull {
                health: (old(self).health - MISSILE_FACTORY_DAMAGE) as i32,
                ..*old(self)
            }),
    {
        self.health -= MISSILE_FACTORY_DAMAGE;
        if self.health <= 0 {
            self.health = 0;
            self.sinking_timer = SINKING_TICKS;
            true
        } else {
            false
        }
    }

    /// A guided missile strikes a standing tank or gun: a critical hit, it loses all its
    /// hit points and starts burning.
    pub fn missile_hit_critical(&mut self)
        ensures
            *final(self) == (Hull { health: 0, sinking_timer: SINKING_TICKS, ..*old(self) }),
    {
        self.sinking_timer = SINKING_TICKS;
        self.health = 0;
    }

    /// One tick of a burning enemy: the fire burns down by a tick, sparks every third tick,
    /// and when it has burned out the enemy is no longer on the map.
    pub fn tick_sinking(&mut self) -> (b: Burn)
        requires
            old(self).sinking_timer > 0,
        ensures
            final(self).sinking_timer == old(self).sinking_timer - 1,
            b.spark == (final(self).sinking_timer % 3 == 0),
            b.finished == (final(self).sinking_timer == 0),
            final(self).active == (old(self).active && !b.finished),
            *final(self) == (Hull {
                sinking_timer: final(self).sinking_timer,
                active: final(self).active,
                ..*old(self)
            }),
    {
        self.sinking_timer -= 1;
        let spark = self.sinking_timer % 3 == 0;
        let finished = self.sinking_timer == 0;
        if finished {
            self.active = false;
        }
        Burn { spark, finished }
    }

    /// Back to full strength for a new wave, on the map when `active`, not burning.
    pub fn restore(&mut self, active: bool)
        ensures
            *final(self) == (Hull {
                health: old(self).max_health,
                active,
                sinking_timer: 0,
                max_health: old(self).max_health,
            }),
    {
        self.active = active;
        self.health = self.max_health;
        self.sinking_timer = 0;
    }
}

/// A weapon timer before a shot: a loading weapon counts down one tick and holds fire; a
/// loaded one (timer at zero or below) is ready. Returns whether it is ready.
pub fn fire_ready(cooldown: &mut i32) -> (ready: bool)
    ensures
        ready == (*old(cooldown) <= 0),
        ready ==> *final(cooldown) == *old(cooldown),
        !ready ==> *final(cooldown) == *old(cooldown) - 1,
{
    if *cooldown > 0 {
        *cooldown -= 1;
        false
    } else {
        true
    }
}

/// A weapon timer after a shot: `base` ticks plus a random extra below `spread`, drawn
/// with `roll(0, spread)` and added by `reload_from_roll`.
pub fn reload(base: i32, spread: i32) -> (t: i32)
    requires
        spread > 0,
        base + spread <= i32::MAX,
        base >= 0,
    ensures
        base <= t < base + spread,
{
    reload_from_roll(base, roll(0, spread))
}

/// The weapon timer for a drawn extra of `r` ticks: `base + r`.
pub fn reload_from_roll(base: i32, r: i32) -> (t: i32)
    requires
        0 <= r,
        base + r <= i32::MAX,
    ensures
        t == base + r,
{
    base + r
}

/// The hull after `n` cannon rounds on a standing structure, while it still stands.
pub open spec fn after_cannon_rounds(h: Hull, n: nat) -> Hull
    decreases n,
{
    if n == 0 {
        h
    } else {
        let prev = after_cannon_rounds(h, (n - 1) as nat);
        if prev.sinking_timer != 0 {
            prev
        } else {
            let health = prev.health - 1;
            Hull {
                health: health as i32,
                sinking_timer: if health <= 0 { SINKING_TICKS } else { prev.sinking_timer },
                ..prev
            }
        }
    }
}

proof fn lemma_rounds_standing(h: Hull, n: nat)
    requires
        h.sinking_timer == 0,
        0 < h.health,
        n < h.health,
    ensures
        after_cannon_rounds(h, n).health == h.health - n,
        after_cannon_rounds(h, n).sinking_timer == 0,
    decreases n,
{
    if n > 0 {
        lemma_rounds_standing(h, (n - 1) as nat);
    }
}

/// Law: a standing structure with `health` hit points withstands `health - 1` cannon rounds
/// and starts burning on the next one (a factory takes 25, a tank 6, a gun 4).
pub proof fn law_rounds_to_destroy(h: Hull)
    requires
        h.sinking_timer == 0,
        0 < h.health,
    ensures
        after_cannon_rounds(h, (h.health - 1) as nat).sinking_timer == 0,
        after_cannon_rounds(h, h.health as nat).sinking_timer == SINKING_TICKS,
        after_cannon_rounds(h, h.health as nat).health == 0,
{
    lemma_rounds_standing(h, (h.health - 1) as nat);
}

} // verus!
