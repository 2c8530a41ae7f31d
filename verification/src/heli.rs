use vstd::prelude::*;
use crate::camera::{clamp_axis, half_toward_zero};
use crate::dice::random_byte;
use crate::game::{FULL_LIVES, FULL_MISSILE_LOAD, Game, Helicopter, RESPAWN_TICKS, TAKEOFF_LOCKOUT};
use crate::types::Explosion;

verus! {

/// Heading one step counter-clockwise (N -> NW -> W ...).
pub open spec fn spec_turn_left(dir: int) -> int {
    (dir + 7) % 8
}

/// Heading one step clockwise (N -> NE -> E ...).
pub open spec fn spec_turn_right(dir: int) -> int {
    (dir + 1) % 8
}

/// A timer one tick closer to zero, never passing it.
pub open spec fn count_down(t: int) -> int {
    if t > 0 {
        t - 1
    } else {
        t
    }
}

/// Law: a left turn undoes a right turn and a right turn undoes a left turn, and both
/// keep the heading among the eight directions.
pub proof fn law_turns_cancel(dir: int)
    requires
        0 <= dir < 8,
    ensures
        spec_turn_left(spec_turn_right(dir)) == dir,
        spec_turn_right(spec_turn_left(dir)) == dir,
        0 <= spec_turn_left(dir) < 8,
        0 <= spec_turn_right(dir) < 8,
{
}

/// Law: eight turns in the same direction bring the helicopter back to its heading.
pub proof fn law_full_circle(dir: int)
    requires
        0 <= dir < 8,
    ensures
        spec_turn_right(spec_turn_right(spec_turn_right(spec_turn_right(
            spec_turn_right(spec_turn_right(spec_turn_right(spec_turn_right(dir)))),
        )))) == dir,
{
}

impl Helicopter {
    /// Turns one step counter-clockwise.
    pub fn turn_left(&mut self)
        requires
            old(self).wf(),
        ensures
            final(self).wf(),
            final(self).dir == spec_turn_left(old(self).dir as int),
            *final(self) == (Helicopter { dir: final(self).dir, ..*old(self) }),
    {
        self.dir = (self.dir + 7) % 8;
    }

    /// Turns one step clockwise.
    pub fn turn_right(&mut self)
        requires
            old(self).wf(),
        ensures
            final(self).wf(),
            final(self).dir == spec_turn_right(old(self).dir as int),
            *final(self) == (Helicopter { dir: final(self).dir, ..*old(self) }),
    {
        self.dir = (self.dir + 1) % 8;
    }

    /// One tick of weapon cooling: the cannon and missile reload timers, the barrel heat and
    /// the jam timer each count down by one toward zero.
    pub fn tick_weapons(&mut self)
        requires
            old(self).wf(),
        ensures
            final(self).wf(),
            final(self).fire_cooldown == count_down(old(self).fire_cooldown as int),
            final(self).missile_cooldown == count_down(old(self).missile_cooldown as int),
            final(self).cannon_heat == count_down(old(self).cannon_heat as int),
            final(self).cannon_jammed == count_down(old(self).cannon_jammed as int),
            *final(self) == (Helicopter {
                fire_cooldown: final(self).fire_cooldown,
                missile_cooldown: final(self).missile_cooldown,
                cannon_heat: final(self).cannon_heat,
                cannon_jammed: final(self).cannon_jammed,
                ..*old(self)
            }),
    {
        if self.fire_cooldown > 0 {
            self.fire_cooldown -= 1;
        }
        if self.missile_cooldown > 0 {
            self.missile_cooldown -= 1;
        }
        if self.cannon_heat > 0 {
            self.cannon_heat -= 1;
        }
        if self.cannon_jammed > 0 {
            self.cannon_jammed -= 1;
        }
    }

    /// One tick of the takeoff/landing lockout.
    pub fn tick_takeoff(&mut self)
        requires
            old(self).wf(),
        ensures
            final(self).wf(),
            final(self).takeoff_cooldown == count_down(old(self).takeoff_cooldown as int),
            *final(self) == (Helicopter { takeoff_cooldown: final(self).takeoff_cooldown, ..*old(self) }),
    {
        if self.takeoff_cooldown > 0 {
            self.takeoff_cooldown -= 1;
        }
    }

    /// One tick of the stick-rotation delay.
    pub fn tick_rotation(&mut self)
        requires
            old(self).wf(),
        ensures
            final(self).wf(),
            final(self).rotation_cooldown == count_down(old(self).rotation_cooldown as int),
            *final(self) == (Helicopter { rotation_cooldown: final(self).rotation_cooldown, ..*old(self) }),
    {
        if self.rotation_cooldown > 0 {
            self.rotation_cooldown -= 1;
        }
    }

    /// Rearms on the pad: a partial missile load is topped up to a full one. Returns whether
    /// any missile was added.
    pub fn rearm(&mut self) -> (added: bool)
        requires
            old(self).wf(),
        ensures
            final(self).wf(),
            added == (old(self).missile_ammo < FULL_MISSILE_LOAD),
            final(self).missile_ammo == FULL_MISSILE_LOAD,
            *final(self) == (Helicopter { missile_ammo: final(self).missile_ammo, ..*old(self) }),
    {
        if self.missile_ammo < FULL_MISSILE_LOAD {
            self.missile_ammo = FULL_MISSILE_LOAD;
            true
        } else {
            false
        }
    }
}

/// The spark that three random bytes pick around wreckage at `(hx, hy)`: `bx` modulo 5
/// columns from two left of it, `by` modulo 3 rows from one above it, age `ba` modulo 3.
pub fn respawn_spark(hx: i32, hy: i32, bx: u8, by: u8, ba: u8) -> (e: Explosion)
    requires
        i32::MIN + 2 <= hx <= i32::MAX - 4,
        i32::MIN + 1 <= hy <= i32::MAX - 2,
    ensures
        e.x == hx + bx as int % 5 - 2,
        e.y == hy + by as int % 3 - 1,
        e.age == ba as int % 3,
{
    Explosion { x: hx + (bx as i32) % 5 - 2, y: hy + (by as i32) % 3 - 1, age: (ba as i32) % 3 }
}

impl Game {
    /// Loses the helicopter: one life is spent (never below zero). With no life left the
    /// game is over; otherwise the respawn countdown starts and the helicopter is airborne
    /// wreckage until then. Returns whether the countdown started.
    pub fn kill_heli(&mut self) -> (respawning: bool)
        requires
            old(self).wf(),
        ensures
            final(self).wf(),
            final(self).lives == spec_lose_life(old(self).lives as int),
            respawning == (final(self).lives != 0),
            final(self).game_over == (old(self).game_over || final(self).lives == 0),
            respawning ==> final(self).heli == (Helicopter {
                respawn_timer: RESPAWN_TICKS,
                landed: false,
                ..old(self).heli
            }),
            !respawning ==> final(self).heli == old(self).heli,
            *final(self) == (Game {
                lives: final(self).lives,
                game_over: final(self).game_over,
                heli: final(self).heli,
                ..*old(self)
            }),
    {
        if self.lives > 0 {
            self.lives -= 1;
        }
        if self.lives == 0 {
            self.game_over = true;
            false
        } else {
            self.heli.respawn_timer = RESPAWN_TICKS;
            self.heli.landed = false;
            true
        }
    }

    /// One tick of the respawn countdown for wreckage at rounded position `(hx, hy)`. Every
    /// fourth tick a spark appears within two columns and one row of it. When the countdown
    /// ends the helicopter stands on the pad, fully armed, with the takeoff lockout running,
    /// and the camera is centred on the pad. Returns whether the countdown ended.
    pub fn tick_respawn(&mut self, hx: i32, hy: i32) -> (done: bool)
        requires
            old(self).wf(),
            old(self).heli.respawn_timer > 0,
            i32::MIN + 2 <= hx <= i32::MAX - 4,
            i32::MIN + 1 <= hy <= i32::MAX - 2,
        ensures
            final(self).wf(),
            final(self).heli.respawn_timer == old(self).heli.respawn_timer - 1,
            done == (final(self).heli.respawn_timer == 0),
            final(self).heli.respawn_timer % 4 == 0 ==> {
                let e = final(self).explosions@.last();
                &&& final(self).explosions@.len() == old(self).explosions@.len() + 1
                &&& final(self).explosions@.drop_last() == old(self).explosions@
                &&& hx - 2 <= e.x <= hx + 2
                &&& hy - 1 <= e.y <= hy + 1
                &&& 0 <= e.age < 3
            },
            final(self).heli.respawn_timer % 4 != 0 ==> final(self).explosions@ == old(self).explosions@,
            done ==> final(self).heli == (Helicopter {
                respawn_timer: 0,
                missile_ammo: FULL_MISSILE_LOAD,
                landed: true,
                returning_to_carrier: false,
                takeoff_cooldown: TAKEOFF_LOCKOUT,
                ..old(self).heli
            }),
            done ==> final(self).cam_x == clamp_axis(
                old(self).spec_pad_x() - old(self).width / 2,
                old(self).world_width as int,
                old(self).width as int,
            ),
            done ==> final(self).cam_y == clamp_axis(
                old(self).spec_pad_y() - half_toward_zero(old(self).spec_play_height()),
                old(self).world_height as int,
                old(self).spec_play_height(),
            ),
            !done ==> final(self).heli == (Helicopter { respawn_timer: final(self).heli.respawn_timer, ..old(self).heli }),
            !done ==> final(self).cam_x == old(self).cam_x && final(self).cam_y == old(self).cam_y,
            *final(self) == (Game {
                heli: final(self).heli,
                explosions: final(self).explosions,
                cam_x: final(self).cam_x,
                cam_y: final(self).cam_y,
                ..*old(self)
            }),
    {
        self.heli.respawn_timer -= 1;
        if self.heli.respawn_timer % 4 == 0 {
            let spark = respawn_spark(hx, hy, random_byte(), random_byte(), random_byte());
            self.explosions.push(spark);
            assert(self.explosions@.drop_last() =~= old(self).explosions@);
        }
        if self.heli.respawn_timer == 0 {
            self.heli.missile_ammo = FULL_MISSILE_LOAD;
            self.heli.landed = true;
            self.heli.returning_to_carrier = false;
            self.heli.takeoff_cooldown = TAKEOFF_LOCKOUT;
            let (px, py) = self.pad();
            self.center_camera_on_pad(px, py);
            true
        } else {
            false
        }
    }

    /// Lands automatically when the helicopter at rounded position `(hx, hy)` is over the
    /// pad, `slow` (below the auto-landing speed) and out of its takeoff lockout: it is then
    /// landed, no longer flying home, and the lockout starts again. Otherwise the rotor
    /// advances one frame. Returns whether it landed.
    pub fn try_auto_land(&mut self, hx: i32, hy: i32, slow: bool) -> (landed: bool)
        requires
            old(self).wf(),
        ensures
            final(self).wf(),
            landed == (old(self).spec_over_pad(hx as int, hy as int) && slow
                && old(self).heli.takeoff_cooldown == 0),
            landed ==> final(self).heli == (Helicopter {
                landed: true,
                returning_to_carrier: false,
                takeoff_cooldown: TAKEOFF_LOCKOUT,
                ..old(self).heli
            }),
            !landed ==> final(self).heli == (Helicopter {
                rotor_state: ((old(self).heli.rotor_state + 1) % 4) as usize,
                ..old(self).heli
            }),
            *final(self) == (Game { heli: final(self).heli, ..*old(self) }),
    {
        if self.over_pad(hx, hy) && slow && self.heli.takeoff_cooldown == 0 {
            self.heli.landed = true;
            self.heli.returning_to_carrier = false;
            self.heli.takeoff_cooldown = TAKEOFF_LOCKOUT;
            true
        } else {
            self.heli.rotor_state = (self.heli.rotor_state + 1) % 4;
            false
        }
    }
}

/// The life count after one loss: one less, but never below zero.
pub open spec fn spec_lose_life(lives: int) -> int {
    if lives > 0 { lives - 1 } else { lives }
}

/// The life count after `n` losses in a row.
pub open spec fn lives_after_losses(lives: int, n: nat) -> int
    decreases n,
{
    if n == 0 { lives } else { spec_lose_life(lives_after_losses(lives, (n - 1) as nat)) }
}

/// Law: starting from `lives` lives, `n` losses leave `lives - n`, or zero once they are
/// spent; the count never goes below zero, so a full complement lasts exactly
/// `FULL_LIVES` losses.
pub proof fn law_losses_count_down(lives: int, n: nat)
    requires
        0 <= lives <= FULL_LIVES,
    ensures
        lives_after_losses(lives, n) == if n <= lives { lives - n } else { 0 },
        0 <= lives_after_losses(lives, n) <= FULL_LIVES,
    decreases n,
{
    if n > 0 {
        law_losses_count_down(lives, (n - 1) as nat);
    }
}

} // verus!
