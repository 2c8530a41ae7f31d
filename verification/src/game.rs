use vstd::prelude::*;
use crate::camera::clamp_axis;
use crate::types::{Explosion, Island, LockedTarget};

verus! {

/// Missiles a helicopter carries when fully armed.
pub const FULL_MISSILE_LOAD: i32 = 4;

/// Lives a pilot starts each wave with.
pub const FULL_LIVES: i32 = 5;

/// Ticks during which a freshly landed or launched helicopter cannot land or take off again.
pub const TAKEOFF_LOCKOUT: i32 = 25;

/// Ticks between the loss of a helicopter and its return on the carrier pad.
pub const RESPAWN_TICKS: i32 = 150;

/// Cannon heat at which the barrel jams.
pub const MAX_HEAT: i32 = 20;

/// Explosion markers disappear once their age reaches this value.
pub const EXPLOSION_LIFETIME: i32 = 15;

/// The aircraft carrier's deck: a rectangle of world cells, and the countdown to its next
/// defensive missile. Its hull strength is a continuous quantity kept by the caller.
#[derive(Debug, Clone, Copy, PartialEq, Eq)]
pub struct Carrier {
    pub x: i32,
    pub y: i32,
    pub width: i32,
    pub height: i32,
    pub missile_cooldown: i32,
}

/// The discrete systems of the player's helicopter: heading, rotor frame, landing state,
/// weapon timers and ammunition. Its position, velocity, fuel and armor are continuous
/// quantities kept by the caller.
#[derive(Debug, Clone, Copy, PartialEq, Eq)]
pub struct Helicopter {
    pub dir: usize,
    pub rotor_state: usize,
    pub landed: bool,
    pub fire_cooldown: i32,
    pub takeoff_cooldown: i32,
    pub missile_cooldown: i32,
    pub missile_ammo: i32,
    pub respawn_timer: i32,
    pub cannon_heat: i32,
    pub cannon_jammed: i32,
    pub returning_to_carrier: bool,
    pub rotation_cooldown: i32,
}

/// The discrete state of a game session: screen and world size, camera, session flags,
/// wave and lives, the helicopter's systems, the carrier deck, explosions and the lock-on.
#[derive(Debug, Clone)]
pub struct Game {
    pub width: i32,
    pub height: i32,
    pub world_width: i32,
    pub world_height: i32,
    pub cam_x: i32,
    pub cam_y: i32,
    pub quit_confirming: bool,
    pub game_over: bool,
    pub carrier_destroying: bool,
    pub destruction_ticks: i32,
    pub wave: i32,
    pub heli: Helicopter,
    pub carrier: Carrier,
    pub island: Island,
    pub stealth_spawn_at: i32,
    pub stealth_near: bool,
    pub explosions: Vec<Explosion>,
    pub lives: i32,
    pub ticks: i32,
    pub locked: LockedTarget,
}

/// Highest wave number the game counts to: the largest `i32`.
pub const WAVE_LIMIT: i32 = 2_147_483_647;

/// Highest tick count the game counts to: the largest `i32`.
pub const TICK_LIMIT: i32 = 2_147_483_647;

/// Bound on every world coordinate the game handles (terminal sizes are 16-bit).
pub const COORD_LIMIT: i32 = 1_000_000;

pub open spec fn in_coord_range(v: int) -> bool {
    -COORD_LIMIT <= v <= COORD_LIMIT
}

/// The larger of two integers.
pub open spec fn max2(a: int, b: int) -> int {
    if a >= b { a } else { b }
}

/// The smaller of two integers.
pub open spec fn min2(a: int, b: int) -> int {
    if a <= b { a } else { b }
}

/// Every explosion on the list is still visible: its age lies in `0..EXPLOSION_LIFETIME`.
pub open spec fn explosions_fresh(s: Seq<Explosion>) -> bool {
    forall|i: int| 0 <= i < s.len() ==> 0 <= #[trigger] s[i].age < EXPLOSION_LIFETIME
}

impl Helicopter {
    /// The helicopter's invariant: one of eight headings, one of four rotor frames, timers
    /// never negative, a cannon that never stays at or above its overheat point, and a
    /// missile load between empty and full.
    pub open spec fn wf(&self) -> bool {
        &&& self.dir < 8
        &&& self.rotor_state < 4
        &&& 0 <= self.fire_cooldown
        &&& 0 <= self.takeoff_cooldown
        &&& 0 <= self.missile_cooldown
        &&& 0 <= self.missile_ammo <= FULL_MISSILE_LOAD
        &&& 0 <= self.respawn_timer
        &&& 0 <= self.cannon_heat < MAX_HEAT
        &&& 0 <= self.cannon_jammed
        &&& 0 <= self.rotation_cooldown
    }
}

impl Game {
    /// The session invariant: sizes come from a 16-bit terminal, the world and camera stay
    /// in a bounded range, the carrier is a non-empty rectangle, the heading is one of the
    /// eight directions, a carrier destruction sequence has ticks left to run, and every
    /// explosion is still visible.
    pub open spec fn wf(&self) -> bool {
        &&& 0 <= self.width <= 65535
        &&& 0 <= self.height <= 65535
        &&& 0 < self.world_width <= 200_000
        &&& 0 < self.world_height <= 200_000
        &&& in_coord_range(self.cam_x as int)
        &&& in_coord_range(self.cam_y as int)
        &&& 0 <= self.carrier.x <= 200_000
        &&& 0 <= self.carrier.y <= 200_000
        &&& 0 < self.carrier.width <= 1000
        &&& 0 < self.carrier.height <= 1000
        &&& self.heli.wf()
        &&& (self.carrier_destroying ==> self.destruction_ticks > 0)
        &&& 0 <= self.lives <= FULL_LIVES
        &&& 1 <= self.wave <= WAVE_LIMIT
        &&& 0 <= self.ticks <= TICK_LIMIT
        &&& explosions_fresh(self.explosions@)
    }

    /// Column of the landing pad: a third of the way along the deck.
    pub open spec fn spec_pad_x(&self) -> int {
        self.carrier.x + self.carrier.width / 3
    }

    /// Row of the landing pad: the middle row of the deck.
    pub open spec fn spec_pad_y(&self) -> int {
        self.carrier.y + self.carrier.height / 2
    }

    /// A helicopter whose rounded position is `(hx, hy)` is over the pad: within one cell of it.
    pub open spec fn spec_over_pad(&self, hx: int, hy: int) -> bool {
        &&& self.spec_pad_x() - 1 <= hx <= self.spec_pad_x() + 1
        &&& self.spec_pad_y() - 1 <= hy <= self.spec_pad_y() + 1
    }

    /// Cell `(x, y)` lies inside the carrier's rectangle.
    pub open spec fn spec_on_carrier(&self, x: int, y: int) -> bool {
        &&& self.carrier.x <= x < self.carrier.x + self.carrier.width
        &&& self.carrier.y <= y < self.carrier.y + self.carrier.height
    }

    /// The landing pad's cell.
    pub fn pad(&self) -> (p: (i32, i32))
        requires
            self.wf(),
        ensures
            p.0 == self.spec_pad_x(),
            p.1 == self.spec_pad_y(),
    {
        (self.carrier.x + self.carrier.width / 3, self.carrier.y + self.carrier.height / 2)
    }

    /// The carrier's centre cell (the target of enemy missiles and the hub of its drones).
    pub fn carrier_center(&self) -> (c: (i32, i32))
        requires
            self.wf(),
        ensures
            c.0 == self.carrier.x + self.carrier.width / 2,
            c.1 == self.carrier.y + self.carrier.height / 2,
    {
        (self.carrier.x + self.carrier.width / 2, self.carrier.y + self.carrier.height / 2)
    }

    /// Whether a helicopter at rounded position `(hx, hy)` is aligned with the landing pad.
    pub fn over_pad(&self, hx: i32, hy: i32) -> (b: bool)
        requires
            self.wf(),
        ensures
            b == self.spec_over_pad(hx as int, hy as int),
    {
        let (px, py) = self.pad();
        hx >= px - 1 && hx <= px + 1 && hy >= py - 1 && hy <= py + 1
    }

    /// Whether cell `(x, y)` lies on the carrier.
    pub fn on_carrier(&self, x: i32, y: i32) -> (b: bool)
        requires
            self.wf(),
        ensures
            b == self.spec_on_carrier(x as int, y as int),
    {
        x >= self.carrier.x && x < self.carrier.x + self.carrier.width && y >= self.carrier.y
            && y < self.carrier.y + self.carrier.height
    }

    /// The two service roads on the island: a vertical road three cells wide near the east
    /// edge, between an eighth and seven eighths of the world's height, and a horizontal
    /// road three cells high through the middle row, near the east edge.
    pub open spec fn spec_is_road(&self, x: int, y: int) -> bool {
        let h = self.world_height as int;
        let w = self.world_width as int;
        ||| (w - 16 <= x <= w - 14 && h / 8 <= y <= h * 7 / 8)
        ||| (h / 2 - 1 <= y <= h / 2 + 1 && w - 15 <= x <= w - 7)
    }

    /// Whether world cell `(x, y)` is road.
    pub fn is_road(&self, x: i32, y: i32) -> (b: bool)
        requires
            self.wf(),
        ensures
            b == self.spec_is_road(x as int, y as int),
    {
        let h = self.world_height;
        let w = self.world_width;
        if x >= w - 16 && x <= w - 14 && y >= h / 8 && y <= h * 7 / 8 {
            return true;
        }
        if y >= h / 2 - 1 && y <= h / 2 + 1 && x >= w - 15 && x <= w - 7 {
            return true;
        }
        false
    }
}

/// Rows of world per row of playable screen height.
pub const WORLD_ROWS_PER_SCREEN_ROW: i32 = 2;

/// The helicopter as it starts: facing north on the pad, fully armed, all timers idle.
pub open spec fn fresh_helicopter() -> Helicopter {
    Helicopter {
        dir: 0,
        rotor_state: 0,
        landed: true,
        fire_cooldown: 0,
        takeoff_cooldown: 0,
        missile_cooldown: 0,
        missile_ammo: FULL_MISSILE_LOAD,
        respawn_timer: 0,
        cannon_heat: 0,
        cannon_jammed: 0,
        returning_to_carrier: false,
        rotation_cooldown: 0,
    }
}

impl Game {
    /// Playable height a new game is laid out for: the screen less the cockpit panel, but at
    /// least 10 rows.
    pub open spec fn spec_new_playable_height(height: int) -> int {
        max2(height - 6, 10)
    }

    /// A new session for a `width` x `height` terminal. The world is twice the screen width
    /// (at least 80 columns) and twice the playable height; the carrier, 26 x 6, sits a tenth
    /// of the way across and a quarter of the way down; the helicopter stands on the pad with
    /// a full load; the camera is centred on the pad and held inside the world; wave 1, five
    /// lives, no explosions, no lock.
    pub fn new(width: i32, height: i32) -> (g: Game)
        requires
            0 <= width <= 65535,
            0 <= height <= 65535,
        ensures
            g.wf(),
            g.width == width,
            g.height == height,
            g.world_width == max2(2 * width, 80),
            g.world_height == 2 * Self::spec_new_playable_height(height as int),
            g.carrier == (Carrier {
                x: (g.world_width / 10) as i32,
                y: (g.world_height / 4) as i32,
                width: 26,
                height: 6,
                missile_cooldown: 0,
            }),
            g.heli == fresh_helicopter(),
            g.cam_x == clamp_axis(
                g.spec_pad_x() - width / 2,
                g.world_width as int,
                width as int,
            ),
            g.cam_y == clamp_axis(
                g.spec_pad_y() - Self::spec_new_playable_height(height as int) / 2,
                g.world_height as int,
                Self::spec_new_playable_height(height as int),
            ),
            g.island == (Island { x: 0, y: 0, width: 0, height: 0, active: true }),
            !g.quit_confirming,
            !g.game_over,
            !g.carrier_destroying,
            g.destruction_ticks == 0,
            g.wave == 1,
            g.lives == FULL_LIVES,
            g.ticks == 0,
            g.stealth_spawn_at == 0,
            !g.stealth_near,
            g.explosions@.len() == 0,
            g.locked == LockedTarget::NoLock,
    {
        let playable = if height - 6 >= 10 { height - 6 } else { 10 };
        let world_width = if 2 * width >= 80 { 2 * width } else { 80 };
        let world_height = WORLD_ROWS_PER_SCREEN_ROW * playable;
        let carrier = Carrier { x: world_width / 10, y: world_height / 4, width: 26, height: 6, missile_cooldown: 0 };
        let pad_x = carrier.x + carrier.width / 3;
        let pad_y = carrier.y + carrier.height / 2;
        let cx = pad_x - width / 2;
        let cy = pad_y - playable / 2;
        let cam_x = if world_width > width {
            if cx < 0 { 0 } else if cx > world_width - width { world_width - width } else { cx }
        } else {
            0
        };
        let cam_y = if world_height > playable {
            if cy < 0 { 0 } else if cy > world_height - playable { world_height - playable } else { cy }
        } else {
            0
        };
        Game {
            width,
            height,
            world_width,
            world_height,
            cam_x,
            cam_y,
            quit_confirming: false,
            game_over: false,
            carrier_destroying: false,
            destruction_ticks: 0,
            wave: 1,
            heli: Helicopter {
                dir: 0,
                rotor_state: 0,
                landed: true,
                fire_cooldown: 0,
                takeoff_cooldown: 0,
                missile_cooldown: 0,
                missile_ammo: FULL_MISSILE_LOAD,
                respawn_timer: 0,
                cannon_heat: 0,
                cannon_jammed: 0,
                returning_to_carrier: false,
                rotation_cooldown: 0,
            },
            carrier,
            island: Island { x: 0, y: 0, width: 0, height: 0, active: true },
            stealth_spawn_at: 0,
            stealth_near: false,
            explosions: Vec::new(),
            lives: FULL_LIVES,
            ticks: 0,
            locked: LockedTarget::NoLock,
        }
    }
}

} // verus!
