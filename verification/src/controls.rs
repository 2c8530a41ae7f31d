use vstd::prelude::*;
use crate::game::{Game, Helicopter, MAX_HEAT, TAKEOFF_LOCKOUT};
use crate::heli::{spec_turn_left, spec_turn_right};
use crate::types::LockedTarget;

verus! {

/// Ticks the cannon needs between shots.
pub const CANNON_RELOAD: i32 = 4;

/// Heat one cannon shot adds to the barrel.
pub const HEAT_PER_SHOT: i32 = 5;

/// Ticks an overheated barrel stays jammed.
pub const JAM_TICKS: i32 = 60;

/// Ticks between missile launches.
pub const MISSILE_RELOAD: i32 = 12;

/// Player missiles that may be in flight at once.
pub const MAX_PLAYER_MISSILES: usize = 2;

/// A key as the game reads it: a character, an arrow, Escape, or anything else.
#[derive(Debug, Clone, Copy, PartialEq, Eq, Structural)]
pub enum KeyCode {
    Char(char),
    Up,
    Down,
    Left,
    Right,
    Esc,
    Other,
}

/// A key press and whether the Control modifier was held.
#[derive(Debug, Clone, Copy, PartialEq, Eq, Structural)]
pub struct KeyPress {
    pub code: KeyCode,
    pub ctrl: bool,
}

/// Where a key press goes after the session-level handling.
#[derive(Debug, Clone, Copy, PartialEq, Eq, Structural)]
pub enum KeyRoute {
    /// The program should exit.
    Quit,
    /// The key was used by the quit dialog.
    Handled,
    /// The key is a flight command for the helicopter.
    Gameplay,
}

/// What the caller observes of the helicopter's continuous state when a key arrives:
/// its rounded position, whether its armor is gone, whether its tank is empty, whether it
/// flies slowly enough to land by hand, and how many player missiles are in flight.
#[derive(Debug, Clone, Copy, PartialEq, Eq)]
pub struct FlightReadout {
    pub hx: i32,
    pub hy: i32,
    pub armor_depleted: bool,
    pub fuel_empty: bool,
    pub slow_enough_to_land: bool,
    pub player_missiles: usize,
}

/// The continuous consequences of a key press, for the caller to carry out: lift off the
/// deck, settle on the pad, spawn a cannon round (and take overheat damage), spawn a
/// missile (or report a launch refused for want of a lock), thrust forward, or brake.
#[derive(Debug, Clone, Copy, PartialEq, Eq, Structural)]
pub struct KeyEffects {
    pub took_off: bool,
    pub landed: bool,
    pub cannon_fired: bool,
    pub overheated: bool,
    pub missile_fired: bool,
    pub missile_aborted: bool,
    pub thrust: bool,
    pub brake: bool,
}

/// No consequence at all.
pub open spec fn no_effects() -> KeyEffects {
    KeyEffects {
        took_off: false,
        landed: false,
        cannon_fired: false,
        overheated: false,
        missile_fired: false,
        missile_aborted: false,
        thrust: false,
        brake: false,
    }
}

/// Control-C.
pub open spec fn is_ctrl_c(k: KeyPress) -> bool {
    k.ctrl && k.code == KeyCode::Char('c')
}

/// Keys that lift a landed helicopter off the deck: Space, Up, W and L.
pub open spec fn is_takeoff_key(c: KeyCode) -> bool {
    ||| c == KeyCode::Char(' ')
    ||| c == KeyCode::Up
    ||| c == KeyCode::Char('w')
    ||| c == KeyCode::Char('W')
    ||| c == KeyCode::Char('l')
    ||| c == KeyCode::Char('L')
}

/// The manual landing key: L.
pub open spec fn is_land_key(c: KeyCode) -> bool {
    c == KeyCode::Char('l') || c == KeyCode::Char('L')
}

/// The cannon key: Space.
pub open spec fn is_cannon_key(c: KeyCode) -> bool {
    c == KeyCode::Char(' ')
}

/// The missile keys: F and M.
pub open spec fn is_missile_key(c: KeyCode) -> bool {
    ||| c == KeyCode::Char('f')
    ||| c == KeyCode::Char('F')
    ||| c == KeyCode::Char('m')
    ||| c == KeyCode::Char('M')
}

/// Steer left: Left arrow or A.
pub open spec fn is_left_key(c: KeyCode) -> bool {
    c == KeyCode::Left || c == KeyCode::Char('a') || c == KeyCode::Char('A')
}

/// Steer right: Right arrow or D.
pub open spec fn is_right_key(c: KeyCode) -> bool {
    c == KeyCode::Right || c == KeyCode::Char('d') || c == KeyCode::Char('D')
}

/// Thrust: Up arrow or W.
pub open spec fn is_thrust_key(c: KeyCode) -> bool {
    c == KeyCode::Up || c == KeyCode::Char('w') || c == KeyCode::Char('W')
}

/// Brake: Down arrow or S.
pub open spec fn is_brake_key(c: KeyCode) -> bool {
    c == KeyCode::Down || c == KeyCode::Char('s') || c == KeyCode::Char('S')
}

/// Flight keys are ignored while the helicopter is wrecked, respawning, flying home on
/// autopilot, or while the carrier is going down.
pub open spec fn controls_locked(g: Game, f: FlightReadout) -> bool {
    f.armor_depleted || g.heli.respawn_timer > 0 || g.heli.returning_to_carrier || g.carrier_destroying
}

/// A manual landing happens on L, out of the lockout, over the pad and slowly enough.
pub open spec fn lands_by_hand(g: Game, k: KeyPress, f: FlightReadout) -> bool {
    &&& is_land_key(k.code)
    &&& g.heli.takeoff_cooldown == 0
    &&& g.spec_over_pad(f.hx as int, f.hy as int)
    &&& f.slow_enough_to_land
}

/// The cannon fires on Space when reloaded, not jammed, and with fuel in the tank.
pub open spec fn cannon_fires(g: Game, k: KeyPress, f: FlightReadout) -> bool {
    &&& is_cannon_key(k.code)
    &&& g.heli.fire_cooldown == 0
    &&& g.heli.cannon_jammed == 0
    &&& !f.fuel_empty
}

/// A missile launch is attempted on F or M when reloaded, fuelled and armed.
pub open spec fn missile_attempted(g: Game, k: KeyPress, f: FlightReadout) -> bool {
    &&& is_missile_key(k.code)
    &&& g.heli.missile_cooldown == 0
    &&& !f.fuel_empty
    &&& g.heli.missile_ammo > 0
}

/// An attempted launch without a lock is aborted, and the key press ends there.
pub open spec fn missile_aborted(g: Game, k: KeyPress, f: FlightReadout) -> bool {
    missile_attempted(g, k, f) && g.locked == LockedTarget::NoLock
}

/// An attempted launch with a lock goes ahead while fewer than two player missiles fly.
pub open spec fn missile_launches(g: Game, k: KeyPress, f: FlightReadout) -> bool {
    &&& missile_attempted(g, k, f)
    &&& g.locked != LockedTarget::NoLock
    &&& f.player_missiles < MAX_PLAYER_MISSILES
}

/// Y, Control-C: confirm quitting in the dialog.
pub open spec fn confirms_quit(k: KeyPress) -> bool {
    k.code == KeyCode::Char('y') || k.code == KeyCode::Char('Y') || is_ctrl_c(k)
}

/// N, Escape: back to the game from the dialog.
pub open spec fn cancels_quit(k: KeyPress) -> bool {
    k.code == KeyCode::Char('n') || k.code == KeyCode::Char('N') || k.code == KeyCode::Esc
}

/// Escape, Control-C: open the quit dialog during play.
pub open spec fn asks_to_quit(k: KeyPress) -> bool {
    k.code == KeyCode::Esc || is_ctrl_c(k)
}

/// Where a key goes at session level.
pub open spec fn raw_key_route(g: Game, k: KeyPress) -> KeyRoute {
    if g.game_over {
        KeyRoute::Quit
    } else if g.quit_confirming {
        if confirms_quit(k) { KeyRoute::Quit } else { KeyRoute::Handled }
    } else if asks_to_quit(k) {
        KeyRoute::Handled
    } else {
        KeyRoute::Gameplay
    }
}

/// Whether the quit dialog is open after a key.
pub open spec fn raw_key_dialog(g: Game, k: KeyPress) -> bool {
    if g.game_over {
        g.quit_confirming
    } else if g.quit_confirming {
        if confirms_quit(k) { true } else if cancels_quit(k) { false } else { true }
    } else {
        asks_to_quit(k)
    }
}

/// Law: a key press launches a missile, or reports a launch refused for want of a lock,
/// only on F or M, when the missile reload timer has run out, a missile is left and the
/// tank is not empty; a launch further needs a lock and fewer than two player missiles in
/// flight. While the reload timer runs, F and M do nothing.
pub proof fn law_missile_needs_reload(g: Game, k: KeyPress, f: FlightReadout)
    ensures
        missile_launches(g, k, f) || missile_aborted(g, k, f) ==> {
            &&& k.code == KeyCode::Char('f') || k.code == KeyCode::Char('F')
                || k.code == KeyCode::Char('m') || k.code == KeyCode::Char('M')
            &&& g.heli.missile_cooldown == 0
            &&& g.heli.missile_ammo > 0
            &&& !f.fuel_empty
        },
        missile_launches(g, k, f) ==> g.locked != LockedTarget::NoLock && f.player_missiles < 2,
        missile_aborted(g, k, f) ==> g.locked == LockedTarget::NoLock,
        g.heli.missile_cooldown > 0 ==> !missile_launches(g, k, f) && !missile_aborted(g, k, f),
{
}

/// Law: during play, Escape followed by N (or Escape) brings the session back to exactly
/// where it was, with no key reaching the helicopter.
pub proof fn law_quit_dialog_cancel_restores(g: Game, cancel: KeyPress)
    requires
        !g.game_over,
        !g.quit_confirming,
        cancels_quit(cancel),
        !confirms_quit(cancel),
    ensures
        ({
            let esc = KeyPress { code: KeyCode::Esc, ctrl: false };
            let g1 = Game { quit_confirming: raw_key_dialog(g, esc), ..g };
            &&& raw_key_route(g, esc) == KeyRoute::Handled
            &&& raw_key_route(g1, cancel) == KeyRoute::Handled
            &&& Game { quit_confirming: raw_key_dialog(g1, cancel), ..g1 } == g
        }),
{
}

/// Law: during play, Escape followed by a confirming key quits.
pub proof fn law_quit_dialog_confirm_quits(g: Game, confirm: KeyPress)
    requires
        !g.game_over,
        !g.quit_confirming,
        confirms_quit(confirm),
    ensures
        ({
            let esc = KeyPress { code: KeyCode::Esc, ctrl: false };
            let g1 = Game { quit_confirming: raw_key_dialog(g, esc), ..g };
            raw_key_route(g1, confirm) == KeyRoute::Quit
        }),
{
}

/// Law: once the game is over, every key quits.
pub proof fn law_game_over_any_key_quits(g: Game, k: KeyPress)
    requires
        g.game_over,
    ensures
        raw_key_route(g, k) == KeyRoute::Quit,
{
}

impl Game {
    /// Session-level key handling. After the game is over any key quits. While the quit
    /// dialog is open, Y or Control-C quits, N or Escape closes the dialog, and every other
    /// key is swallowed. Otherwise Escape or Control-C opens the dialog, and any other key
    /// is a flight command.
    pub fn handle_raw_key(&mut self, key: &KeyPress) -> (route: KeyRoute)
        requires
            old(self).wf(),
        ensures
            final(self).wf(),
            route == raw_key_route(*old(self), *key),
            *final(self) == (Game { quit_confirming: raw_key_dialog(*old(self), *key), ..*old(self) }),
    {
        if self.game_over {
            return KeyRoute::Quit;
        }
        let ctrl_c = key.ctrl && key.code == KeyCode::Char('c');
        if self.quit_confirming {
            if key.code == KeyCode::Char('y') || key.code == KeyCode::Char('Y') || ctrl_c {
                return KeyRoute::Quit;
            }
            if key.code == KeyCode::Char('n') || key.code == KeyCode::Char('N') || key.code == KeyCode::Esc {
                self.quit_confirming = false;
            }
            return KeyRoute::Handled;
        }
        if key.code == KeyCode::Esc || ctrl_c {
            self.quit_confirming = true;
            return KeyRoute::Handled;
        }
        KeyRoute::Gameplay
    }

    /// A flight command. A landed helicopter only takes off (Space, Up, W or L, outside the
    /// lockout). In the air, L lands by hand when over the pad and slow; Space fires the
    /// cannon, heating the barrel by 5 and jamming it for 60 ticks when the heat reaches 20;
    /// F or M launches a missile at the locked target (aborting without a lock, holding back
    /// while two are in flight); the arrows and WASD steer, thrust and brake. The integer
    /// state changes here; the returned effects tell the caller what to do with position,
    /// velocity and armor.
    pub fn handle_key_press(&mut self, key: &KeyPress, f: &FlightReadout) -> (fx: KeyEffects)
        requires
            old(self).wf(),
        ensures
            final(self).wf(),
            *final(self) == (Game { heli: final(self).heli, ..*old(self) }),
            fx.missile_fired ==> {
                &&& old(self).heli.missile_cooldown == 0
                &&& old(self).heli.missile_ammo > 0
                &&& old(self).locked != LockedTarget::NoLock
                &&& final(self).heli.missile_ammo == old(self).heli.missile_ammo - 1
                &&& final(self).heli.missile_cooldown == 12
            },
            old(self).heli.missile_cooldown > 0 ==> {
                &&& !fx.missile_fired
                &&& !fx.missile_aborted
                &&& final(self).heli.missile_ammo == old(self).heli.missile_ammo
                &&& final(self).heli.missile_cooldown == old(self).heli.missile_cooldown
            },
            controls_locked(*old(self), *f) ==> final(self).heli == old(self).heli && fx == no_effects(),
            !controls_locked(*old(self), *f) && old(self).heli.landed ==> {
                &&& (is_takeoff_key(key.code) && old(self).heli.takeoff_cooldown == 0) ==> {
                    &&& final(self).heli == (Helicopter {
                        landed: false,
                        takeoff_cooldown: TAKEOFF_LOCKOUT,
                        ..old(self).heli
                    })
                    &&& fx == (KeyEffects { took_off: true, ..no_effects() })
                }
                &&& !(is_takeoff_key(key.code) && old(self).heli.takeoff_cooldown == 0) ==>
                    final(self).heli == old(self).heli && fx == no_effects()
            },
            !controls_locked(*old(self), *f) && !old(self).heli.landed && lands_by_hand(*old(self), *key, *f) ==> {
                &&& final(self).heli == (Helicopter {
                    landed: true,
                    takeoff_cooldown: TAKEOFF_LOCKOUT,
                    ..old(self).heli
                })
                &&& fx == (KeyEffects { landed: true, ..no_effects() })
            },
            !controls_locked(*old(self), *f) && !old(self).heli.landed && !lands_by_hand(*old(self), *key, *f) ==> {
                let g = *old(self);
                let fire = cannon_fires(g, *key, *f);
                let heat = g.heli.cannon_heat + HEAT_PER_SHOT;
                let over = fire && heat >= MAX_HEAT;
                let abort = missile_aborted(g, *key, *f);
                let launch = missile_launches(g, *key, *f);
                let h = final(self).heli;
                &&& h.fire_cooldown == if fire { CANNON_RELOAD } else { g.heli.fire_cooldown }
                &&& h.cannon_heat == if over { 0 } else if fire { heat } else { g.heli.cannon_heat as int }
                &&& h.cannon_jammed == if over { JAM_TICKS } else { g.heli.cannon_jammed }
                &&& h.missile_ammo == if launch { g.heli.missile_ammo - 1 } else { g.heli.missile_ammo as int }
                &&& h.missile_cooldown == if launch { MISSILE_RELOAD } else { g.heli.missile_cooldown }
                &&& h.dir == if abort {
                    g.heli.dir as int
                } else if is_left_key(key.code) {
                    spec_turn_left(g.heli.dir as int)
                } else if is_right_key(key.code) {
                    spec_turn_right(g.heli.dir as int)
                } else {
                    g.heli.dir as int
                }
                &&& h == (Helicopter {
                    fire_cooldown: h.fire_cooldown,
                    cannon_heat: h.cannon_heat,
                    cannon_jammed: h.cannon_jammed,
                    missile_ammo: h.missile_ammo,
                    missile_cooldown: h.missile_cooldown,
                    dir: h.dir,
                    ..g.heli
                })
                &&& fx == (KeyEffects {
                    cannon_fired: fire,
                    overheated: over,
                    missile_fired: launch,
                    missile_aborted: abort,
                    thrust: !abort && is_thrust_key(key.code),
                    brake: !abort && is_brake_key(key.code),
                    ..no_effects()
                })
            },
    {
        let mut fx = KeyEffects {
            took_off: false,
            landed: false,
            cannon_fired: false,
            overheated: false,
            missile_fired: false,
            missile_aborted: false,
            thrust: false,
            brake: false,
        };
        if f.armor_depleted || self.heli.respawn_timer > 0 || self.heli.returning_to_carrier
            || self.carrier_destroying {
            return fx;
        }
        let code = key.code;
        if self.heli.landed {
            let takeoff_key = code == KeyCode::Char(' ') || code == KeyCode::Up || code == KeyCode::Char('w')
                || code == KeyCode::Char('W') || code == KeyCode::Char('l') || code == KeyCode::Char('L');
            if takeoff_key && self.heli.takeoff_cooldown == 0 {
                self.heli.landed = false;
                self.heli.takeoff_cooldown = TAKEOFF_LOCKOUT;
                fx.took_off = true;
            }
            return fx;
        }
        if (code == KeyCode::Char('l') || code == KeyCode::Char('L')) && self.heli.takeoff_cooldown == 0 {
            if self.over_pad(f.hx, f.hy) && f.slow_enough_to_land {
                self.heli.landed = true;
                self.heli.takeoff_cooldown = TAKEOFF_LOCKOUT;
                fx.landed = true;
                return fx;
            }
        }
        if code == KeyCode::Char(' ') && self.heli.fire_cooldown == 0 && self.heli.cannon_jammed == 0
            && !f.fuel_empty {
            fx.cannon_fired = true;
            self.heli.fire_cooldown = CANNON_RELOAD;
            self.heli.cannon_heat += HEAT_PER_SHOT;
            if self.heli.cannon_heat >= MAX_HEAT {
                self.heli.cannon_heat = 0;
                self.heli.cannon_jammed = JAM_TICKS;
                fx.overheated = true;
            }
        }
        let missile_key = code == KeyCode::Char('f') || code == KeyCode::Char('F') || code == KeyCode::Char('m')
            || code == KeyCode::Char('M');
        if missile_key && self.heli.missile_cooldown == 0 && !f.fuel_empty && self.heli.missile_ammo > 0 {
            if self.locked == LockedTarget::NoLock {
                fx.missile_aborted = true;
                return fx;
            }
            if f.player_missiles < MAX_PLAYER_MISSILES {
                self.heli.missile_ammo -= 1;
                self.heli.missile_cooldown = MISSILE_RELOAD;
                fx.missile_fired = true;
            }
        }
        if code == KeyCode::Left || code == KeyCode::Char('a') || code == KeyCode::Char('A') {
            self.heli.turn_left();
        } else if code == KeyCode::Right || code == KeyCode::Char('d') || code == KeyCode::Char('D') {
            self.heli.turn_right();
        } else if code == KeyCode::Up || code == KeyCode::Char('w') || code == KeyCode::Char('W') {
            fx.thrust = true;
        } else if code == KeyCode::Down || code == KeyCode::Char('s') || code == KeyCode::Char('S') {
            fx.brake = true;
        }
        fx
    }
}

/// Ticks the stick must wait between two heading changes.
pub const STICK_ROTATION_DELAY: i32 = 4;

/// What the caller reads off a game controller for one tick: whether any controller input
/// has ever arrived, the takeoff/landing button, the left stick pushed past its dead zone
/// (`stick_moved`), tilted left or right past the steering threshold, the right stick
/// pushed forward or pulled back, and whether the gun or missile buttons are held.
#[derive(Debug, Clone, Copy, PartialEq, Eq)]
pub struct PadReadout {
    pub any_input: bool,
    pub lift_button: bool,
    pub stick_moved: bool,
    pub steer_left: bool,
    pub steer_right: bool,
    pub push_forward: bool,
    pub pull_back: bool,
    pub guns: bool,
    pub missile_button: bool,
}

/// The continuous consequences of a controller tick: lift off, settle on the pad, drift
/// with the left stick, thrust along or brake against the heading the helicopter had at the
/// start of the tick (`heading`), fire the cannon or launch a missile along that heading.
#[derive(Debug, Clone, Copy, PartialEq, Eq, Structural)]
pub struct StickEffects {
    pub heading: usize,
    pub took_off: bool,
    pub landed: bool,
    pub drift: bool,
    pub thrust: bool,
    pub brake: bool,
    pub cannon_fired: bool,
    pub missile_fired: bool,
    pub missile_aborted: bool,
}

/// No consequence, with the given heading.
pub open spec fn no_stick_effects(heading: usize) -> StickEffects {
    StickEffects {
        heading,
        took_off: false,
        landed: false,
        drift: false,
        thrust: false,
        brake: false,
        cannon_fired: false,
        missile_fired: false,
        missile_aborted: false,
    }
}

impl Game {
    /// One tick of controller input. Nothing happens before any controller input has
    /// arrived, or while the helicopter is wrecked or respawning. The lift button takes off
    /// from the deck or, in the air, lands by hand over the pad when slow enough (both out
    /// of the lockout), and ends the tick. In the air: the left stick drifts the helicopter
    /// and, when tilted past the threshold and the rotation delay has run out, turns it one
    /// step and restarts the delay; the right stick thrusts or brakes; the gun buttons fire
    /// the cannon when reloaded and fuelled (the barrel does not heat); the missile buttons
    /// launch as the missile keys do.
    #[verifier::rlimit(40)]
    pub fn apply_joystick_input(&mut self, pad: &PadReadout, f: &FlightReadout) -> (fx: StickEffects)
        requires
            old(self).wf(),
        ensures
            final(self).wf(),
            *final(self) == (Game { heli: final(self).heli, ..*old(self) }),
            fx.heading == old(self).heli.dir,
            (!pad.any_input || f.armor_depleted || old(self).heli.respawn_timer > 0) ==>
                final(self).heli == old(self).heli && fx == no_stick_effects(old(self).heli.dir),
            (pad.any_input && !f.armor_depleted && old(self).heli.respawn_timer == 0 && pad.lift_button) ==> {
                let g = *old(self);
                let lift = g.heli.takeoff_cooldown == 0 && g.heli.landed;
                let settle = g.heli.takeoff_cooldown == 0 && !g.heli.landed
                    && g.spec_over_pad(f.hx as int, f.hy as int) && f.slow_enough_to_land;
                &&& lift ==> final(self).heli == (Helicopter {
                    landed: false,
                    takeoff_cooldown: TAKEOFF_LOCKOUT,
                    ..g.heli
                })
                &&& settle ==> final(self).heli == (Helicopter {
                    landed: true,
                    takeoff_cooldown: TAKEOFF_LOCKOUT,
                    ..g.heli
                })
                &&& !lift && !settle ==> final(self).heli == g.heli
                &&& fx == (StickEffects { took_off: lift, landed: settle, ..no_stick_effects(g.heli.dir) })
            },
            (pad.any_input && !f.armor_depleted && old(self).heli.respawn_timer == 0 && !pad.lift_button
                && old(self).heli.landed) ==> final(self).heli == old(self).heli
                && fx == no_stick_effects(old(self).heli.dir),
            (pad.any_input && !f.armor_depleted && old(self).heli.respawn_timer == 0 && !pad.lift_button
                && !old(self).heli.landed) ==> {
                let g = *old(self);
                let turn = g.heli.rotation_cooldown == 0 && (pad.steer_left || pad.steer_right);
                let fire = pad.guns && g.heli.fire_cooldown == 0 && !f.fuel_empty;
                let attempt = pad.missile_button && g.heli.missile_cooldown == 0 && !f.fuel_empty
                    && g.heli.missile_ammo > 0;
                let abort = attempt && g.locked == LockedTarget::NoLock;
                let launch = attempt && g.locked != LockedTarget::NoLock && f.player_missiles < MAX_PLAYER_MISSILES;
                let h = final(self).heli;
                &&& h.dir == if !turn {
                    g.heli.dir as int
                } else if pad.steer_left {
                    spec_turn_left(g.heli.dir as int)
                } else {
                    spec_turn_right(g.heli.dir as int)
                }
                &&& h.rotation_cooldown == if turn { STICK_ROTATION_DELAY } else { g.heli.rotation_cooldown }
                &&& h.fire_cooldown == if fire { CANNON_RELOAD } else { g.heli.fire_cooldown }
                &&& h.missile_ammo == if launch { g.heli.missile_ammo - 1 } else { g.heli.missile_ammo as int }
                &&& h.missile_cooldown == if launch { MISSILE_RELOAD } else { g.heli.missile_cooldown }
                &&& h == (Helicopter {
                    dir: h.dir,
                    rotation_cooldown: h.rotation_cooldown,
                    fire_cooldown: h.fire_cooldown,
                    missile_ammo: h.missile_ammo,
                    missile_cooldown: h.missile_cooldown,
                    ..g.heli
                })
                &&& fx == (StickEffects {
                    drift: pad.stick_moved,
                    thrust: pad.push_forward,
                    brake: !pad.push_forward && pad.pull_back,
                    cannon_fired: fire,
                    missile_fired: launch,
                    missile_aborted: abort,
                    ..no_stick_effects(g.heli.dir)
                })
            },
    {
        let dir = self.heli.dir;
        let mut fx = StickEffects {
            heading: dir,
            took_off: false,
            landed: false,
            drift: false,
            thrust: false,
            brake: false,
            cannon_fired: false,
            missile_fired: false,
            missile_aborted: false,
        };
        if !pad.any_input || f.armor_depleted || self.heli.respawn_timer > 0 {
            return fx;
        }
        if pad.lift_button {
            if self.heli.landed {
                if self.heli.takeoff_cooldown == 0 {
                    self.heli.landed = false;
                    self.heli.takeoff_cooldown = TAKEOFF_LOCKOUT;
                    fx.took_off = true;
                }
            } else if self.heli.takeoff_cooldown == 0 {
                if self.over_pad(f.hx, f.hy) && f.slow_enough_to_land {
                    self.heli.landed = true;
                    self.heli.takeoff_cooldown = TAKEOFF_LOCKOUT;
                    fx.landed = true;
                }
            }
            return fx;
        }
        if self.heli.landed {
            return fx;
        }
        fx.drift = pad.stick_moved;
        if self.heli.rotation_cooldown == 0 {
            if pad.steer_left {
                self.heli.turn_left();
                self.heli.rotation_cooldown = STICK_ROTATION_DELAY;
            } else if pad.steer_right {
                self.heli.turn_right();
                self.heli.rotation_cooldown = STICK_ROTATION_DELAY;
            }
        }
        if pad.push_forward {
            fx.thrust = true;
        } else if pad.pull_back {
            fx.brake = true;
        }
        if pad.guns && self.heli.fire_cooldown == 0 && !f.fuel_empty {
            self.heli.fire_cooldown = CANNON_RELOAD;
            fx.cannon_fired = true;
        }
        if pad.missile_button && self.heli.missile_cooldown == 0 && !f.fuel_empty && self.heli.missile_ammo > 0 {
            if self.locked == LockedTarget::NoLock {
                fx.missile_aborted = true;
                return fx;
            }
            if f.player_missiles < MAX_PLAYER_MISSILES {
                self.heli.missile_ammo -= 1;
                self.heli.missile_cooldown = MISSILE_RELOAD;
                fx.missile_fired = true;
            }
        }
        fx
    }
}

} // verus!
