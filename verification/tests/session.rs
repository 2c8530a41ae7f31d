use rungling_bay::camera::HUD_ROWS;
use rungling_bay::controls::{FlightReadout, KeyCode, KeyPress, KeyRoute, PadReadout};
use rungling_bay::game::{Game, FULL_LIVES, MAX_HEAT, RESPAWN_TICKS, TAKEOFF_LOCKOUT};
use rungling_bay::types::LockedTarget;

fn key(c: char) -> KeyPress {
    KeyPress { code: KeyCode::Char(c), ctrl: false }
}

fn code(k: KeyCode) -> KeyPress {
    KeyPress { code: k, ctrl: false }
}

fn readout(g: &Game) -> FlightReadout {
    let (px, py) = g.pad();
    FlightReadout {
        hx: px + 20,
        hy: py,
        armor_depleted: false,
        fuel_empty: false,
        slow_enough_to_land: true,
        player_missiles: 0,
    }
}

fn airborne(g: &mut Game) {
    let r = readout(g);
    let fx = g.handle_key_press(&key(' '), &r);
    assert!(fx.took_off);
    g.heli.takeoff_cooldown = 0;
}

#[test]
fn new_game_layout_for_80_by_24() {
    let g = Game::new(80, 24);
    assert_eq!(g.world_width, 160);
    assert_eq!(g.world_height, 36);
    assert_eq!((g.carrier.x, g.carrier.y, g.carrier.width, g.carrier.height), (16, 9, 26, 6));
    assert_eq!(g.pad(), (24, 12));
    assert_eq!(g.carrier_center(), (29, 12));
    assert_eq!(g.cam_x, 0);
    assert_eq!(g.cam_y, 3);
    assert_eq!(g.wave, 1);
    assert_eq!(g.lives, FULL_LIVES);
    assert!(g.heli.landed);
    assert_eq!(g.heli.missile_ammo, 4);
    assert_eq!(g.locked, LockedTarget::NoLock);
    assert!(g.explosions.is_empty());
}

#[test]
fn small_terminal_gets_minimum_world() {
    let g = Game::new(10, 5);
    assert_eq!(g.world_width, 80);
    assert_eq!(g.world_height, 20);
    assert_eq!((g.carrier.x, g.carrier.y), (8, 5));
}

#[test]
fn road_cells() {
    let g = Game::new(80, 24);
    // vertical road: x in [144, 146], y in [4, 31]
    assert!(g.is_road(144, 10));
    assert!(g.is_road(146, 31));
    assert!(!g.is_road(147, 10));
    assert!(!g.is_road(145, 3));
    // horizontal road: y in [17, 19], x in [145, 153]
    assert!(g.is_road(153, 18));
    assert!(!g.is_road(154, 18));
    assert!(!g.is_road(150, 20));
}

#[test]
fn pad_alignment_and_carrier_cells() {
    let g = Game::new(80, 24);
    assert!(g.over_pad(24, 12));
    assert!(g.over_pad(25, 13));
    assert!(!g.over_pad(26, 12));
    assert!(g.on_carrier(16, 9));
    assert!(g.on_carrier(41, 14));
    assert!(!g.on_carrier(42, 14));
    assert!(!g.on_carrier(16, 15));
}

#[test]
fn quit_dialog_escape_then_no_resumes() {
    let mut g = Game::new(80, 24);
    assert_eq!(g.handle_raw_key(&code(KeyCode::Esc)), KeyRoute::Handled);
    assert!(g.quit_confirming);
    assert_eq!(g.handle_raw_key(&key('w')), KeyRoute::Handled);
    assert!(g.quit_confirming);
    assert_eq!(g.handle_raw_key(&key('N')), KeyRoute::Handled);
    assert!(!g.quit_confirming);
    assert_eq!(g.handle_raw_key(&key('w')), KeyRoute::Gameplay);
}

#[test]
fn quit_dialog_confirm_and_ctrl_c() {
    let mut g = Game::new(80, 24);
    let ctrl_c = KeyPress { code: KeyCode::Char('c'), ctrl: true };
    assert_eq!(g.handle_raw_key(&ctrl_c), KeyRoute::Handled);
    assert!(g.quit_confirming);
    assert_eq!(g.handle_raw_key(&ctrl_c), KeyRoute::Quit);
    let mut g = Game::new(80, 24);
    g.handle_raw_key(&code(KeyCode::Esc));
    assert_eq!(g.handle_raw_key(&key('y')), KeyRoute::Quit);
}

#[test]
fn game_over_any_key_quits() {
    let mut g = Game::new(80, 24);
    g.game_over = true;
    assert_eq!(g.handle_raw_key(&key('w')), KeyRoute::Quit);
}

#[test]
fn takeoff_keys_and_lockout() {
    let mut g = Game::new(80, 24);
    let r = readout(&g);
    let fx = g.handle_key_press(&key('a'), &r);
    assert!(!fx.took_off);
    assert!(g.heli.landed);
    let fx = g.handle_key_press(&code(KeyCode::Up), &r);
    assert!(fx.took_off && !fx.thrust);
    assert!(!g.heli.landed);
    assert_eq!(g.heli.takeoff_cooldown, TAKEOFF_LOCKOUT);
}

#[test]
fn cannon_overheats_on_fourth_quick_shot() {
    let mut g = Game::new(80, 24);
    airborne(&mut g);
    let r = readout(&g);
    for shot in 1..=3 {
        let fx = g.handle_key_press(&key(' '), &r);
        assert!(fx.cannon_fired && !fx.overheated);
        assert_eq!(g.heli.cannon_heat, 5 * shot);
        assert_eq!(g.heli.fire_cooldown, 4);
        g.heli.fire_cooldown = 0;
    }
    let fx = g.handle_key_press(&key(' '), &r);
    assert!(fx.cannon_fired && fx.overheated);
    assert_eq!(g.heli.cannon_heat, 0);
    assert_eq!(g.heli.cannon_jammed, 60);
    assert!(g.heli.cannon_heat < MAX_HEAT);
    g.heli.fire_cooldown = 0;
    let fx = g.handle_key_press(&key(' '), &r);
    assert!(!fx.cannon_fired);
}

#[test]
fn cannon_needs_fuel_and_reload() {
    let mut g = Game::new(80, 24);
    airborne(&mut g);
    let mut r = readout(&g);
    r.fuel_empty = true;
    assert!(!g.handle_key_press(&key(' '), &r).cannon_fired);
    r.fuel_empty = false;
    assert!(g.handle_key_press(&key(' '), &r).cannon_fired);
    assert!(!g.handle_key_press(&key(' '), &r).cannon_fired);
    g.heli.tick_weapons();
    assert_eq!(g.heli.fire_cooldown, 3);
    assert_eq!(g.heli.cannon_heat, 4);
}

#[test]
fn missile_needs_lock_and_respects_two_in_flight() {
    let mut g = Game::new(80, 24);
    airborne(&mut g);
    let mut r = readout(&g);
    let fx = g.handle_key_press(&key('f'), &r);
    assert!(fx.missile_aborted && !fx.missile_fired);
    assert_eq!(g.heli.missile_ammo, 4);
    g.locked = LockedTarget::Boat(0);
    let fx = g.handle_key_press(&key('M'), &r);
    assert!(fx.missile_fired);
    assert_eq!(g.heli.missile_ammo, 3);
    assert_eq!(g.heli.missile_cooldown, 12);
    g.heli.missile_cooldown = 0;
    r.player_missiles = 2;
    let fx = g.handle_key_press(&key('f'), &r);
    assert!(!fx.missile_fired && !fx.missile_aborted);
    assert_eq!(g.heli.missile_ammo, 3);
}

#[test]
fn steering_and_throttle_keys() {
    let mut g = Game::new(80, 24);
    airborne(&mut g);
    let r = readout(&g);
    g.handle_key_press(&key('a'), &r);
    assert_eq!(g.heli.dir, 7);
    g.handle_key_press(&code(KeyCode::Right), &r);
    assert_eq!(g.heli.dir, 0);
    g.handle_key_press(&key('D'), &r);
    assert_eq!(g.heli.dir, 1);
    assert!(g.handle_key_press(&key('w'), &r).thrust);
    assert!(g.handle_key_press(&key('s'), &r).brake);
}

#[test]
fn manual_landing_requires_alignment_and_low_speed() {
    let mut g = Game::new(80, 24);
    airborne(&mut g);
    let (px, py) = g.pad();
    let mut r = readout(&g);
    assert!(!g.handle_key_press(&key('l'), &r).landed);
    r.hx = px + 1;
    r.hy = py - 1;
    r.slow_enough_to_land = false;
    assert!(!g.handle_key_press(&key('l'), &r).landed);
    r.slow_enough_to_land = true;
    let fx = g.handle_key_press(&key('L'), &r);
    assert!(fx.landed);
    assert!(g.heli.landed);
    assert_eq!(g.heli.takeoff_cooldown, TAKEOFF_LOCKOUT);
}

#[test]
fn controls_locked_while_wrecked() {
    let mut g = Game::new(80, 24);
    airborne(&mut g);
    let mut r = readout(&g);
    r.armor_depleted = true;
    let fx = g.handle_key_press(&key('a'), &r);
    assert_eq!(g.heli.dir, 0);
    assert!(!fx.cannon_fired && !fx.thrust);
}

#[test]
fn lives_run_out_after_five_losses() {
    let mut g = Game::new(80, 24);
    for remaining in (1..5).rev() {
        assert!(g.kill_heli());
        assert_eq!(g.lives, remaining);
        assert_eq!(g.heli.respawn_timer, RESPAWN_TICKS);
        assert!(!g.game_over);
    }
    assert!(!g.kill_heli());
    assert_eq!(g.lives, 0);
    assert!(g.game_over);
    assert!(!g.kill_heli());
    assert_eq!(g.lives, 0);
}

#[test]
fn respawn_returns_heli_to_pad() {
    let mut g = Game::new(80, 24);
    g.heli.landed = false;
    g.heli.missile_ammo = 1;
    assert!(g.kill_heli());
    let mut ticks = 0;
    while !g.tick_respawn(100, 20) {
        ticks += 1;
        assert!(g.explosions.iter().all(|e| (98..=102).contains(&e.x) && (19..=21).contains(&e.y)));
    }
    assert_eq!(ticks + 1, RESPAWN_TICKS);
    assert!(g.heli.landed);
    assert_eq!(g.heli.missile_ammo, 4);
    assert_eq!(g.heli.takeoff_cooldown, TAKEOFF_LOCKOUT);
    // a spark whenever the countdown reaches a multiple of four: 148, 144, ..., 0
    assert_eq!(g.explosions.len(), 38);
}

#[test]
fn auto_land_only_when_slow_over_pad() {
    let mut g = Game::new(80, 24);
    g.heli.landed = false;
    let (px, py) = g.pad();
    assert!(!g.try_auto_land(px + 5, py, true));
    assert_eq!(g.heli.rotor_state, 1);
    assert!(!g.try_auto_land(px, py, false));
    assert_eq!(g.heli.rotor_state, 2);
    g.heli.returning_to_carrier = true;
    assert!(g.try_auto_land(px, py, true));
    assert!(g.heli.landed && !g.heli.returning_to_carrier);
}

#[test]
fn rearm_tops_up_missiles() {
    let mut g = Game::new(80, 24);
    assert!(!g.heli.rearm());
    g.heli.missile_ammo = 1;
    assert!(g.heli.rearm());
    assert_eq!(g.heli.missile_ammo, 4);
}

#[test]
fn joystick_idle_without_input() {
    let mut g = Game::new(80, 24);
    let pad = PadReadout {
        any_input: false,
        lift_button: true,
        stick_moved: false,
        steer_left: false,
        steer_right: false,
        push_forward: false,
        pull_back: false,
        guns: false,
        missile_button: false,
    };
    let r = readout(&g);
    let fx = g.apply_joystick_input(&pad, &r);
    assert!(!fx.took_off);
    assert!(g.heli.landed);
}

#[test]
fn joystick_lift_steer_and_fire() {
    let mut g = Game::new(80, 24);
    let mut pad = PadReadout {
        any_input: true,
        lift_button: true,
        stick_moved: false,
        steer_left: false,
        steer_right: false,
        push_forward: false,
        pull_back: false,
        guns: false,
        missile_button: false,
    };
    let r = readout(&g);
    assert!(g.apply_joystick_input(&pad, &r).took_off);
    assert!(!g.heli.landed);
    pad.lift_button = false;
    pad.steer_right = true;
    pad.push_forward = true;
    pad.guns = true;
    let fx = g.apply_joystick_input(&pad, &r);
    assert_eq!(fx.heading, 0);
    assert_eq!(g.heli.dir, 1);
    assert_eq!(g.heli.rotation_cooldown, 4);
    assert!(fx.thrust && fx.cannon_fired);
    assert_eq!(g.heli.cannon_heat, 0);
    let fx = g.apply_joystick_input(&pad, &r);
    assert_eq!(g.heli.dir, 1);
    assert!(!fx.cannon_fired);
}

#[test]
fn new_game_camera_against_view_height() {
    let g = Game::new(200, 60);
    let play = 60 - HUD_ROWS;
    assert!(g.cam_y >= 0 && g.cam_y <= g.world_height - play);
}
