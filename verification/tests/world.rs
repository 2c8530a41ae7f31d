use rungling_bay::battle::WaveOrders;
use rungling_bay::game::Game;
use rungling_bay::layout::TankRoute;
use rungling_bay::sound::{sound_for_name, AudioThrottle, Lcg, SoundType};
use rungling_bay::terrain::{Look, Shade};
use rungling_bay::types::{dir_degrees, dir_name, rotor_frame};

/// The camera rule computed in floating point with percentage margins.
fn reference_camera(g: &Game, hx: i32, hy: i32) -> (i32, i32) {
    let (mut cam_x, mut cam_y) = (g.cam_x, g.cam_y);
    let play_h = g.height - 6;
    let margin_w = ((g.width as f64 * 0.30) as i32).max(5);
    let margin_h = ((play_h as f64 * 0.30) as i32).max(3);
    if hx - cam_x < margin_w {
        cam_x = hx - margin_w;
    } else if hx - cam_x > g.width - margin_w {
        cam_x = hx - (g.width - margin_w);
    }
    if hy - cam_y < margin_h {
        cam_y = hy - margin_h;
    } else if hy - cam_y > play_h - margin_h {
        cam_y = hy - (play_h - margin_h);
    }
    cam_x = cam_x.max(0);
    cam_x = if g.world_width > g.width { cam_x.min(g.world_width - g.width) } else { 0 };
    cam_y = cam_y.max(0);
    cam_y = if g.world_height > play_h { cam_y.min(g.world_height - play_h) } else { 0 };
    (cam_x, cam_y)
}

#[test]
fn camera_matches_reference_rule() {
    for (w, h) in [(0, 0), (3, 4), (10, 12), (80, 24), (81, 25), (133, 47), (200, 60), (65535, 65535)] {
        let mut g = Game::new(w, h);
        let mut state: u32 = 7;
        for _ in 0..400 {
            state = state.wrapping_mul(1103515245).wrapping_add(12345);
            let hx = (state >> 8) as i32 % (g.world_width + 20) - 10;
            state = state.wrapping_mul(1103515245).wrapping_add(12345);
            let hy = (state >> 8) as i32 % (g.world_height + 20) - 10;
            let expected = reference_camera(&g, hx, hy);
            g.update_camera(hx, hy);
            assert_eq!((g.cam_x, g.cam_y), expected, "w={w} h={h} hx={hx} hy={hy}");
        }
    }
}

#[test]
fn margins_from_floating_point_agree_with_tenths() {
    for v in 0..=70000i32 {
        assert_eq!((v as f64 * 0.30) as i32, 3 * v / 10);
    }
}

#[test]
fn camera_centres_on_pad() {
    let mut g = Game::new(80, 24);
    g.cam_x = 50;
    g.cam_y = 10;
    g.center_camera_on_pad(100, 30);
    assert_eq!((g.cam_x, g.cam_y), (60, 18));
    g.center_camera_on_pad(0, 0);
    assert_eq!((g.cam_x, g.cam_y), (0, 0));
}

#[test]
fn camera_follows_right_edge() {
    let mut g = Game::new(80, 24);
    g.update_camera(70, 12);
    // margin 24 columns: the helicopter at 70 sits 56 from the left edge, past 80 - 24
    assert_eq!(g.cam_x, 70 - (80 - 24));
    g.clamp_camera();
    assert_eq!(g.cam_x, 14);
}

#[test]
fn map_shades() {
    let g = Game::new(80, 24);
    // deck cell and a cut corner
    assert_eq!(g.map_shade(20, 10, false, false), Shade::Deck);
    assert_eq!(g.map_shade(16, 9, false, false), Shade::Ocean);
    assert_eq!(g.map_shade(144, 10, true, false), Shade::Road);
    assert_eq!(g.map_shade(144, 10, true, true), Shade::Sand);
    assert_eq!(g.map_shade(100, 10, true, false), Shade::Grass);
    // (9x + 13y) % 23 == 0 at (0, 0)
    assert_eq!(g.map_shade(0, 0, false, false), Shade::Wave);
    assert_eq!(g.map_shade(1, 0, false, false), Shade::Ocean);
}

#[test]
fn deck_markings() {
    let g = Game::new(80, 24);
    let (px, py) = g.pad();
    assert_eq!(g.backdrop(px, py, false, false, None), ('H', Look::Marking));
    assert_eq!(g.backdrop(px - 2, py, false, false, None), ('|', Look::Marking));
    assert_eq!(g.backdrop(px, py - 1, false, false, None), ('¯', Look::Marking));
    assert_eq!(g.backdrop(px, py + 1, false, false, None), ('_', Look::Marking));
    // runway stripe along the middle row, gaps every third cell
    assert_eq!(g.backdrop(16 + 13, 12, false, false, None), ('-', Look::Marking));
    assert_eq!(g.backdrop(16 + 12, 12, false, false, None), (' ', Look::Ground));
    assert_eq!(g.backdrop(16 + 2, 12, false, false, None), (' ', Look::Ground));
    // cut corner shows nothing, fire shows on solid deck
    assert_eq!(g.backdrop(16, 9, true, true, Some(true)), (' ', Look::Ground));
    assert_eq!(g.backdrop(20, 10, false, false, Some(true)), ('█', Look::FireRed));
    assert_eq!(g.backdrop(20, 10, false, false, Some(false)), ('░', Look::FireOrange));
}

#[test]
fn island_glyphs() {
    let g = Game::new(80, 24);
    // vertical road centre line at x = 145 on even rows between 6 and 30
    assert_eq!(g.backdrop(145, 10, true, false, None), ('|', Look::RoadLine));
    assert_eq!(g.backdrop(146, 18, true, false, None), ('-', Look::RoadLine));
    assert_eq!(g.backdrop(0, 0, false, false, None), ('~', Look::Ground));
    // grass: (7x + 11y) % 5 picks ',' '`' or blank
    assert_eq!(g.backdrop(100, 0, true, false, None), (',', Look::Ground));
    assert_eq!(g.backdrop(103, 0, true, false, None), ('`', Look::Ground));
    assert_eq!(g.backdrop(101, 0, true, false, None), (' ', Look::Ground));
    // sand: (17x + 13y) % 4 == 0 gets a dot
    assert_eq!(g.backdrop(100, 0, true, true, None), ('.', Look::Ground));
}

#[test]
fn sound_names() {
    assert_eq!(sound_for_name("warning"), Some(SoundType::Warning));
    assert_eq!(sound_for_name("laser"), Some(SoundType::Laser));
    assert_eq!(sound_for_name("missile"), Some(SoundType::Missile));
    assert_eq!(sound_for_name("explosion"), Some(SoundType::Explosion));
    assert_eq!(sound_for_name("speedboat"), Some(SoundType::Speedboat));
    assert_eq!(sound_for_name("boom"), None);
    assert_eq!(sound_for_name("Laser"), None);
    assert_eq!(sound_for_name(""), None);
}

#[test]
fn sound_parameters() {
    assert_eq!(SoundType::Laser.duration_ms(), 55);
    assert_eq!(SoundType::Explosion.duration_ms(), 800);
    assert_eq!(SoundType::Warning.seed(), 1);
    assert_eq!(SoundType::Speedboat.seed(), 5);
}

#[test]
fn noise_generator_sequence() {
    let mut g = Lcg::new(1);
    assert_eq!(g.next_state(), 1015568748);
    let expected = 1015568748u32.wrapping_mul(1664525).wrapping_add(1013904223);
    assert_eq!(g.next_state(), expected);
    let mut h = Lcg::new(u32::MAX);
    assert_eq!(h.next_state(), u32::MAX.wrapping_mul(1664525).wrapping_add(1013904223));
}

#[test]
fn audio_throttle_blocks_stacking() {
    let mut t = AudioThrottle::new();
    assert!(t.request(SoundType::Laser, 1_000_000_000));
    assert!(!t.request(SoundType::Laser, 1_059_999_999));
    assert!(t.request(SoundType::Explosion, 1_000_000_001));
    assert!(t.request(SoundType::Laser, 1_060_000_000));
    assert!(!t.request(SoundType::Laser, 5));
}

#[test]
fn direction_tables() {
    assert_eq!(dir_degrees(3), 135);
    assert_eq!(dir_name(7), "NW");
    assert_eq!(dir_name(0), "N");
    assert_eq!(rotor_frame(0), '|');
    assert_eq!(rotor_frame(5), '/');
    assert_eq!(rotor_frame(3), '\\');
}

#[test]
fn wave_advance_orders() {
    let mut g = Game::new(80, 24);
    g.lives = 2;
    let o = g.advance_wave(true);
    assert_eq!(o, WaveOrders { tanks_active: true, guns_active: false, heli_recalled: false });
    assert_eq!((g.wave, g.lives), (2, 5));
    g.heli.landed = false;
    let o = g.advance_wave(true);
    assert_eq!(o, WaveOrders { tanks_active: true, guns_active: true, heli_recalled: true });
    assert!(g.heli.returning_to_carrier);
    assert_eq!(g.wave, 3);
}

#[test]
fn carrier_rammed_then_lost() {
    let mut g = Game::new(80, 24);
    g.begin_carrier_destruction();
    assert!(g.carrier_destroying);
    assert_eq!(g.destruction_ticks, 80);
    assert_eq!(g.explosions.len(), 15);
    assert!(g.explosions.iter().all(|e| g.on_carrier(e.x, e.y) && e.age < 3));
    let mut booms = 0;
    let mut ticks = 0;
    while g.carrier_destroying {
        if g.tick_carrier_destruction() {
            booms += 1;
        }
        ticks += 1;
    }
    assert_eq!(ticks, 80);
    assert!(g.game_over);
    // the sound plays at 72, 60, 48, 36, 24, 12 and 0 ticks left
    assert_eq!(booms, 7);
    assert_eq!(g.explosions.len(), 15 + 20);
}

#[test]
fn missile_strikes_carrier() {
    let mut g = Game::new(80, 24);
    assert!(!g.carrier_struck(10, 10));
    assert!(g.explosions.is_empty());
    assert!(g.carrier_struck(30, 12));
    assert_eq!(g.explosions.len(), 15);
    g.carrier_sunk();
    assert!(g.game_over);
    assert_eq!(g.explosions.len(), 60);
    assert_eq!((g.explosions[15].x, g.explosions[15].y), (25, 10));
}

#[test]
fn stealth_schedule_and_alarm() {
    let mut g = Game::new(80, 24);
    g.stealth_spawn_at = 40;
    g.ticks = 39;
    assert!(!g.schedule_stealth(true));
    g.ticks = 40;
    assert!(g.schedule_stealth(true));
    assert_eq!(g.stealth_spawn_at, 0);
    g.ticks = 1500;
    g.wave = 8;
    for _ in 0..50 {
        g.stealth_spawn_at = 0;
        assert!(!g.schedule_stealth(true));
        assert!(g.stealth_spawn_at == 0 || (1525..=1750).contains(&g.stealth_spawn_at));
    }
    g.stealth_spawn_at = 0;
    assert!(!g.schedule_stealth(false));
    assert_eq!(g.stealth_spawn_at, 0);
    g.stealth_near = true;
    g.ticks = 60;
    assert_eq!(g.stealth_alarm(), (true, true));
    g.ticks = 45;
    assert_eq!(g.stealth_alarm(), (false, true));
    g.stealth_near = false;
    assert_eq!(g.stealth_alarm(), (false, false));
}

#[test]
fn reinforcement_timing() {
    let mut g = Game::new(80, 24);
    g.ticks = 800;
    assert!(!g.factory_salvo_due(0));
    g.wave = 4;
    assert!(g.factory_salvo_due(0));
    assert!(!g.factory_salvo_due(1));
    g.ticks = 600;
    assert!(g.factory_salvo_due(1));
    g.ticks = 300;
    assert!(g.carrier_drone_due(2));
    assert!(!g.carrier_drone_due(3));
    g.heli.landed = false;
    assert!(!g.carrier_drone_due(0));
    assert!(g.factory_drone_due(1, 3));
    assert!(!g.factory_drone_due(1, 0));
    assert!(!g.factory_drone_due(2, 3));
    g.ticks = 301;
    assert!(!g.factory_drone_due(0, 3));
}

#[test]
fn clock_advances() {
    let mut g = Game::new(80, 24);
    g.advance_clock();
    g.advance_clock();
    assert_eq!(g.ticks, 2);
}

#[test]
fn deployment_for_80_by_24() {
    let g = Game::new(80, 24);
    assert_eq!((g.world_width, g.world_height), (160, 36));
    assert_eq!(g.boat_rows(), vec![26, 6, 29]);
    assert_eq!(g.factory_sites(), vec![(106, 4), (125, 18), (145, 31)]);
    assert_eq!(
        g.tank_routes(),
        vec![
            TankRoute { x: 145, y: 11, vertical: true, min: 4, max: 18 },
            TankRoute { x: 145, y: 24, vertical: true, min: 18, max: 31 },
            TankRoute { x: 149, y: 18, vertical: false, min: 145, max: 153 },
        ]
    );
    assert_eq!(g.battery_rows(), vec![3, 9, 15, 21, 27, 33]);
}

#[test]
fn battery_rows_keep_clear_of_edges() {
    let g = Game::new(10, 5);
    assert_eq!(g.world_height, 20);
    assert_eq!(g.battery_rows(), vec![2, 5, 8, 11, 15, 17]);
}
