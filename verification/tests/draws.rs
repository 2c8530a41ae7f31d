use rungling_bay::battle::{all_clear, FACTORY_DRONE_RESERVE, WAVE_DRONE_RESERVE};
use rungling_bay::explosions::scatter_age;
use rungling_bay::game::{Game, TICK_LIMIT, WAVE_LIMIT};
use rungling_bay::heli::respawn_spark;
use rungling_bay::hull::{reload, reload_from_roll};
use rungling_bay::layout::{DronePost, BOAT_HEALTH, FACTORY_HEALTH, GUN_HEALTH, TANK_HEALTH};
use rungling_bay::pool::none_active;
use rungling_bay::terrain::Shade;
use rungling_bay::strike::{bullet_victim, first_hit, Reach, Victim};

fn r(overlaps: bool, active: bool, burning: bool) -> Reach {
    Reach { overlaps, active, burning }
}

#[test]
fn reload_adds_the_drawn_extra() {
    assert_eq!(reload_from_roll(600, 0), 600);
    assert_eq!(reload_from_roll(600, 399), 999);
    assert_eq!(reload_from_roll(30, 57), 87);
    for _ in 0..50 {
        let t = reload(300, 150);
        assert!((300..450).contains(&t));
    }
}

#[test]
fn stealth_chance_scales_with_wave() {
    let mut g = Game::new(80, 24);
    g.ticks = 1500;
    g.wave = 1;
    // Wave 1: a ten percent chance, so a roll of 9 schedules and 10 does not.
    g.schedule_from_rolls(10, 3);
    assert_eq!(g.stealth_spawn_at, 0);
    g.schedule_from_rolls(9, 3);
    assert_eq!(g.stealth_spawn_at, 1500 + 4 * 25);
    // Wave 12: capped at eighty percent.
    g.stealth_spawn_at = 0;
    g.wave = 12;
    g.schedule_from_rolls(80, 0);
    assert_eq!(g.stealth_spawn_at, 0);
    g.schedule_from_rolls(79, 9);
    assert_eq!(g.stealth_spawn_at, 1500 + 10 * 25);
    // A failed roll leaves an existing schedule alone.
    g.schedule_from_rolls(99, 0);
    assert_eq!(g.stealth_spawn_at, 1750);
}

#[test]
fn fires_and_sparks_from_bytes() {
    let g = Game::new(80, 24);
    let (cx, cy) = (g.carrier.x, g.carrier.y);
    let e = g.deck_fire(30, 7, 5, 3);
    assert_eq!((e.x, e.y, e.age), (cx + 4, cy + 1, 2));
    let e = g.deck_fire(255, 255, 255, 2);
    assert_eq!((e.x, e.y, e.age), (cx + 21, cy + 3, 1));
    let s = respawn_spark(50, 20, 0, 0, 0);
    assert_eq!((s.x, s.y, s.age), (48, 19, 0));
    let s = respawn_spark(50, 20, 9, 5, 4);
    assert_eq!((s.x, s.y, s.age), (52, 21, 1));
    assert_eq!(scatter_age(200, 4), 0);
    assert_eq!(scatter_age(203, 5), 3);
}

#[test]
fn factory_drone_reserves() {
    assert_eq!((FACTORY_DRONE_RESERVE, WAVE_DRONE_RESERVE), (8, 5));
    let mut g = Game::new(80, 24);
    g.ticks = 300;
    let mut reserves = 2;
    assert!(g.launch_factory_drone(1, &mut reserves));
    assert_eq!(reserves, 1);
    assert!(!g.launch_factory_drone(2, &mut reserves));
    assert_eq!(reserves, 1);
    assert!(g.launch_factory_drone(0, &mut reserves));
    assert_eq!(reserves, 0);
    assert!(!g.launch_factory_drone(0, &mut reserves));
    assert_eq!(reserves, 0);
    g.ticks = 301;
    let mut reserves = 4;
    assert!(!g.launch_factory_drone(0, &mut reserves));
    assert_eq!(reserves, 4);
}

#[test]
fn first_round_victim_in_list_order() {
    let none: Vec<Reach> = Vec::new();
    let boats = vec![r(false, true, false), r(true, false, false), r(true, true, true)];
    assert_eq!(first_hit(&boats, false), Some(2));
    assert_eq!(first_hit(&boats, true), None);
    assert_eq!(bullet_victim(&boats, &none, &none, &none, &none, &none), Some(Victim::Boat(2)));
    let quiet = vec![r(false, true, false)];
    let factories = vec![r(true, true, true), r(true, true, false)];
    assert_eq!(
        bullet_victim(&quiet, &none, &none, &factories, &none, &none),
        Some(Victim::Factory(1))
    );
    let drones = vec![r(true, true, false)];
    assert_eq!(
        bullet_victim(&quiet, &none, &drones, &factories, &none, &none),
        Some(Victim::Drone(0))
    );
    let stealth = vec![r(false, true, false), r(true, true, false)];
    assert_eq!(
        bullet_victim(&quiet, &stealth, &drones, &factories, &none, &none),
        Some(Victim::StealthBoat(1))
    );
    let tanks = vec![r(true, true, false)];
    let guns = vec![r(true, true, false)];
    assert_eq!(bullet_victim(&none, &none, &none, &none, &tanks, &guns), Some(Victim::Tank(0)));
    assert_eq!(bullet_victim(&none, &none, &none, &none, &none, &guns), Some(Victim::StaticAA(0)));
    let burning_gun = vec![r(true, true, true)];
    assert_eq!(bullet_victim(&quiet, &none, &none, &none, &none, &burning_gun), None);
}

#[test]
fn counters_run_to_the_integer_limits() {
    assert_eq!(TICK_LIMIT, i32::MAX);
    assert_eq!(WAVE_LIMIT, i32::MAX);
    let mut g = Game::new(80, 24);
    g.ticks = i32::MAX - 1;
    g.advance_clock();
    assert_eq!(g.ticks, i32::MAX);
    g.wave = WAVE_LIMIT - 1;
    let orders = g.advance_wave(true);
    assert_eq!(g.wave, WAVE_LIMIT);
    assert!(orders.guns_active);
}

#[test]
fn stealth_chance_at_high_waves() {
    let mut g = Game::new(80, 24);
    g.ticks = 3000;
    g.wave = i32::MAX;
    g.schedule_from_rolls(79, 0);
    assert_eq!(g.stealth_spawn_at, 3025);
    g.stealth_spawn_at = 0;
    g.schedule_from_rolls(80, 0);
    assert_eq!(g.stealth_spawn_at, 0);
    // The last minute tick before the counter's limit still leaves room for the delay.
    g.ticks = 2_147_482_500;
    g.wave = 8;
    for _ in 0..20 {
        g.stealth_spawn_at = 0;
        g.schedule_stealth(true);
        let s = g.stealth_spawn_at;
        assert!(s == 0 || ((s - g.ticks) % 25 == 0 && (25..=250).contains(&(s - g.ticks))));
    }
}

#[test]
fn starting_forces() {
    assert_eq!((BOAT_HEALTH, FACTORY_HEALTH, TANK_HEALTH, GUN_HEALTH), (9, 25, 6, 4));
    let g = Game::new(80, 24);
    assert_eq!(g.boat_missile_delays(), vec![1500, 2000, 2500]);
    assert_eq!(g.factory_fire_delays(), vec![100, 150, 200]);
    let (cx, cy) = g.carrier_center();
    let p = |x, y, factory_idx, sixths| DronePost { x, y, factory_idx, sixths };
    assert_eq!(
        g.drone_posts(),
        vec![
            p(114, 4, 0, 0),
            p(98, 4, 0, 3),
            p(133, 18, 1, 0),
            p(117, 18, 1, 3),
            p(153, 31, 2, 0),
            p(137, 31, 2, 3),
            p(cx + 12, cy, -1, 0),
            p(cx, cy, -1, 2),
            p(cx, cy, -1, 4),
        ]
    );
}

#[test]
fn wave_cleared_only_when_all_gone() {
    let none: Vec<bool> = Vec::new();
    assert!(none_active(&none));
    assert!(none_active(&vec![false, false]));
    assert!(!none_active(&vec![false, true]));
    assert!(all_clear(&vec![false], &vec![false, false], &none, &vec![false]));
    assert!(!all_clear(&vec![false], &vec![false, false], &none, &vec![true]));
    assert!(!all_clear(&vec![true], &none, &none, &none));
}

#[test]
fn far_cells_and_large_indices() {
    let mut g = Game::new(80, 24);
    // Sea cells far outside the world still shade as sea, with crests on the scatter.
    assert_eq!(g.map_shade(23_000_000, 0, false, false), Shade::Wave);
    assert_eq!(g.map_shade(-50_000_000, 1, false, false), Shade::Ocean);
    assert_eq!(g.map_shade(g.carrier.x + 5, g.carrier.y + 2, false, false), Shade::Deck);
    // The camera follows a helicopter far away and stays inside the world.
    g.update_camera(50_000_000, -50_000_000);
    assert_eq!((g.cam_x, g.cam_y), (g.world_width - g.width, 0));
    // Salvo timing for a factory far down the list.
    g.wave = 5;
    g.ticks = 0;
    assert!(g.factory_salvo_due(4_000_000));
    assert!(!g.factory_salvo_due(4_000_001));
    // A burst near the edge of the integer range.
    let before = g.explosions.len();
    g.push_burst(i32::MAX - 2, i32::MIN + 1, 2, 1, 0);
    assert_eq!(g.explosions.len(), before + 15);
    assert_eq!((g.explosions[before].x, g.explosions[before].y), (i32::MAX - 4, i32::MIN));
}
