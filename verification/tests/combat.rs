use rungling_bay::game::Game;
use rungling_bay::hull::{fire_ready, reload, Hull, Strike, SINKING_TICKS};
use rungling_bay::pool::{count_active, spawn_slot, Slot};
use rungling_bay::targeting::{nearest, select_target, Contact};
use rungling_bay::types::{Explosion, LockedTarget};

fn c(eligible: bool, d: f64) -> Contact {
    Contact { eligible, range_key: d.to_bits() }
}

#[test]
fn factory_falls_to_twenty_five_rounds() {
    let mut h = Hull::new(25, true);
    for _ in 0..24 {
        assert!(!h.cannon_hit_structure());
    }
    assert_eq!(h.health, 1);
    assert_eq!(h.sinking_timer, 0);
    assert!(h.cannon_hit_structure());
    assert_eq!(h.health, 0);
    assert_eq!(h.sinking_timer, SINKING_TICKS);
}

#[test]
fn factory_falls_to_three_missiles() {
    let mut h = Hull::new(25, true);
    assert!(!h.missile_hit_factory());
    assert_eq!(h.health, 15);
    assert!(!h.missile_hit_factory());
    assert_eq!(h.health, 5);
    assert!(h.missile_hit_factory());
    assert_eq!(h.health, 0);
    assert_eq!(h.sinking_timer, 45);
}

#[test]
fn boat_sinks_on_ninth_round() {
    let mut h = Hull::new(9, true);
    for _ in 0..8 {
        assert_eq!(h.cannon_hit_boat(), Strike::Damaged);
    }
    assert_eq!(h.cannon_hit_boat(), Strike::Sunk);
    assert!(!h.active);
    assert_eq!(h.sinking_timer, 0);
}

#[test]
fn burning_boat_deflects_rounds() {
    let mut h = Hull::new(9, true);
    assert!(h.missile_hit_boat());
    assert_eq!((h.health, h.sinking_timer), (0, 45));
    assert_eq!(h.cannon_hit_boat(), Strike::Deflected);
    assert!(!h.missile_hit_boat());
    assert_eq!((h.health, h.sinking_timer), (0, 45));
}

#[test]
fn critical_hit_on_tank() {
    let mut h = Hull::new(6, true);
    h.missile_hit_critical();
    assert_eq!((h.health, h.sinking_timer, h.active), (0, 45, true));
}

#[test]
fn sinking_takes_forty_five_ticks() {
    let mut h = Hull::new(4, true);
    h.missile_hit_critical();
    let mut sparks = 0;
    for t in 1..=45 {
        let b = h.tick_sinking();
        if b.spark {
            sparks += 1;
        }
        assert_eq!(b.finished, t == 45);
    }
    assert!(!h.active);
    assert_eq!(h.sinking_timer, 0);
    assert_eq!(sparks, 15);
}

#[test]
fn restore_for_new_wave() {
    let mut h = Hull::new(6, true);
    h.cannon_hit_structure();
    h.missile_hit_critical();
    h.restore(false);
    assert_eq!(h, Hull { health: 6, max_health: 6, active: false, sinking_timer: 0 });
}

#[test]
fn weapon_timers() {
    let mut cd = 2;
    assert!(!fire_ready(&mut cd));
    assert_eq!(cd, 1);
    assert!(!fire_ready(&mut cd));
    assert!(fire_ready(&mut cd));
    assert_eq!(cd, 0);
    for _ in 0..200 {
        let t = reload(600, 400);
        assert!((600..1000).contains(&t));
    }
}

#[test]
fn spawn_slots() {
    assert_eq!(spawn_slot(&vec![true, false, false], Some(16)), Slot::Reuse(1));
    assert_eq!(spawn_slot(&vec![true, true], Some(16)), Slot::Append);
    assert_eq!(spawn_slot(&vec![true; 16], Some(16)), Slot::Full);
    assert_eq!(spawn_slot(&vec![true; 30], None), Slot::Append);
    assert_eq!(spawn_slot(&vec![], Some(0)), Slot::Full);
    assert_eq!(count_active(&vec![true, false, true, true]), 3);
}

#[test]
fn nearest_contact_first_wins_ties() {
    let v = vec![c(false, 1.0), c(true, 5.0), c(true, 3.0), c(true, 3.0)];
    assert_eq!(nearest(&v, f64::MAX.to_bits()), Some(2));
    assert_eq!(nearest(&v, 3.0f64.to_bits()), None);
    assert_eq!(nearest(&v, 4.0f64.to_bits()), Some(2));
    assert_eq!(nearest(&vec![], u64::MAX), None);
}

#[test]
fn lock_on_prefers_nearest_across_kinds() {
    let boats = vec![c(true, 50.0)];
    let factories = vec![c(true, 70.0), c(true, 20.0)];
    let tanks = vec![c(true, 20.0)];
    let guns = vec![c(false, 5.0)];
    let bound = f64::MAX.to_bits();
    assert_eq!(select_target(&boats, &factories, &tanks, &guns, bound), LockedTarget::Factory(1));
    assert_eq!(select_target(&boats, &vec![], &tanks, &guns, bound), LockedTarget::Tank(0));
    assert_eq!(select_target(&vec![], &vec![], &vec![], &vec![c(true, 9.0)], bound), LockedTarget::StaticAA(0));
    assert_eq!(select_target(&vec![c(false, 1.0)], &vec![], &vec![], &vec![], bound), LockedTarget::NoLock);
    assert_eq!(select_target(&boats, &vec![], &vec![], &vec![], 45.0f64.to_bits()), LockedTarget::NoLock);
    assert_eq!(select_target(&boats, &vec![], &vec![], &vec![], 55.0f64.to_bits()), LockedTarget::Boat(0));
}

#[test]
fn distance_keys_follow_distance_order() {
    let ds = [0.0f64, 1e-9, 0.5, 1.0, 3.999, 4.0, 44.9, 45.0, 100.0, 1e300, f64::MAX];
    for w in ds.windows(2) {
        assert!(w[0].to_bits() < w[1].to_bits());
    }
}

#[test]
fn explosions_age_and_fade() {
    let mut g = Game::new(80, 24);
    g.push_explosion(3, 4, 0);
    g.push_explosion(5, 6, 13);
    g.update_explosions();
    assert_eq!(g.explosions, vec![Explosion { x: 3, y: 4, age: 1 }, Explosion { x: 5, y: 6, age: 14 }]);
    g.update_explosions();
    assert_eq!(g.explosions, vec![Explosion { x: 3, y: 4, age: 2 }]);
    for _ in 0..13 {
        g.update_explosions();
    }
    assert!(g.explosions.is_empty());
}

#[test]
fn burst_layout() {
    let mut g = Game::new(80, 24);
    g.push_burst(10, 20, 2, 1, 0);
    assert_eq!(g.explosions.len(), 15);
    assert_eq!(g.explosions[0], Explosion { x: 8, y: 19, age: 0 });
    assert_eq!(g.explosions[1], Explosion { x: 8, y: 20, age: 0 });
    assert_eq!(g.explosions[3], Explosion { x: 9, y: 19, age: 0 });
    assert_eq!(g.explosions[14], Explosion { x: 12, y: 21, age: 0 });
    g.push_burst_scattered(0, 0, 1, 1, 4);
    assert_eq!(g.explosions.len(), 24);
    assert!(g.explosions[15..].iter().all(|e| (0..4).contains(&e.age)));
    assert_eq!((g.explosions[23].x, g.explosions[23].y), (1, 1));
}
