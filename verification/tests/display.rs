use rungling_bay::game::Game;
use rungling_bay::hud::{
    ammo_alert, ember, flight_status, gauge, heat_alert, heat_fill, lives_alert, lock_tag, pips, Alert, Ember,
    FlightStatus, LockTag,
};
use rungling_bay::sprites::{
    boat_sprite, factory_sprite, gun_sprite, heli_sprite, stealth_sprite, tank_sprite, Ink, Stamp,
};
use rungling_bay::types::LockedTarget;

fn at(stamps: &[Stamp], dx: i32, dy: i32) -> Vec<(char, Ink)> {
    stamps.iter().filter(|s| s.dx == dx && s.dy == dy).map(|s| (s.glyph, s.ink)).collect()
}

#[test]
fn warning_colours() {
    assert_eq!(ammo_alert(0), Alert::Critical);
    assert_eq!(ammo_alert(2), Alert::Caution);
    assert_eq!(ammo_alert(3), Alert::Nominal);
    assert_eq!(lives_alert(2), Alert::Critical);
    assert_eq!(lives_alert(3), Alert::Caution);
    assert_eq!(lives_alert(5), Alert::Nominal);
    assert_eq!(heat_alert(0, 1), Alert::Critical);
    assert_eq!(heat_alert(16, 0), Alert::Critical);
    assert_eq!(heat_alert(10, 0), Alert::Caution);
    assert_eq!(heat_alert(9, 0), Alert::Nominal);
}

#[test]
fn heat_gauge_cells() {
    assert_eq!(heat_fill(0), 0);
    assert_eq!(heat_fill(7), 3);
    assert_eq!(heat_fill(19), 9);
    assert_eq!(gauge(3), "███░░░░░░░");
    assert_eq!(gauge(0), "░░░░░░░░░░");
    assert_eq!(gauge(12), "████████████");
    assert_eq!(gauge(-2), "░".repeat(12));
}

#[test]
fn pip_rows() {
    assert_eq!(pips(3, 5, "♥", "♡"), "♥♥♥♡♡");
    assert_eq!(pips(0, 4, "▮", "▯"), "▯▯▯▯");
    assert_eq!(pips(9, 4, "▮", "▯"), "▮▮▮▮");
    assert_eq!(pips(-1, 2, "ab", "c"), "cc");
    assert_eq!(pips(2, 0, "x", "y"), "");
}

#[test]
fn status_banner_and_embers() {
    assert_eq!(flight_status(true, true, false), FlightStatus::Ready);
    assert_eq!(flight_status(true, false, true), FlightStatus::Refueling);
    assert_eq!(flight_status(false, false, true), FlightStatus::OutOfFuel);
    assert_eq!(flight_status(false, true, false), FlightStatus::Airborne);
    assert_eq!(ember(0), Ember::Flash);
    assert_eq!(ember(3), Ember::Flash);
    assert_eq!(ember(4), Ember::Glow);
    assert_eq!(ember(8), Ember::Glow);
    assert_eq!(ember(9), Ember::Smoke);
}

#[test]
fn lock_readouts() {
    assert_eq!(lock_tag(LockedTarget::NoLock, None, 0), LockTag::NoLock);
    assert_eq!(lock_tag(LockedTarget::Boat(2), None, 0), LockTag::Boat);
    assert_eq!(lock_tag(LockedTarget::Factory(0), Some(3), 2), LockTag::FactoryDrones(5));
    assert_eq!(lock_tag(LockedTarget::Factory(0), Some(0), 0), LockTag::FactoryShieldsDown);
    assert_eq!(lock_tag(LockedTarget::Factory(1), None, 4), LockTag::Factory);
    assert_eq!(lock_tag(LockedTarget::Tank(0), None, 0), LockTag::Tank);
    assert_eq!(lock_tag(LockedTarget::StaticAA(3), None, 0), LockTag::StaticAA);
}

#[test]
fn warnings_blink() {
    let mut g = Game::new(80, 24);
    g.heli.rotor_state = 1;
    assert!(g.missile_warning_visible(true));
    assert!(!g.missile_warning_visible(false));
    g.heli.rotor_state = 2;
    assert!(!g.missile_warning_visible(true));
    g.stealth_near = true;
    g.ticks = 3;
    assert!(g.stealth_warning_visible());
    g.ticks = 4;
    assert!(!g.stealth_warning_visible());
    g.stealth_near = false;
    g.ticks = 0;
    assert!(!g.stealth_warning_visible());
}

#[test]
fn boat_sprites_point_their_bow() {
    let west = boat_sprite(true);
    assert_eq!(west.len(), 20);
    assert_eq!(at(&west, -5, 1), vec![('◄', Ink::Silver)]);
    assert_eq!(at(&west, 5, 1), vec![('═', Ink::Silver)]);
    assert_eq!(at(&west, -1, 0), vec![('█', Ink::Red)]);
    for dx in -4..=4 {
        assert_eq!(at(&west, dx, 1), vec![('█', Ink::Silver)]);
    }
    let east = boat_sprite(false);
    assert_eq!(east.len(), 20);
    assert_eq!(at(&east, 5, 1), vec![('▶', Ink::Silver)]);
    assert_eq!(at(&east, 0, 0), vec![('█', Ink::Red)]);
    assert_eq!(at(&east, 3, 0), vec![('\\', Ink::Silver)]);
}

#[test]
fn stealth_boat_wake() {
    let s = stealth_sprite();
    let glyphs: String = s.iter().map(|st| st.glyph).collect();
    assert_eq!(glyphs, "◄▬▬▐··");
    assert_eq!(s[4].ink, Ink::Wake);
    assert_eq!(s[0].ink, Ink::Hull);
    assert_eq!(s[5].dx, 5);
}

#[test]
fn tank_sprites() {
    let north = tank_sprite(true, true, false, 0);
    assert_eq!(north.len(), 10);
    assert_eq!(at(&north, -1, -1), vec![('║', Ink::Silver)]);
    assert_eq!(at(&north, 0, 1), vec![('▄', Ink::Black)]);
    let west = tank_sprite(false, true, false, 0);
    assert_eq!(west.len(), 15);
    assert_eq!(at(&west, -2, 0), vec![('═', Ink::Silver)]);
    assert_eq!(at(&west, 2, -1), vec![('▄', Ink::DarkGray)]);
    let east = tank_sprite(false, false, false, 0);
    assert_eq!(at(&east, 2, 0), vec![('═', Ink::Silver)]);
    let burning = tank_sprite(true, false, true, 4);
    assert_eq!(burning.len(), 11);
    assert_eq!(at(&burning, 0, 0), vec![('▓', Ink::DarkRed), ('☼', Ink::Orange)]);
    assert_eq!(at(&burning, -1, 1), vec![('║', Ink::DarkGray)]);
    let burning = tank_sprite(true, false, true, 6);
    assert_eq!(burning.last().map(|s| s.glyph), Some('▲'));
}

#[test]
fn gun_sprite_beacon_and_fire() {
    let lit = gun_sprite(false, 5);
    assert_eq!(lit.len(), 9);
    assert_eq!(at(&lit, 0, 0), vec![('╬', Ink::DarkCyan), ('☼', Ink::Red)]);
    let dark = gun_sprite(false, 15);
    assert_eq!(dark.len(), 8);
    let burning = gun_sprite(true, 0);
    assert_eq!(burning.len(), 9);
    assert_eq!(at(&burning, 0, 0), vec![('╬', Ink::DarkRed), ('▲', Ink::Red)]);
    assert_eq!(at(&burning, 1, -1), vec![('║', Ink::DarkGray)]);
}

#[test]
fn factory_outline_and_colours() {
    let f = factory_sprite(false, 0, 0);
    assert_eq!(f.len(), 56);
    assert_eq!(at(&f, 0, -2), vec![('☼', Ink::Red)]);
    assert_eq!(at(&f, -8, 0), vec![('╓', Ink::SteelBlue)]);
    assert_eq!(at(&f, 0, 2), vec![('▓', Ink::DarkCyan)]);
    assert_eq!(at(&f, -7, -2), vec![('░', Ink::DarkGray)]);
    assert_eq!(at(&f, -6, 1), vec![('█', Ink::Gray)]);
    assert_eq!(at(&f, -1, -1), vec![('─', Ink::Silver)]);
    assert!(at(&f, 0, 0).is_empty());
    // The second factory's beacon runs four ticks behind the first.
    assert_eq!(at(&factory_sprite(false, 4, 1), 0, -2), vec![('☼', Ink::Yellow)]);
    assert_eq!(at(&factory_sprite(false, 8, 0), 0, -2), vec![('☼', Ink::Yellow)]);
    let d = factory_sprite(true, 1, 0);
    assert_eq!(d.len(), 56);
    // cell (row 0, column 1): (1 + 0 + 1) % 3 == 2 -> rubble
    assert_eq!(at(&d, -7, -2), vec![('█', Ink::DarkGray)]);
    // cell (row 0, column 2): (1 + 0 + 2) % 3 == 0 -> flame
    assert_eq!(at(&d, -6, -2), vec![('▲', Ink::Red)]);
    // cell (row 1, column 2): (1 + 1 + 2) % 3 == 1 -> burst
    assert_eq!(at(&d, -6, -1), vec![('☼', Ink::Orange)]);
}

#[test]
fn helicopter_headings() {
    let north = heli_sprite(0, 0);
    assert_eq!(north.len(), 8);
    assert_eq!(at(&north, 0, -2), vec![('▲', Ink::White)]);
    assert_eq!(at(&north, -2, -1), vec![('|', Ink::White)]);
    assert_eq!(at(&north, -1, -1), vec![('═', Ink::Silver)]);
    assert_eq!(at(&north, 0, 1), vec![('+', Ink::White)]);
    let spun = heli_sprite(0, 3);
    assert_eq!(at(&spun, 2, -1), vec![('\\', Ink::White)]);
    let east = heli_sprite(2, 1);
    assert_eq!(at(&east, 2, 0), vec![('►', Ink::White)]);
    assert_eq!(at(&east, 1, -2), vec![('/', Ink::White)]);
    assert_eq!(at(&east, 1, -1), vec![('║', Ink::Silver)]);
    let se = heli_sprite(3, 0);
    assert_eq!(at(&se, -1, -1), vec![('\\', Ink::PaleTurquoise)]);
    // Headings wrap around every eight steps.
    assert_eq!(heli_sprite(9, 2), heli_sprite(1, 2));
    let west = heli_sprite(6, 2);
    assert_eq!(at(&west, -2, 0), vec![('◄', Ink::White)]);
    assert_eq!(at(&west, -1, -2), vec![('-', Ink::White)]);
}
