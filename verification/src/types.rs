use vstd::prelude::*;

verus! {

/// A short-lived blast marker on the world grid; it fades as `age` grows.
#[derive(Debug, Clone, Copy, PartialEq, Eq)]
pub struct Explosion {
    pub x: i32,
    pub y: i32,
    pub age: i32,
}

/// The land mass east of the coastline; while `active` is false the whole map is ocean.
#[derive(Debug, Clone, Copy, PartialEq, Eq)]
pub struct Island {
    pub x: i32,
    pub y: i32,
    pub width: i32,
    pub height: i32,
    pub active: bool,
}

/// Lock-on target: `NoLock`, or exactly one enemy, named by its kind and its index in that kind's list.
#[derive(Debug, Clone, Copy, PartialEq, Eq, Structural)]
pub enum LockedTarget {
    NoLock,
    Boat(usize),
    Factory(usize),
    Tank(usize),
    StaticAA(usize),
}

/// Compass heading in degrees of each of the eight helicopter directions (0 = north, clockwise).
pub open spec fn spec_dir_degrees(dir: int) -> int {
    45 * dir
}

/// Heading in degrees of direction `dir` (0 = N, 1 = NE, ..., 7 = NW).
pub fn dir_degrees(dir: usize) -> (deg: i32)
    requires
        dir < 8,
    ensures
        deg == spec_dir_degrees(dir as int),
{
    45 * (dir as i32)
}

/// Short compass name of direction `dir`.
pub fn dir_name(dir: usize) -> (name: &'static str)
    requires
        dir < 8,
    ensures
        dir == 0 ==> name@ == "N"@,
        dir == 1 ==> name@ == "NE"@,
        dir == 2 ==> name@ == "E"@,
        dir == 3 ==> name@ == "SE"@,
        dir == 4 ==> name@ == "S"@,
        dir == 5 ==> name@ == "SW"@,
        dir == 6 ==> name@ == "W"@,
        dir == 7 ==> name@ == "NW"@,
{
    match dir {
        0 => "N",
        1 => "NE",
        2 => "E",
        3 => "SE",
        4 => "S",
        5 => "SW",
        6 => "W",
        _ => "NW",
    }
}

/// The glyph of the spinning rotor in each of its four animation frames.
pub open spec fn spec_rotor_frame(state: int) -> char {
    let f = state % 4;
    if f == 0 {
        '|'
    } else if f == 1 {
        '/'
    } else if f == 2 {
        '-'
    } else {
        '\\'
    }
}

/// Rotor glyph for animation state `state` (the frames repeat every four ticks).
pub fn rotor_frame(state: usize) -> (c: char)
    ensures
        c == spec_rotor_frame(state as int),
{
    let f = state % 4;
    if f == 0 {
        '|'
    } else if f == 1 {
        '/'
    } else if f == 2 {
        '-'
    } else {
        '\\'
    }
}

} // verus!
