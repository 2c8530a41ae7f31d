use vstd::prelude::*;
use crate::game::Game;

verus! {

/// The ground a world cell shows when nothing stands on it.
#[derive(Debug, Clone, Copy, PartialEq, Eq, Structural)]
pub enum Shade {
    /// The carrier's grey deck.
    Deck,
    /// Island road.
    Road,
    /// The sandy strip along the coast.
    Sand,
    /// Island grass.
    Grass,
    /// Open sea with a wave crest.
    Wave,
    /// Open sea.
    Ocean,
}

/// How a background glyph is coloured.
#[derive(Debug, Clone, Copy, PartialEq, Eq, Structural)]
pub enum Look {
    /// The cell's ground colours.
    Ground,
    /// The cell's ground with a yellow glyph (deck markings).
    Marking,
    /// A burning deck cell, red and orange.
    FireRed,
    /// A burning deck cell, orange and yellow.
    FireOrange,
    /// Yellow road markings on grey.
    RoadLine,
    /// Light gravel on grey road.
    RoadGravel,
    /// Plain grey road.
    RoadSurface,
}

/// Remainder of `a` divided by a positive `b`, taking the sign of `a` (as machine
/// integer division does).
pub open spec fn rem_toward_zero(a: int, b: int) -> int {
    if a >= 0 {
        a % b
    } else {
        -((-a) % b)
    }
}

/// Whether `(x, y)` falls in one of the wave-crest cells of the open sea.
pub open spec fn spec_is_wave(x: int, y: int) -> bool {
    (x * 9 + y * 13) % 23 == 0
}

impl Game {
    /// The carrier's deck has its four corners cut away (four cells along the top and
    /// bottom rows at either end); every other cell of its rectangle is solid deck.
    pub open spec fn spec_solid_deck(&self, x: int, y: int) -> bool {
        let cy = y - self.carrier.y;
        let cx = x - self.carrier.x;
        let edge_row = cy == 0 || cy == self.carrier.height - 1;
        &&& self.spec_on_carrier(x, y)
        &&& !(edge_row && cx < 4)
        &&& !(edge_row && cx >= self.carrier.width - 4)
    }

    /// Whether world cell `(x, y)` is solid carrier deck.
    pub fn solid_deck(&self, x: i32, y: i32) -> (b: bool)
        requires
            self.wf(),
        ensures
            b == self.spec_solid_deck(x as int, y as int),
    {
        if !self.on_carrier(x, y) {
            return false;
        }
        let cy = y - self.carrier.y;
        let cx = x - self.carrier.x;
        let edge_row = cy == 0 || cy == self.carrier.height - 1;
        !(edge_row && cx < 4) && !(edge_row && cx >= self.carrier.width - 4)
    }

    /// The ground of world cell `(x, y)`: solid deck first; then, on land (`land`, with
    /// `sand` for the coastal strip), road off the beach, beach, or grass; else the sea,
    /// with a wave crest on a fixed scatter of cells.
    pub open spec fn spec_map_shade(&self, x: int, y: int, land: bool, sand: bool) -> Shade {
        if self.spec_solid_deck(x, y) {
            Shade::Deck
        } else if land {
            if !sand && self.spec_is_road(x, y) {
                Shade::Road
            } else if sand {
                Shade::Sand
            } else {
                Shade::Grass
            }
        } else if spec_is_wave(x, y) {
            Shade::Wave
        } else {
            Shade::Ocean
        }
    }

    /// The ground of world cell `(x, y)` (see `spec_map_shade`).
    pub fn map_shade(&self, x: i32, y: i32, land: bool, sand: bool) -> (s: Shade)
        requires
            self.wf(),
        ensures
            s == self.spec_map_shade(x as int, y as int, land, sand),
    {
        if self.solid_deck(x, y) {
            return Shade::Deck;
        }
        if land {
            if !sand && self.is_road(x, y) {
                return Shade::Road;
            }
            if sand {
                return Shade::Sand;
            }
            return Shade::Grass;
        }
        if (x as i64 * 9 + y as i64 * 13) % 23 == 0 {
            Shade::Wave
        } else {
            Shade::Ocean
        }
    }

    /// The glyph of a solid deck cell at offset `(cx, cy)` from the carrier's corner: the
    /// dashed runway along the middle row, and the landing pad, a 5 x 3 box around the pad
    /// cell marked `H`, with `|` sides, an overline on top and an underline below.
    pub open spec fn spec_deck_glyph(&self, cx: int, cy: int) -> (char, Look) {
        let w = self.carrier.width as int;
        let h = self.carrier.height as int;
        let stripe = cy == h / 2 && cx > 3 && cx < w - 3 && cx % 3 != 0;
        let base: (char, Look) = if stripe { ('-', Look::Marking) } else { (' ', Look::Ground) };
        let px = w / 3;
        let py = h / 2;
        if px - 2 <= cx <= px + 2 && py - 1 <= cy <= py + 1 {
            let g = if cx == px && cy == py {
                'H'
            } else if cx == px - 2 || cx == px + 2 {
                '|'
            } else if cy == py - 1 {
                '¯'
            } else if cy == py + 1 {
                '_'
            } else {
                base.0
            };
            (g, Look::Marking)
        } else {
            base
        }
    }

    /// The glyph of an island cell: road markings every other cell along the middle of
    /// each road, with gravel or bare road elsewhere; dots scattered on the beach; tufts of
    /// grass elsewhere.
    pub open spec fn spec_land_glyph(&self, x: int, y: int, sand: bool) -> (char, Look) {
        let w = self.world_width as int;
        let h = self.world_height as int;
        if !sand && self.spec_is_road(x, y) {
            let vert = x == w - 15;
            let horiz = y == h / 2;
            if (vert && h / 6 <= y <= h * 5 / 6 && y % 2 == 0) || (horiz && w - 15 <= x <= w - 8 && x % 2 == 0) {
                (if vert { '|' } else { '-' }, Look::RoadLine)
            } else if (x * 13 + y * 17) % 6 == 0 {
                ('.', Look::RoadGravel)
            } else {
                (' ', Look::RoadSurface)
            }
        } else if sand {
            (if (x * 17 + y * 13) % 4 == 0 { '.' } else { ' ' }, Look::Ground)
        } else {
            let v = rem_toward_zero(x * 7 + y * 11, 5);
            (if v == 0 { ',' } else if v == 1 { '`' } else { ' ' }, Look::Ground)
        }
    }

    /// The background glyph of world cell `(x, y)`. On solid deck: fire while `fire` holds a
    /// value (true for red, false for orange), else the deck markings; on the deck's cut
    /// corners, blank; on land (`land`, `sand` as for the ground) the island glyphs; in the
    /// sea a `~` on wave-crest cells.
    pub open spec fn spec_backdrop(&self, x: int, y: int, land: bool, sand: bool, fire: Option<bool>) -> (char, Look) {
        if self.spec_on_carrier(x, y) {
            if self.spec_solid_deck(x, y) {
                match fire {
                    Some(true) => ('█', Look::FireRed),
                    Some(false) => ('░', Look::FireOrange),
                    None => self.spec_deck_glyph(x - self.carrier.x, y - self.carrier.y),
                }
            } else {
                (' ', Look::Ground)
            }
        } else if land {
            self.spec_land_glyph(x, y, sand)
        } else if spec_is_wave(x, y) {
            ('~', Look::Ground)
        } else {
            (' ', Look::Ground)
        }
    }

    fn deck_glyph(&self, cx: i32, cy: i32) -> (r: (char, Look))
        requires
            self.wf(),
            -1000 <= cx <= 1000,
            -1000 <= cy <= 1000,
        ensures
            r == self.spec_deck_glyph(cx as int, cy as int),
    {
        let w = self.carrier.width;
        let h = self.carrier.height;
        let mut g = ' ';
        let mut look = Look::Ground;
        if cy == h / 2 && cx > 3 && cx < w - 3 && cx % 3 != 0 {
            g = '-';
            look = Look::Marking;
        }
        let px = w / 3;
        let py = h / 2;
        if cx >= px - 2 && cx <= px + 2 && cy >= py - 1 && cy <= py + 1 {
            look = Look::Marking;
            if cx == px && cy == py {
                g = 'H';
            } else if cx == px - 2 || cx == px + 2 {
                g = '|';
            } else if cy == py - 1 {
                g = '¯';
            } else if cy == py + 1 {
                g = '_';
            }
        }
        (g, look)
    }

    fn road_glyph(&self, x: i32, y: i32) -> (r: (char, Look))
        requires
            self.wf(),
        ensures
            ({
                let w = self.world_width as int;
                let h = self.world_height as int;
                let vert = x == w - 15;
                let horiz = y == h / 2;
                r == if (vert && h / 6 <= y <= h * 5 / 6 && y % 2 == 0) || (horiz && w - 15 <= x <= w - 8 && x % 2 == 0) {
                    (if vert { '|' } else { '-' }, Look::RoadLine)
                } else if (x * 13 + y * 17) % 6 == 0 {
                    ('.', Look::RoadGravel)
                } else {
                    (' ', Look::RoadSurface)
                }
            }),
    {
        let w = self.world_width;
        let h = self.world_height;
        let vert = x == w - 15;
        let horiz = y == h / 2;
        let lo = h / 6;
        let hi = h * 5 / 6;
        if (vert && y >= lo && y <= hi && y % 2 == 0) || (horiz && x >= w - 15 && x <= w - 8 && x % 2 == 0) {
            return (if vert { '|' } else { '-' }, Look::RoadLine);
        }
        let t = x as i64 * 13 + y as i64 * 17;
        if t % 6 == 0 {
            return ('.', Look::RoadGravel);
        }
        (' ', Look::RoadSurface)
    }

    fn land_glyph(&self, x: i32, y: i32, sand: bool) -> (r: (char, Look))
        requires
            self.wf(),
        ensures
            r == self.spec_land_glyph(x as int, y as int, sand),
    {
        if !sand && self.is_road(x, y) {
            return self.road_glyph(x, y);
        }
        if sand {
            return sand_glyph(x, y);
        }
        grass_glyph(x, y)
    }

    /// The background glyph of world cell `(x, y)` (see `spec_backdrop`).
    #[verifier::rlimit(40)]
    pub fn backdrop(&self, x: i32, y: i32, land: bool, sand: bool, fire: Option<bool>) -> (r: (char, Look))
        requires
            self.wf(),
        ensures
            r == self.spec_backdrop(x as int, y as int, land, sand, fire),
    {
        if self.on_carrier(x, y) {
            if !self.solid_deck(x, y) {
                return (' ', Look::Ground);
            }
            match fire {
                Some(true) => ('█', Look::FireRed),
                Some(false) => ('░', Look::FireOrange),
                None => self.deck_glyph(x - self.carrier.x, y - self.carrier.y),
            }
        } else if land {
            self.land_glyph(x, y, sand)
        } else if (x as i64 * 9 + y as i64 * 13) % 23 == 0 {
            ('~', Look::Ground)
        } else {
            (' ', Look::Ground)
        }
    }
}

fn sand_glyph(x: i32, y: i32) -> (r: (char, Look))
    ensures
        r == (if (x * 17 + y * 13) % 4 == 0 { '.' } else { ' ' }, Look::Ground),
{
    let t = x as i64 * 17 + y as i64 * 13;
    let v = t % 4;
    proof {
        let u = t as int;
        assert(v == rem_toward_zero(u, 4));
        if u < 0 {
            assert(((-u) % 4 == 0) == (u % 4 == 0)) by (nonlinear_arith)
                requires
                    u < 0,
            ;
        }
    }
    (if v == 0 { '.' } else { ' ' }, Look::Ground)
}

fn grass_glyph(x: i32, y: i32) -> (r: (char, Look))
    ensures
        ({
            let v = rem_toward_zero(x * 7 + y * 11, 5);
            r == (if v == 0 { ',' } else if v == 1 { '`' } else { ' ' }, Look::Ground)
        }),
{
    let t = x as i64 * 7 + y as i64 * 11;
    let v = t % 5;
    (if v == 0 { ',' } else if v == 1 { '`' } else { ' ' }, Look::Ground)
}

} // verus!
