use vstd::prelude::*;
use crate::game::Game;

verus! {

/// A tank's beat: the cell it starts on, whether it patrols north-south (`vertical`) or
/// east-west, and the two ends of its beat along that axis.
#[derive(Debug, Clone, Copy, PartialEq, Eq)]
pub struct TankRoute {
    pub x: i32,
    pub y: i32,
    pub vertical: bool,
    pub min: i32,
    pub max: i32,
}

/// Hit points a patrol boat deploys with.
pub const BOAT_HEALTH: i32 = 9;

/// Hit points a factory deploys with.
pub const FACTORY_HEALTH: i32 = 25;

/// Hit points a tank deploys with.
pub const TANK_HEALTH: i32 = 6;

/// Hit points a static anti-aircraft gun deploys with.
pub const GUN_HEALTH: i32 = 4;

/// Where a defence drone starts: its cell, the factory it guards (`-1` for the carrier),
/// and its starting angle on its orbit, in sixths of a half turn (`sixths * pi / 3`).
#[derive(Debug, Clone, Copy, PartialEq, Eq)]
pub struct DronePost {
    pub x: i32,
    pub y: i32,
    pub factory_idx: i32,
    pub sixths: i32,
}

/// `v` held between `lo` and `hi`.
pub open spec fn clamp_int(v: int, lo: int, hi: int) -> int {
    if v < lo {
        lo
    } else if v > hi {
        hi
    } else {
        v
    }
}

/// Row of the `i`-th of six anti-aircraft batteries on a world `h` rows high: the middle of
/// the `i`-th sixth of the height, kept two rows clear of the top and bottom edges.
pub open spec fn battery_row(h: int, i: int) -> int {
    clamp_int(h * (2 * i + 1) / 12, 2, h - 3)
}

impl Game {
    /// Rows the three patrol boats deploy on: ten rows above the bottom edge, six rows
    /// below the top, and seven rows above the bottom edge.
    pub fn boat_rows(&self) -> (rows: Vec<i32>)
        requires
            self.wf(),
        ensures
            rows@.len() == 3,
            rows@[0] == self.world_height - 10,
            rows@[1] == 6,
            rows@[2] == self.world_height - 7,
    {
        let h = self.world_height;
        vec![h - 10, 6, h - 7]
    }

    /// The three factory cells (see `factory_sites`).
    pub open spec fn factory_sites_spec(&self) -> Seq<(i32, i32)> {
        seq![
            ((self.world_width * 2 / 3) as i32, (self.world_height / 8) as i32),
            ((self.world_width - 35) as i32, (self.world_height / 2) as i32),
            ((self.world_width - 15) as i32, (self.world_height * 7 / 8) as i32),
        ]
    }

    /// Cells of the three factories: two thirds of the way across near the top, 35 columns
    /// from the east edge in the middle row, and 15 columns from the east edge seven
    /// eighths of the way down.
    pub fn factory_sites(&self) -> (sites: Vec<(i32, i32)>)
        requires
            self.wf(),
        ensures
            sites@ == self.factory_sites_spec(),
    {
        let w = self.world_width;
        let h = self.world_height;
        vec![(w * 2 / 3, h / 8), (w - 35, h / 2), (w - 15, h * 7 / 8)]
    }

    /// Beats of the three tanks on the island's roads: two patrol the north-south road 15
    /// columns from the east edge, one between an eighth and half of the world's height
    /// starting five sixteenths down, the other between half and seven eighths starting
    /// eleven sixteenths down; the third patrols the east-west road through the middle row,
    /// between 15 and 7 columns from the east edge, starting 11 columns from it.
    pub fn tank_routes(&self) -> (routes: Vec<TankRoute>)
        requires
            self.wf(),
        ensures
            routes@ == seq![
                TankRoute {
                    x: (self.world_width - 15) as i32,
                    y: (self.world_height * 5 / 16) as i32,
                    vertical: true,
                    min: (self.world_height / 8) as i32,
                    max: (self.world_height / 2) as i32,
                },
                TankRoute {
                    x: (self.world_width - 15) as i32,
                    y: (self.world_height * 11 / 16) as i32,
                    vertical: true,
                    min: (self.world_height / 2) as i32,
                    max: (self.world_height * 7 / 8) as i32,
                },
                TankRoute {
                    x: (self.world_width - 11) as i32,
                    y: (self.world_height / 2) as i32,
                    vertical: false,
                    min: (self.world_width - 15) as i32,
                    max: (self.world_width - 7) as i32,
                },
            ],
    {
        let w = self.world_width;
        let h = self.world_height;
        vec![
            TankRoute { x: w - 15, y: h * 5 / 16, vertical: true, min: h / 8, max: h / 2 },
            TankRoute { x: w - 15, y: h * 11 / 16, vertical: true, min: h / 2, max: h * 7 / 8 },
            TankRoute { x: w - 11, y: h / 2, vertical: false, min: w - 15, max: w - 7 },
        ]
    }

    /// Ticks before each of the three patrol boats (in `boat_rows` order) fires its first
    /// missile at the carrier: 1500, 2000 and 2500.
    pub fn boat_missile_delays(&self) -> (d: Vec<i32>)
        ensures
            d@ == seq![1500i32, 2000i32, 2500i32],
    {
        let d = vec![1500, 2000, 2500];
        assert(d@ =~= seq![1500i32, 2000i32, 2500i32]);
        d
    }

    /// Ticks before each of the three factories (in `factory_sites` order) first fires its
    /// anti-aircraft gun: 100, 150 and 200.
    pub fn factory_fire_delays(&self) -> (d: Vec<i32>)
        ensures
            d@ == seq![100i32, 150i32, 200i32],
    {
        let d = vec![100, 150, 200];
        assert(d@ =~= seq![100i32, 150i32, 200i32]);
        d
    }

    /// The starting defence drones: two per factory, eight columns east of it at angle 0
    /// and eight columns west at a half turn; then three for the carrier around its
    /// centre, one twelve columns east at angle 0 and two on the centre at a third and
    /// two thirds of a turn.
    pub fn drone_posts(&self) -> (posts: Vec<DronePost>)
        requires
            self.wf(),
        ensures
            posts@.len() == 9,
            forall|i: int| 0 <= i < 3 ==> {
                let (fx, fy) = #[trigger] self.factory_sites_spec()[i];
                &&& posts@[2 * i] == (DronePost { x: (fx + 8) as i32, y: fy, factory_idx: i as i32, sixths: 0 })
                &&& posts@[2 * i + 1] == (DronePost { x: (fx - 8) as i32, y: fy, factory_idx: i as i32, sixths: 3 })
            },
            ({
                let cx = self.carrier.x + self.carrier.width / 2;
                let cy = self.carrier.y + self.carrier.height / 2;
                &&& posts@[6] == (DronePost { x: (cx + 12) as i32, y: cy as i32, factory_idx: -1i32, sixths: 0 })
                &&& posts@[7] == (DronePost { x: cx as i32, y: cy as i32, factory_idx: -1i32, sixths: 2 })
                &&& posts@[8] == (DronePost { x: cx as i32, y: cy as i32, factory_idx: -1i32, sixths: 4 })
            }),
    {
        let sites = self.factory_sites();
        let mut posts: Vec<DronePost> = Vec::new();
        let mut i: usize = 0;
        while i < 3
            invariant
                0 <= i <= 3,
                self.wf(),
                sites@ == self.factory_sites_spec(),
                posts@.len() == 2 * i,
                forall|k: int| 0 <= k < i ==> {
                    let (fx, fy) = #[trigger] self.factory_sites_spec()[k];
                    &&& posts@[2 * k] == (DronePost { x: (fx + 8) as i32, y: fy, factory_idx: k as i32, sixths: 0 })
                    &&& posts@[2 * k + 1] == (DronePost { x: (fx - 8) as i32, y: fy, factory_idx: k as i32, sixths: 3 })
                },
            decreases 3 - i,
        {
            let (fx, fy) = sites[i];
            let ghost before = posts@;
            posts.push(DronePost { x: fx + 8, y: fy, factory_idx: i as i32, sixths: 0 });
            posts.push(DronePost { x: fx - 8, y: fy, factory_idx: i as i32, sixths: 3 });
            assert forall|k: int| 0 <= k < i + 1 implies {
                let (fx, fy) = #[trigger] self.factory_sites_spec()[k];
                &&& posts@[2 * k] == (DronePost { x: (fx + 8) as i32, y: fy, factory_idx: k as i32, sixths: 0 })
                &&& posts@[2 * k + 1] == (DronePost { x: (fx - 8) as i32, y: fy, factory_idx: k as i32, sixths: 3 })
            } by {
                if k < i {
                    assert(posts@[2 * k] == before[2 * k]);
                    assert(posts@[2 * k + 1] == before[2 * k + 1]);
                }
            }
            i += 1;
        }
        let (cx, cy) = self.carrier_center();
        posts.push(DronePost { x: cx + 12, y: cy, factory_idx: -1, sixths: 0 });
        posts.push(DronePost { x: cx, y: cy, factory_idx: -1, sixths: 2 });
        posts.push(DronePost { x: cx, y: cy, factory_idx: -1, sixths: 4 });
        posts
    }

    /// Rows of the six anti-aircraft batteries along the coast (see `battery_row`). The
    /// world must be at least five rows high for the two-row margins to fit.
    pub fn battery_rows(&self) -> (rows: Vec<i32>)
        requires
            self.wf(),
            self.world_height >= 5,
        ensures
            rows@.len() == 6,
            forall|i: int| 0 <= i < 6 ==> rows@[i] == battery_row(self.world_height as int, i),
    {
        let h = self.world_height;
        let mut rows: Vec<i32> = Vec::new();
        let mut i: i32 = 0;
        while i < 6
            invariant
                0 <= i <= 6,
                5 <= h <= 200_000,
                h == self.world_height,
                rows@.len() == i,
                forall|k: int| 0 <= k < i ==> rows@[k] == battery_row(h as int, k),
            decreases 6 - i,
        {
            assert(0 <= h * (2 * i + 1) <= 200_000 * 11) by (nonlinear_arith)
                requires
                    5 <= h <= 200_000,
                    0 <= i < 6;
            let mid = h * (2 * i + 1) / 12;
            let row = if mid < 2 { 2 } else if mid > h - 3 { h - 3 } else { mid };
            rows.push(row);
            i += 1;
        }
        rows
    }
}

} // verus!
