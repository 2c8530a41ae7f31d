use vstd::prelude::*;
use crate::game::{Game, max2, min2};

verus! {

/// Rows at the bottom of the screen taken by the cockpit panel.
pub const HUD_ROWS: i32 = 6;

/// Three tenths of `v`, rounded toward zero, but never below `floor`: the distance the
/// camera keeps between the helicopter and the edge of the view.
pub open spec fn view_margin(v: int, floor: int) -> int {
    if v >= 0 {
        max2(3 * v / 10, floor)
    } else {
        floor
    }
}

/// Half of `v`, rounded toward zero.
pub open spec fn half_toward_zero(v: int) -> int {
    if v >= 0 {
        v / 2
    } else {
        -((-v) / 2)
    }
}

/// A camera offset along one axis held inside the world: never negative, and never past
/// the point where the view's far edge meets the world's far edge; pinned at zero when
/// the world is no larger than the view.
pub open spec fn clamp_axis(c: int, world: int, view: int) -> int {
    let c1 = max2(c, 0);
    if world > view {
        min2(c1, world - view)
    } else {
        0
    }
}

/// The camera offset along one axis after following a helicopter at `h`: if it has come
/// closer than `margin` to the near edge of the view, or closer than `margin` to the far
/// edge, the view shifts just enough to restore the margin; otherwise it stays.
pub open spec fn follow_axis(h: int, cam: int, view: int, margin: int) -> int {
    if h - cam < margin {
        h - margin
    } else if h - cam > view - margin {
        h - (view - margin)
    } else {
        cam
    }
}

fn clamp_axis_exec(c: i64, world: i32, view: i32) -> (r: i32)
    requires
        0 < world <= 200_000,
        -6 <= view <= 65535,
    ensures
        r == clamp_axis(c as int, world as int, view as int),
        0 <= r <= 200_006,
{
    let c1: i64 = if c >= 0 { c } else { 0 };
    if world > view {
        if c1 <= (world - view) as i64 { c1 as i32 } else { world - view }
    } else {
        0
    }
}

fn view_margin_exec(v: i32, floor: i32) -> (m: i32)
    requires
        -6 <= v <= 65535,
        0 <= floor <= 10,
    ensures
        m == view_margin(v as int, floor as int),
        floor <= m <= 20000,
{
    if v >= 0 {
        let t = 3 * v / 10;
        if t >= floor { t } else { floor }
    } else {
        floor
    }
}

impl Game {
    /// Height of the playing field on screen: the terminal height less the cockpit panel.
    pub open spec fn spec_play_height(&self) -> int {
        self.height - HUD_ROWS
    }

    /// Holds the camera inside the world (see `clamp_axis`), horizontally against the
    /// screen width and vertically against the playing-field height.
    pub fn clamp_camera(&mut self)
        requires
            old(self).wf(),
        ensures
            final(self).wf(),
            final(self).cam_x == clamp_axis(
                old(self).cam_x as int,
                old(self).world_width as int,
                old(self).width as int,
            ),
            final(self).cam_y == clamp_axis(
                old(self).cam_y as int,
                old(self).world_height as int,
                old(self).spec_play_height(),
            ),
            *final(self) == (Game { cam_x: final(self).cam_x, cam_y: final(self).cam_y, ..*old(self) }),
    {
        let play_h = self.height - HUD_ROWS;
        self.cam_x = clamp_axis_exec(self.cam_x as i64, self.world_width, self.width);
        self.cam_y = clamp_axis_exec(self.cam_y as i64, self.world_height, play_h);
    }

    /// Scrolls the camera so that the helicopter, at rounded position `(hx, hy)`, keeps a
    /// margin of three tenths of the view (at least 5 columns and 3 rows) from each edge,
    /// then holds the camera inside the world.
    pub fn update_camera(&mut self, hx: i32, hy: i32)
        requires
            old(self).wf(),
        ensures
            final(self).wf(),
            final(self).cam_x == clamp_axis(
                follow_axis(
                    hx as int,
                    old(self).cam_x as int,
                    old(self).width as int,
                    view_margin(old(self).width as int, 5),
                ),
                old(self).world_width as int,
                old(self).width as int,
            ),
            final(self).cam_y == clamp_axis(
                follow_axis(
                    hy as int,
                    old(self).cam_y as int,
                    old(self).spec_play_height(),
                    view_margin(old(self).spec_play_height(), 3),
                ),
                old(self).world_height as int,
                old(self).spec_play_height(),
            ),
            *final(self) == (Game { cam_x: final(self).cam_x, cam_y: final(self).cam_y, ..*old(self) }),
    {
        let play_h = self.height - HUD_ROWS;
        let margin_w = view_margin_exec(self.width, 5);
        let margin_h = view_margin_exec(play_h, 3);
        let (hx, hy) = (hx as i64, hy as i64);
        let (margin_w, margin_h) = (margin_w as i64, margin_h as i64);
        let (width, play_h64) = (self.width as i64, play_h as i64);
        let mut cx = self.cam_x as i64;
        if hx - cx < margin_w {
            cx = hx - margin_w;
        } else if hx - cx > width - margin_w {
            cx = hx - (width - margin_w);
        }
        let mut cy = self.cam_y as i64;
        if hy - cy < margin_h {
            cy = hy - margin_h;
        } else if hy - cy > play_h64 - margin_h {
            cy = hy - (play_h64 - margin_h);
        }
        self.cam_x = clamp_axis_exec(cx, self.world_width, self.width);
        self.cam_y = clamp_axis_exec(cy, self.world_height, play_h);
    }

    /// Centres the view on the landing pad at `(pad_x, pad_y)`, then holds the camera
    /// inside the world.
    pub fn center_camera_on_pad(&mut self, pad_x: i32, pad_y: i32)
        requires
            old(self).wf(),
        ensures
            final(self).wf(),
            final(self).cam_x == clamp_axis(
                pad_x - old(self).width / 2,
                old(self).world_width as int,
                old(self).width as int,
            ),
            final(self).cam_y == clamp_axis(
                pad_y - half_toward_zero(old(self).spec_play_height()),
                old(self).world_height as int,
                old(self).spec_play_height(),
            ),
            0 < final(self).cam_x < old(self).world_width - old(self).width
                ==> pad_x - final(self).cam_x == old(self).width / 2,
            old(self).height >= HUD_ROWS && 0 < final(self).cam_y < old(self).world_height - (old(self).height - HUD_ROWS)
                ==> pad_y - final(self).cam_y == (old(self).height - HUD_ROWS) / 2,
            *final(self) == (Game { cam_x: final(self).cam_x, cam_y: final(self).cam_y, ..*old(self) }),
    {
        let play_h = self.height - HUD_ROWS;
        let half_h = if play_h >= 0 { play_h / 2 } else { -((-play_h) / 2) };
        self.cam_x = clamp_axis_exec(pad_x as i64 - (self.width / 2) as i64, self.world_width, self.width);
        self.cam_y = clamp_axis_exec(pad_y as i64 - half_h as i64, self.world_height, play_h);
    }
}

/// Law: centring the view on a pad at `pad` puts the pad in the middle of a view `view`
/// cells long (at `view / 2` from its near edge) whenever that view fits inside the world;
/// otherwise the view is held against the nearer world edge, and a camera left off both
/// edges always has the pad in the middle.
pub proof fn law_centring_puts_pad_mid_view(pad: int, world: int, view: int)
    requires
        view >= 0,
    ensures
        ({
            let c = clamp_axis(pad - half_toward_zero(view), world, view);
            &&& 0 <= pad - view / 2 <= world - view ==> c == pad - view / 2
            &&& pad - view / 2 < 0 ==> c == 0
            &&& world > view && pad - view / 2 > world - view ==> c == world - view
            &&& 0 < c < world - view ==> pad - c == view / 2
        }),
{
}

/// Law: holding the camera inside the world a second time changes nothing.
pub proof fn law_clamp_is_idempotent(c: int, world: int, view: int)
    ensures
        clamp_axis(clamp_axis(c, world, view), world, view) == clamp_axis(c, world, view),
{
}

/// Law: a clamped camera offset is never negative, never shows past the world's far edge,
/// and is zero when the world is no larger than the view.
pub proof fn law_clamp_stays_in_world(c: int, world: int, view: int)
    ensures
        0 <= clamp_axis(c, world, view),
        world > view ==> clamp_axis(c, world, view) <= world - view,
        world <= view ==> clamp_axis(c, world, view) == 0,
{
}

/// Law: after the camera follows the helicopter, either the camera rests against an edge
/// of the world or the helicopter is at least `margin` away from both edges of the view.
pub proof fn law_follow_keeps_margin(h: int, cam: int, view: int, margin: int, world: int)
    requires
        margin <= view - margin,
    ensures
        ({
            let c = clamp_axis(follow_axis(h, cam, view, margin), world, view);
            ||| c == 0
            ||| c == world - view
            ||| margin <= h - c <= view - margin
        }),
{
}

} // verus!
