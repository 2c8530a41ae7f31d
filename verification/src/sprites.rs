use vstd::prelude::*;
use crate::types::{rotor_frame, spec_rotor_frame};

verus! {

/// Colours the sprites are drawn in.
#[derive(Debug, Clone, Copy, PartialEq, Eq, Structural)]
pub enum Ink {
    Silver,
    Red,
    Orange,
    DarkRed,
    Black,
    DarkGray,
    Hull,
    Wake,
    DarkCyan,
    Yellow,
    Gray,
    SteelBlue,
    White,
    PaleTurquoise,
    SlateGray,
}

/// One glyph of a sprite, `(dx, dy)` cells from the sprite's anchor.
#[derive(Debug, Clone, Copy, PartialEq, Eq, Structural)]
pub struct Stamp {
    pub dx: i32,
    pub dy: i32,
    pub glyph: char,
    pub ink: Ink,
}

pub open spec fn st(dx: int, dy: int, glyph: char, ink: Ink) -> Stamp {
    Stamp { dx: dx as i32, dy: dy as i32, glyph, ink }
}

/// A solid keel row from `dx = -4` to `4` one row below the anchor.
pub open spec fn keel() -> Seq<Stamp> {
    seq![
        st(-4, 1, '█', Ink::Silver), st(-3, 1, '█', Ink::Silver), st(-2, 1, '█', Ink::Silver),
        st(-1, 1, '█', Ink::Silver), st(0, 1, '█', Ink::Silver), st(1, 1, '█', Ink::Silver),
        st(2, 1, '█', Ink::Silver), st(3, 1, '█', Ink::Silver), st(4, 1, '█', Ink::Silver),
    ]
}

/// A patrol boat: bridge, hull with its red flag block and keel, bow arrow at the end it
/// steams toward (west when `westward`).
pub open spec fn spec_boat_sprite(westward: bool) -> Seq<Stamp> {
    if westward {
        seq![
            st(-1, -1, '_', Ink::Silver), st(0, -1, '╨', Ink::Silver), st(1, -1, '_', Ink::Silver),
            st(-3, 0, '/', Ink::Silver), st(-2, 0, '█', Ink::Silver), st(-1, 0, '█', Ink::Red),
            st(0, 0, '█', Ink::Silver), st(1, 0, '█', Ink::Silver), st(2, 0, '\\', Ink::Silver),
            st(-5, 1, '◄', Ink::Silver),
        ] + keel() + seq![st(5, 1, '═', Ink::Silver)]
    } else {
        seq![
            st(-1, -1, '_', Ink::Silver), st(0, -1, '╨', Ink::Silver), st(1, -1, '_', Ink::Silver),
            st(-2, 0, '/', Ink::Silver), st(-1, 0, '█', Ink::Silver), st(0, 0, '█', Ink::Red),
            st(1, 0, '█', Ink::Silver), st(2, 0, '█', Ink::Silver), st(3, 0, '\\', Ink::Silver),
            st(-5, 1, '═', Ink::Silver),
        ] + keel() + seq![st(5, 1, '▶', Ink::Silver)]
    }
}

fn push_keel(v: &mut Vec<Stamp>)
    ensures
        final(v)@ == old(v)@ + keel(),
{
    let mut i: i32 = -4;
    while i <= 4
        invariant
            -4 <= i <= 5,
            v@.len() == old(v)@.len() + (i + 4),
            forall|k: int| 0 <= k < old(v)@.len() ==> v@[k] == old(v)@[k],
            forall|k: int| 0 <= k < i + 4 ==> #[trigger] v@[old(v)@.len() + k] == st(k - 4, 1, '█', Ink::Silver),
        decreases 5 - i,
    {
        v.push(Stamp { dx: i, dy: 1, glyph: '█', ink: Ink::Silver });
        i += 1;
    }
    assert forall|k: int| 0 <= k < v@.len() implies #[trigger] v@[k] == (old(v)@ + keel())[k] by {
        if k >= old(v)@.len() {
            let j = k - old(v)@.len();
            assert(v@[old(v)@.len() + j] == st(j - 4, 1, '█', Ink::Silver));
        }
    }
    assert(v@ =~= old(v)@ + keel());
}

/// The glyphs of a patrol boat (see `spec_boat_sprite`).
pub fn boat_sprite(westward: bool) -> (s: Vec<Stamp>)
    ensures
        s@ == spec_boat_sprite(westward),
{
    let mut v: Vec<Stamp> = Vec::new();
    v.push(Stamp { dx: -1, dy: -1, glyph: '_', ink: Ink::Silver });
    v.push(Stamp { dx: 0, dy: -1, glyph: '╨', ink: Ink::Silver });
    v.push(Stamp { dx: 1, dy: -1, glyph: '_', ink: Ink::Silver });
    if westward {
        v.push(Stamp { dx: -3, dy: 0, glyph: '/', ink: Ink::Silver });
        v.push(Stamp { dx: -2, dy: 0, glyph: '█', ink: Ink::Silver });
        v.push(Stamp { dx: -1, dy: 0, glyph: '█', ink: Ink::Red });
        v.push(Stamp { dx: 0, dy: 0, glyph: '█', ink: Ink::Silver });
        v.push(Stamp { dx: 1, dy: 0, glyph: '█', ink: Ink::Silver });
        v.push(Stamp { dx: 2, dy: 0, glyph: '\\', ink: Ink::Silver });
        v.push(Stamp { dx: -5, dy: 1, glyph: '◄', ink: Ink::Silver });
    } else {
        v.push(Stamp { dx: -2, dy: 0, glyph: '/', ink: Ink::Silver });
        v.push(Stamp { dx: -1, dy: 0, glyph: '█', ink: Ink::Silver });
        v.push(Stamp { dx: 0, dy: 0, glyph: '█', ink: Ink::Red });
        v.push(Stamp { dx: 1, dy: 0, glyph: '█', ink: Ink::Silver });
        v.push(Stamp { dx: 2, dy: 0, glyph: '█', ink: Ink::Silver });
        v.push(Stamp { dx: 3, dy: 0, glyph: '\\', ink: Ink::Silver });
        v.push(Stamp { dx: -5, dy: 1, glyph: '═', ink: Ink::Silver });
    }
    let ghost head = v@;
    push_keel(&mut v);
    if westward {
        v.push(Stamp { dx: 5, dy: 1, glyph: '═', ink: Ink::Silver });
    } else {
        v.push(Stamp { dx: 5, dy: 1, glyph: '▶', ink: Ink::Silver });
    }
    assert(v@ =~= spec_boat_sprite(westward));
    v
}

/// A stealth speedboat: arrow bow, low hull, and a faint wake trailing east.
pub open spec fn spec_stealth_sprite() -> Seq<Stamp> {
    seq![
        st(0, 0, '◄', Ink::Hull), st(1, 0, '▬', Ink::Hull), st(2, 0, '▬', Ink::Hull),
        st(3, 0, '▐', Ink::Hull), st(4, 0, '·', Ink::Wake), st(5, 0, '·', Ink::Wake),
    ]
}

/// The glyphs of a stealth speedboat (see `spec_stealth_sprite`).
pub fn stealth_sprite() -> (s: Vec<Stamp>)
    ensures
        s@ == spec_stealth_sprite(),
{
    let mut v: Vec<Stamp> = Vec::new();
    v.push(Stamp { dx: 0, dy: 0, glyph: '◄', ink: Ink::Hull });
    v.push(Stamp { dx: 1, dy: 0, glyph: '▬', ink: Ink::Hull });
    v.push(Stamp { dx: 2, dy: 0, glyph: '▬', ink: Ink::Hull });
    v.push(Stamp { dx: 3, dy: 0, glyph: '▐', ink: Ink::Hull });
    v.push(Stamp { dx: 4, dy: 0, glyph: '·', ink: Ink::Wake });
    v.push(Stamp { dx: 5, dy: 0, glyph: '·', ink: Ink::Wake });
    assert(v@ =~= spec_stealth_sprite());
    v
}

/// The flame drawn over a burning wreck, alternating every three ticks between a red
/// flame and an orange burst.
pub open spec fn flame(ticks: int) -> Stamp {
    if (ticks / 3) % 2 == 0 {
        st(0, 0, '▲', Ink::Red)
    } else {
        st(0, 0, '☼', Ink::Orange)
    }
}

/// A tank. Patrolling north-south (`vertical`), its twin guns point the way it moves
/// (north when `backward`), with treads either side; patrolling east-west, treads above and
/// below and the gun pointing west when `backward`. A burning tank is dark red with grey
/// guns and a flame on top.
pub open spec fn spec_tank_sprite(vertical: bool, backward: bool, burning: bool, ticks: int) -> Seq<Stamp> {
    let body = if burning { Ink::DarkRed } else { Ink::Black };
    let tread = Ink::DarkGray;
    let gun = if burning { Ink::DarkGray } else { Ink::Silver };
    let shape = if vertical {
        if backward {
            seq![
                st(-1, -1, '║', gun), st(1, -1, '║', gun),
                st(-2, 0, '▒', tread), st(-1, 0, '(', body), st(0, 0, '▓', body), st(1, 0, ')', body),
                st(2, 0, '▒', tread),
                st(-2, 1, '▒', tread), st(0, 1, '▄', body), st(2, 1, '▒', tread),
            ]
        } else {
            seq![
                st(-2, -1, '▒', tread), st(0, -1, '▀', body), st(2, -1, '▒', tread),
                st(-2, 0, '▒', tread), st(-1, 0, '(', body), st(0, 0, '▓', body), st(1, 0, ')', body),
                st(2, 0, '▒', tread),
                st(-1, 1, '║', gun), st(1, 1, '║', gun),
            ]
        }
    } else {
        seq![
            st(-2, -1, '▄', tread), st(-2, 1, '▀', tread),
            st(-1, -1, '▒', tread), st(-1, 1, '▒', tread),
            st(0, -1, '▒', tread), st(0, 1, '▒', tread),
            st(1, -1, '▒', tread), st(1, 1, '▒', tread),
            st(2, -1, '▄', tread), st(2, 1, '▀', tread),
        ] + if backward {
            seq![
                st(-2, 0, '═', gun), st(-1, 0, '═', gun), st(0, 0, '▓', body), st(1, 0, '▒', body),
                st(2, 0, ']', body),
            ]
        } else {
            seq![
                st(-2, 0, '[', body), st(-1, 0, '▒', body), st(0, 0, '▓', body), st(1, 0, '═', gun),
                st(2, 0, '═', gun),
            ]
        }
    };
    if burning {
        shape.push(flame(ticks))
    } else {
        shape
    }
}

fn flame_stamp(ticks: i32) -> (s: Stamp)
    requires
        ticks >= 0,
    ensures
        s == flame(ticks as int),
{
    if (ticks / 3) % 2 == 0 {
        Stamp { dx: 0, dy: 0, glyph: '▲', ink: Ink::Red }
    } else {
        Stamp { dx: 0, dy: 0, glyph: '☼', ink: Ink::Orange }
    }
}

/// The glyphs of a tank (see `spec_tank_sprite`) at game tick `ticks`.
pub fn tank_sprite(vertical: bool, backward: bool, burning: bool, ticks: i32) -> (s: Vec<Stamp>)
    requires
        ticks >= 0,
    ensures
        s@ == spec_tank_sprite(vertical, backward, burning, ticks as int),
{
    let body = if burning { Ink::DarkRed } else { Ink::Black };
    let tread = Ink::DarkGray;
    let gun = if burning { Ink::DarkGray } else { Ink::Silver };
    let mut v: Vec<Stamp> = Vec::new();
    if vertical {
        if backward {
            v.push(Stamp { dx: -1, dy: -1, glyph: '║', ink: gun });
            v.push(Stamp { dx: 1, dy: -1, glyph: '║', ink: gun });
            v.push(Stamp { dx: -2, dy: 0, glyph: '▒', ink: tread });
            v.push(Stamp { dx: -1, dy: 0, glyph: '(', ink: body });
            v.push(Stamp { dx: 0, dy: 0, glyph: '▓', ink: body });
            v.push(Stamp { dx: 1, dy: 0, glyph: ')', ink: body });
            v.push(Stamp { dx: 2, dy: 0, glyph: '▒', ink: tread });
            v.push(Stamp { dx: -2, dy: 1, glyph: '▒', ink: tread });
            v.push(Stamp { dx: 0, dy: 1, glyph: '▄', ink: body });
            v.push(Stamp { dx: 2, dy: 1, glyph: '▒', ink: tread });
        } else {
            v.push(Stamp { dx: -2, dy: -1, glyph: '▒', ink: tread });
            v.push(Stamp { dx: 0, dy: -1, glyph: '▀', ink: body });
            v.push(Stamp { dx: 2, dy: -1, glyph: '▒', ink: tread });
            v.push(Stamp { dx: -2, dy: 0, glyph: '▒', ink: tread });
            v.push(Stamp { dx: -1, dy: 0, glyph: '(', ink: body });
            v.push(Stamp { dx: 0, dy: 0, glyph: '▓', ink: body });
            v.push(Stamp { dx: 1, dy: 0, glyph: ')', ink: body });
            v.push(Stamp { dx: 2, dy: 0, glyph: '▒', ink: tread });
            v.push(Stamp { dx: -1, dy: 1, glyph: '║', ink: gun });
            v.push(Stamp { dx: 1, dy: 1, glyph: '║', ink: gun });
        }
    } else {
        v.push(Stamp { dx: -2, dy: -1, glyph: '▄', ink: tread });
        v.push(Stamp { dx: -2, dy: 1, glyph: '▀', ink: tread });
        v.push(Stamp { dx: -1, dy: -1, glyph: '▒', ink: tread });
        v.push(Stamp { dx: -1, dy: 1, glyph: '▒', ink: tread });
        v.push(Stamp { dx: 0, dy: -1, glyph: '▒', ink: tread });
        v.push(Stamp { dx: 0, dy: 1, glyph: '▒', ink: tread });
        v.push(Stamp { dx: 1, dy: -1, glyph: '▒', ink: tread });
        v.push(Stamp { dx: 1, dy: 1, glyph: '▒', ink: tread });
        v.push(Stamp { dx: 2, dy: -1, glyph: '▄', ink: tread });
        v.push(Stamp { dx: 2, dy: 1, glyph: '▀', ink: tread });
        if backward {
            v.push(Stamp { dx: -2, dy: 0, glyph: '═', ink: gun });
            v.push(Stamp { dx: -1, dy: 0, glyph: '═', ink: gun });
            v.push(Stamp { dx: 0, dy: 0, glyph: '▓', ink: body });
            v.push(Stamp { dx: 1, dy: 0, glyph: '▒', ink: body });
            v.push(Stamp { dx: 2, dy: 0, glyph: ']', ink: body });
        } else {
            v.push(Stamp { dx: -2, dy: 0, glyph: '[', ink: body });
            v.push(Stamp { dx: -1, dy: 0, glyph: '▒', ink: body });
            v.push(Stamp { dx: 0, dy: 0, glyph: '▓', ink: body });
            v.push(Stamp { dx: 1, dy: 0, glyph: '═', ink: gun });
            v.push(Stamp { dx: 2, dy: 0, glyph: '═', ink: gun });
        }
    }
    if burning {
        v.push(flame_stamp(ticks));
    }
    assert(v@ =~= spec_tank_sprite(vertical, backward, burning, ticks as int));
    v
}

/// A static anti-aircraft gun: twin barrels over a shielded base. Intact, its centre is dark
/// cyan and blinks with a red beacon every ten ticks; burning, it is dark red with grey
/// barrels and a flame on top.
pub open spec fn spec_gun_sprite(burning: bool, ticks: int) -> Seq<Stamp> {
    let gun = if burning { Ink::DarkGray } else { Ink::Silver };
    let base = if burning { Ink::DarkRed } else { Ink::DarkCyan };
    let shield = Ink::DarkGray;
    let top = seq![
        st(-1, -1, '║', gun), st(1, -1, '║', gun),
        st(-1, 0, '▕', shield), st(0, 0, '╬', base), st(1, 0, '▏', shield),
    ];
    let beacon = if !burning && (ticks / 10) % 2 == 0 { seq![st(0, 0, '☼', Ink::Red)] } else { Seq::empty() };
    let bottom = seq![st(-1, 1, '▀', shield), st(0, 1, '█', shield), st(1, 1, '▀', shield)];
    let fire = if burning { seq![flame(ticks)] } else { Seq::empty() };
    top + beacon + bottom + fire
}

/// The glyphs of a static anti-aircraft gun (see `spec_gun_sprite`) at game tick `ticks`.
pub fn gun_sprite(burning: bool, ticks: i32) -> (s: Vec<Stamp>)
    requires
        ticks >= 0,
    ensures
        s@ == spec_gun_sprite(burning, ticks as int),
{
    let gun = if burning { Ink::DarkGray } else { Ink::Silver };
    let base = if burning { Ink::DarkRed } else { Ink::DarkCyan };
    let shield = Ink::DarkGray;
    let mut v: Vec<Stamp> = Vec::new();
    v.push(Stamp { dx: -1, dy: -1, glyph: '║', ink: gun });
    v.push(Stamp { dx: 1, dy: -1, glyph: '║', ink: gun });
    v.push(Stamp { dx: -1, dy: 0, glyph: '▕', ink: shield });
    v.push(Stamp { dx: 0, dy: 0, glyph: '╬', ink: base });
    v.push(Stamp { dx: 1, dy: 0, glyph: '▏', ink: shield });
    if !burning && (ticks / 10) % 2 == 0 {
        v.push(Stamp { dx: 0, dy: 0, glyph: '☼', ink: Ink::Red });
    }
    v.push(Stamp { dx: -1, dy: 1, glyph: '▀', ink: shield });
    v.push(Stamp { dx: 0, dy: 1, glyph: '█', ink: shield });
    v.push(Stamp { dx: 1, dy: 1, glyph: '▀', ink: shield });
    if burning {
        v.push(flame_stamp(ticks));
    }
    assert(v@ =~= spec_gun_sprite(burning, ticks as int));
    v
}

/// The factory's outline, one row of 17 cells per line; a space is left undrawn. The
/// anchor sits at row 2, column 8.
pub open spec fn factory_row(r: int) -> Seq<char> {
    if r == 0 {
        " ░█░    ☼    ░█░ "@
    } else if r == 1 {
        " ║█║  ┌─┴─┐  ║█║ "@
    } else if r == 2 {
        "╓─╨─┴─┘   └─┴─╨─╖"@
    } else if r == 3 {
        "║ █  █  █  █  █ ║"@
    } else {
        "╙─────[▓▓▓]─────╜"@
    }
}

fn factory_row_text(r: usize) -> (s: &'static str)
    requires
        r < 5,
    ensures
        s@ == factory_row(r as int),
        s@.len() == 17,
{
    if r == 0 {
        proof { reveal_strlit(" ░█░    ☼    ░█░ "); }
        " ░█░    ☼    ░█░ "
    } else if r == 1 {
        proof { reveal_strlit(" ║█║  ┌─┴─┐  ║█║ "); }
        " ║█║  ┌─┴─┐  ║█║ "
    } else if r == 2 {
        proof { reveal_strlit("╓─╨─┴─┘   └─┴─╨─╖"); }
        "╓─╨─┴─┘   └─┴─╨─╖"
    } else if r == 3 {
        proof { reveal_strlit("║ █  █  █  █  █ ║"); }
        "║ █  █  █  █  █ ║"
    } else {
        proof { reveal_strlit("╙─────[▓▓▓]─────╜"); }
        "╙─────[▓▓▓]─────╜"
    }
}

/// The colour of an intact factory's glyph: frame lines silver, the chimney-top beacon
/// alternating red and yellow every eight ticks (factory `index` runs four ticks behind the
/// one before it), the vat dark cyan, the corners steel blue, chimney haze dark grey, the
/// rest grey.
pub open spec fn factory_ink(ch: char, ticks: int, index: int) -> Ink {
    if ch == '║' || ch == '┌' || ch == '─' || ch == '┐' || ch == '└' || ch == '┘' || ch == '┴' {
        Ink::Silver
    } else if ch == '☼' {
        if ((ticks + index * 4) / 8) % 2 == 0 { Ink::Red } else { Ink::Yellow }
    } else if ch == '▓' {
        Ink::DarkCyan
    } else if ch == '╓' || ch == '╖' || ch == '╙' || ch == '╜' {
        Ink::SteelBlue
    } else if ch == '░' {
        Ink::DarkGray
    } else {
        Ink::Gray
    }
}

/// The glyph drawn for the factory's cell at row `r`, column `c`: while it is being
/// destroyed, every drawn cell flickers through a red flame, an orange burst and grey
/// rubble, offset by its position.
pub open spec fn factory_cell(r: int, c: int, destroying: bool, ticks: int, index: int) -> Stamp {
    let ch = factory_row(r)[c];
    if destroying {
        let flicker = (ticks + r + c) % 3;
        if flicker == 0 {
            st(c - 8, r - 2, '▲', Ink::Red)
        } else if flicker == 1 {
            st(c - 8, r - 2, '☼', Ink::Orange)
        } else {
            st(c - 8, r - 2, '█', Ink::DarkGray)
        }
    } else {
        st(c - 8, r - 2, ch, factory_ink(ch, ticks, index))
    }
}

/// The stamps of the first `n` cells of the factory, read row by row.
pub open spec fn factory_stamps(n: nat, destroying: bool, ticks: int, index: int) -> Seq<Stamp>
    decreases n,
{
    if n == 0 {
        Seq::empty()
    } else {
        let k = n - 1;
        let rest = factory_stamps((n - 1) as nat, destroying, ticks, index);
        if factory_row(k / 17)[k % 17] == ' ' {
            rest
        } else {
            rest.push(factory_cell(k / 17, k % 17, destroying, ticks, index))
        }
    }
}

/// A factory: every non-blank cell of its 5-by-17 outline, in row order.
pub open spec fn spec_factory_sprite(destroying: bool, ticks: int, index: int) -> Seq<Stamp> {
    factory_stamps(85, destroying, ticks, index)
}

fn factory_ink_of(ch: char, ticks: i32, index: u32) -> (ink: Ink)
    requires
        ticks >= 0,
    ensures
        ink == factory_ink(ch, ticks as int, index as int),
{
    if ch == '║' || ch == '┌' || ch == '─' || ch == '┐' || ch == '└' || ch == '┘' || ch == '┴' {
        Ink::Silver
    } else if ch == '☼' {
        let phase: i64 = ticks as i64 + index as i64 * 4;
        if (phase / 8) % 2 == 0 { Ink::Red } else { Ink::Yellow }
    } else if ch == '▓' {
        Ink::DarkCyan
    } else if ch == '╓' || ch == '╖' || ch == '╙' || ch == '╜' {
        Ink::SteelBlue
    } else if ch == '░' {
        Ink::DarkGray
    } else {
        Ink::Gray
    }
}

/// The glyphs of the factory numbered `index` (see `spec_factory_sprite`) at game tick
/// `ticks`.
pub fn factory_sprite(destroying: bool, ticks: i32, index: u32) -> (s: Vec<Stamp>)
    requires
        ticks >= 0,
    ensures
        s@ == spec_factory_sprite(destroying, ticks as int, index as int),
{
    let mut v: Vec<Stamp> = Vec::new();
    let mut n: usize = 0;
    while n < 85
        invariant
            n <= 85,
            ticks >= 0,
            v@ == factory_stamps(n as nat, destroying, ticks as int, index as int),
        decreases 85 - n,
    {
        let r: usize = n / 17;
        let c: usize = n % 17;
        let row = factory_row_text(r);
        let ch = row.get_char(c);
        if ch != ' ' {
            let dx: i32 = c as i32 - 8;
            let dy: i32 = r as i32 - 2;
            if destroying {
                let flicker: i32 = (ticks % 3 + (r + c) as i32 % 3) % 3;
                assert(flicker == (ticks + r + c) % 3) by (nonlinear_arith)
                    requires
                        ticks >= 0,
                        r + c < 30,
                        flicker == (ticks % 3 + (r + c) % 3) % 3;
                if flicker == 0 {
                    v.push(Stamp { dx, dy, glyph: '▲', ink: Ink::Red });
                } else if flicker == 1 {
                    v.push(Stamp { dx, dy, glyph: '☼', ink: Ink::Orange });
                } else {
                    v.push(Stamp { dx, dy, glyph: '█', ink: Ink::DarkGray });
                }
            } else {
                let ink = factory_ink_of(ch, ticks, index);
                v.push(Stamp { dx, dy, glyph: ch, ink });
            }
        }
        n += 1;
    }
    v
}

/// The helicopter seen from above, one 7-cell row per line for each of the eight headings
/// (0 = north, clockwise); `*` marks a rotor tip and a space is left undrawn. The anchor
/// sits at row 2, column 3.
pub open spec fn heli_row(dir: int, r: int) -> Seq<char> {
    if dir == 0 && r == 0 {
        "   ▲   "@
    } else if dir == 0 && r == 1 {
        " *═#═* "@
    } else if dir == 0 && r == 2 {
        "   #   "@
    } else if dir == 0 && r == 3 {
        "   +   "@
    } else if dir == 0 && r == 4 {
        "       "@
    } else if dir == 1 && r == 0 {
        "    ▲  "@
    } else if dir == 1 && r == 1 {
        "  *═#═*"@
    } else if dir == 1 && r == 2 {
        "   #   "@
    } else if dir == 1 && r == 3 {
        "  +    "@
    } else if dir == 1 && r == 4 {
        "       "@
    } else if dir == 2 && r == 0 {
        "    *  "@
    } else if dir == 2 && r == 1 {
        "  + ║  "@
    } else if dir == 2 && r == 2 {
        "  =##► "@
    } else if dir == 2 && r == 3 {
        "  + ║  "@
    } else if dir == 2 && r == 4 {
        "    *  "@
    } else if dir == 3 && r == 0 {
        "       "@
    } else if dir == 3 && r == 1 {
        "  \\    "@
    } else if dir == 3 && r == 2 {
        "   #   "@
    } else if dir == 3 && r == 3 {
        "  *═#═*"@
    } else if dir == 3 && r == 4 {
        "     ▼ "@
    } else if dir == 4 && r == 0 {
        "       "@
    } else if dir == 4 && r == 1 {
        "   +   "@
    } else if dir == 4 && r == 2 {
        "   #   "@
    } else if dir == 4 && r == 3 {
        " *═#═* "@
    } else if dir == 4 && r == 4 {
        "   ▼   "@
    } else if dir == 5 && r == 0 {
        "     / "@
    } else if dir == 5 && r == 1 {
        "    /  "@
    } else if dir == 5 && r == 2 {
        "   #   "@
    } else if dir == 5 && r == 3 {
        "*═#═*  "@
    } else if dir == 5 && r == 4 {
        " ▼     "@
    } else if dir == 6 && r == 0 {
        "  *    "@
    } else if dir == 6 && r == 1 {
        "  ║ +  "@
    } else if dir == 6 && r == 2 {
        " ◄##=  "@
    } else if dir == 6 && r == 3 {
        "  ║ +  "@
    } else if dir == 6 && r == 4 {
        "  *    "@
    } else if dir == 7 && r == 0 {
        " ▲     "@
    } else if dir == 7 && r == 1 {
        "*═#═*  "@
    } else if dir == 7 && r == 2 {
        "   #   "@
    } else if dir == 7 && r == 3 {
        "    \\  "@
    } else {
        "     \\ "@
    }
}

fn heli_row_text(dir: usize, r: usize) -> (s: &'static str)
    requires
        dir < 8,
        r < 5,
    ensures
        s@ == heli_row(dir as int, r as int),
        s@.len() == 7,
{
    if dir == 0 && r == 0 {
        proof { reveal_strlit("   ▲   "); }
        "   ▲   "
    } else if dir == 0 && r == 1 {
        proof { reveal_strlit(" *═#═* "); }
        " *═#═* "
    } else if dir == 0 && r == 2 {
        proof { reveal_strlit("   #   "); }
        "   #   "
    } else if dir == 0 && r == 3 {
        proof { reveal_strlit("   +   "); }
        "   +   "
    } else if dir == 0 && r == 4 {
        proof { reveal_strlit("       "); }
        "       "
    } else if dir == 1 && r == 0 {
        proof { reveal_strlit("    ▲  "); }
        "    ▲  "
    } else if dir == 1 && r == 1 {
        proof { reveal_strlit("  *═#═*"); }
        "  *═#═*"
    } else if dir == 1 && r == 2 {
        proof { reveal_strlit("   #   "); }
        "   #   "
    } else if dir == 1 && r == 3 {
        proof { reveal_strlit("  +    "); }
        "  +    "
    } else if dir == 1 && r == 4 {
        proof { reveal_strlit("       "); }
        "       "
    } else if dir == 2 && r == 0 {
        proof { reveal_strlit("    *  "); }
        "    *  "
    } else if dir == 2 && r == 1 {
        proof { reveal_strlit("  + ║  "); }
        "  + ║  "
    } else if dir == 2 && r == 2 {
        proof { reveal_strlit("  =##► "); }
        "  =##► "
    } else if dir == 2 && r == 3 {
        proof { reveal_strlit("  + ║  "); }
        "  + ║  "
    } else if dir == 2 && r == 4 {
        proof { reveal_strlit("    *  "); }
        "    *  "
    } else if dir == 3 && r == 0 {
        proof { reveal_strlit("       "); }
        "       "
    } else if dir == 3 && r == 1 {
        proof { reveal_strlit("  \\    "); }
        "  \\    "
    } else if dir == 3 && r == 2 {
        proof { reveal_strlit("   #   "); }
        "   #   "
    } else if dir == 3 && r == 3 {
        proof { reveal_strlit("  *═#═*"); }
        "  *═#═*"
    } else if dir == 3 && r == 4 {
        proof { reveal_strlit("     ▼ "); }
        "     ▼ "
    } else if dir == 4 && r == 0 {
        proof { reveal_strlit("       "); }
        "       "
    } else if dir == 4 && r == 1 {
        proof { reveal_strlit("   +   "); }
        "   +   "
    } else if dir == 4 && r == 2 {
        proof { reveal_strlit("   #   "); }
        "   #   "
    } else if dir == 4 && r == 3 {
        proof { reveal_strlit(" *═#═* "); }
        " *═#═* "
    } else if dir == 4 && r == 4 {
        proof { reveal_strlit("   ▼   "); }
        "   ▼   "
    } else if dir == 5 && r == 0 {
        proof { reveal_strlit("     / "); }
        "     / "
    } else if dir == 5 && r == 1 {
        proof { reveal_strlit("    /  "); }
        "    /  "
    } else if dir == 5 && r == 2 {
        proof { reveal_strlit("   #   "); }
        "   #   "
    } else if dir == 5 && r == 3 {
        proof { reveal_strlit("*═#═*  "); }
        "*═#═*  "
    } else if dir == 5 && r == 4 {
        proof { reveal_strlit(" ▼     "); }
        " ▼     "
    } else if dir == 6 && r == 0 {
        proof { reveal_strlit("  *    "); }
        "  *    "
    } else if dir == 6 && r == 1 {
        proof { reveal_strlit("  ║ +  "); }
        "  ║ +  "
    } else if dir == 6 && r == 2 {
        proof { reveal_strlit(" ◄##=  "); }
        " ◄##=  "
    } else if dir == 6 && r == 3 {
        proof { reveal_strlit("  ║ +  "); }
        "  ║ +  "
    } else if dir == 6 && r == 4 {
        proof { reveal_strlit("  *    "); }
        "  *    "
    } else if dir == 7 && r == 0 {
        proof { reveal_strlit(" ▲     "); }
        " ▲     "
    } else if dir == 7 && r == 1 {
        proof { reveal_strlit("*═#═*  "); }
        "*═#═*  "
    } else if dir == 7 && r == 2 {
        proof { reveal_strlit("   #   "); }
        "   #   "
    } else if dir == 7 && r == 3 {
        proof { reveal_strlit("    \\  "); }
        "    \\  "
    } else {
        proof { reveal_strlit("     \\ "); }
        "     \\ "
    }
}

/// The colour of a helicopter glyph other than a rotor tip: arrowheads white, struts pale
/// turquoise, rails and skids silver, armour plates slate grey, anything else white.
pub open spec fn heli_ink(ch: char) -> Ink {
    if ch == '▲' || ch == '▼' || ch == '►' || ch == '◄' {
        Ink::White
    } else if ch == '|' || ch == '/' || ch == '\\' || ch == '│' || ch == '╪' {
        Ink::PaleTurquoise
    } else if ch == '-' || ch == '_' || ch == '¯' || ch == '[' || ch == ']' || ch == '=' || ch == '═'
        || ch == '─' || ch == '║' {
        Ink::Silver
    } else if ch == '█' || ch == '▓' || ch == '▒' || ch == '╟' || ch == '╢' {
        Ink::SlateGray
    } else {
        Ink::White
    }
}

/// The glyph drawn for the helicopter's cell at row `r`, column `c`: a rotor tip shows the
/// rotor frame of animation state `rotor`, in white.
pub open spec fn heli_cell(dir: int, r: int, c: int, rotor: int) -> Stamp {
    let ch = heli_row(dir, r)[c];
    if ch == '*' {
        st(c - 3, r - 2, spec_rotor_frame(rotor), Ink::White)
    } else {
        st(c - 3, r - 2, ch, heli_ink(ch))
    }
}

/// The stamps of the first `n` cells of the helicopter facing `dir`, read row by row.
pub open spec fn heli_stamps(n: nat, dir: int, rotor: int) -> Seq<Stamp>
    decreases n,
{
    if n == 0 {
        Seq::empty()
    } else {
        let k = n - 1;
        let rest = heli_stamps((n - 1) as nat, dir, rotor);
        if heli_row(dir, k / 7)[k % 7] == ' ' {
            rest
        } else {
            rest.push(heli_cell(dir, k / 7, k % 7, rotor))
        }
    }
}

/// The helicopter facing `dir` (taken modulo 8): every non-blank cell of its 5-by-7 picture,
/// in row order.
pub open spec fn spec_heli_sprite(dir: int, rotor: int) -> Seq<Stamp> {
    heli_stamps(35, dir % 8, rotor)
}

fn heli_ink_of(ch: char) -> (ink: Ink)
    ensures
        ink == heli_ink(ch),
{
    if ch == '▲' || ch == '▼' || ch == '►' || ch == '◄' {
        Ink::White
    } else if ch == '|' || ch == '/' || ch == '\\' || ch == '│' || ch == '╪' {
        Ink::PaleTurquoise
    } else if ch == '-' || ch == '_' || ch == '¯' || ch == '[' || ch == ']' || ch == '=' || ch == '═'
        || ch == '─' || ch == '║' {
        Ink::Silver
    } else if ch == '█' || ch == '▓' || ch == '▒' || ch == '╟' || ch == '╢' {
        Ink::SlateGray
    } else {
        Ink::White
    }
}

/// The glyphs of the helicopter facing `dir` with rotor animation state `rotor` (see
/// `spec_heli_sprite`).
pub fn heli_sprite(dir: usize, rotor: usize) -> (s: Vec<Stamp>)
    ensures
        s@ == spec_heli_sprite(dir as int, rotor as int),
{
    let d: usize = dir % 8;
    let blade = rotor_frame(rotor);
    let mut v: Vec<Stamp> = Vec::new();
    let mut n: usize = 0;
    while n < 35
        invariant
            n <= 35,
            d < 8,
            d == dir % 8,
            blade == spec_rotor_frame(rotor as int),
            v@ == heli_stamps(n as nat, d as int, rotor as int),
        decreases 35 - n,
    {
        let r: usize = n / 7;
        let c: usize = n % 7;
        let row = heli_row_text(d, r);
        let ch = row.get_char(c);
        if ch != ' ' {
            let dx: i32 = c as i32 - 3;
            let dy: i32 = r as i32 - 2;
            if ch == '*' {
                v.push(Stamp { dx, dy, glyph: blade, ink: Ink::White });
            } else {
                let ink = heli_ink_of(ch);
                v.push(Stamp { dx, dy, glyph: ch, ink });
            }
        }
        n += 1;
    }
    v
}

/// Whether `c` is one of the four arrowhead glyphs.
pub open spec fn is_arrowhead(c: char) -> bool {
    c == '▲' || c == '▼' || c == '►' || c == '◄'
}

/// The arrowhead a helicopter heading `dir` (0 = north, clockwise) shows: pointing up for
/// north, north-east and north-west, down for south-east, south and south-west, right for
/// east and left for west.
pub open spec fn heading_arrow(dir: int) -> char {
    if dir == 2 {
        '►'
    } else if dir == 6 {
        '◄'
    } else if 3 <= dir <= 5 {
        '▼'
    } else {
        '▲'
    }
}

/// The cell at row `r`, column `c` of the helicopter picture for heading `dir` is drawn
/// the way the helicopter heads: an arrowhead there is the heading's arrowhead, and it lies
/// on the side of the anchor (row 2, column 3) that it points to.
pub open spec fn cell_points_ahead(dir: int, r: int, c: int) -> bool {
    let ch = heli_row(dir, r)[c];
    &&& is_arrowhead(ch) ==> ch == heading_arrow(dir)
    &&& ch == '▲' ==> r < 2
    &&& ch == '▼' ==> r > 2
    &&& ch == '►' ==> c > 3
    &&& ch == '◄' ==> c < 3
}

proof fn lemma_heli_row(dir: int, r: int)
    requires
        0 <= dir < 8,
        0 <= r < 5,
    ensures
        heli_row(dir, r).len() == 7,
        forall|c: int| 0 <= c < 7 ==> cell_points_ahead(dir, r, c),
        r == 2 ==> heli_row(dir, r)[3] == '#',
{
    reveal_strlit("       ");
    reveal_strlit("     / ");
    reveal_strlit("     \\ ");
    reveal_strlit("     ▼ ");
    reveal_strlit("    *  ");
    reveal_strlit("    /  ");
    reveal_strlit("    \\  ");
    reveal_strlit("    ▲  ");
    reveal_strlit("   #   ");
    reveal_strlit("   +   ");
    reveal_strlit("   ▲   ");
    reveal_strlit("   ▼   ");
    reveal_strlit("  *    ");
    reveal_strlit("  *═#═*");
    reveal_strlit("  +    ");
    reveal_strlit("  + ║  ");
    reveal_strlit("  =##► ");
    reveal_strlit("  \\    ");
    reveal_strlit("  ║ +  ");
    reveal_strlit(" *═#═* ");
    reveal_strlit(" ▲     ");
    reveal_strlit(" ▼     ");
    reveal_strlit(" ◄##=  ");
    reveal_strlit("*═#═*  ");
}

/// Stamp `s` is what the picture for heading `dir` draws at cell `k` (row `k / 7`, column
/// `k % 7`), a cell that is not blank.
pub open spec fn drawn_from_cell(s: Stamp, dir: int, rotor: int, k: int) -> bool {
    &&& heli_row(dir, k / 7)[k % 7] != ' '
    &&& s == heli_cell(dir, k / 7, k % 7, rotor)
}

/// Stamp `i` of the first `n` cells' stamps is drawn from one of those cells.
pub open spec fn stamp_from_some_cell(n: nat, dir: int, rotor: int, i: int) -> bool {
    exists|k: int| 0 <= k < n && #[trigger] drawn_from_cell(heli_stamps(n, dir, rotor)[i], dir, rotor, k)
}

proof fn lemma_stamps_from_cells(n: nat, dir: int, rotor: int)
    ensures
        forall|i: int| 0 <= i < heli_stamps(n, dir, rotor).len() ==> #[trigger] stamp_from_some_cell(n, dir, rotor, i),
    decreases n,
{
    if n > 0 {
        let m = (n - 1) as nat;
        lemma_stamps_from_cells(m, dir, rotor);
        let rest = heli_stamps(m, dir, rotor);
        let s = heli_stamps(n, dir, rotor);
        assert forall|i: int| 0 <= i < heli_stamps(n, dir, rotor).len() implies #[trigger] stamp_from_some_cell(n, dir, rotor, i) by {
            let blank = heli_row(dir, m as int / 7)[m as int % 7] == ' ';
            if i < rest.len() {
                assert(s[i] == rest[i]);
                assert(rest[i] == rest[i]);
                assert(stamp_from_some_cell(m, dir, rotor, i));
                let k = choose|k: int| 0 <= k < m && #[trigger] drawn_from_cell(rest[i], dir, rotor, k);
                assert(drawn_from_cell(s[i], dir, rotor, k));
            } else {
                assert(!blank);
                assert(s == rest.push(heli_cell(dir, m as int / 7, m as int % 7, rotor)));
                assert(s[i] == heli_cell(dir, m as int / 7, m as int % 7, rotor));
                assert(drawn_from_cell(s[i], dir, rotor, m as int));
            }
        }
    } else {
        assert(heli_stamps(n, dir, rotor).len() == 0);
    }
}

proof fn lemma_cell_in_stamps(n: nat, dir: int, rotor: int, k: int)
    requires
        0 <= k < n,
        heli_row(dir, k / 7)[k % 7] != ' ',
    ensures
        exists|i: int| 0 <= i < heli_stamps(n, dir, rotor).len()
            && #[trigger] heli_stamps(n, dir, rotor)[i] == heli_cell(dir, k / 7, k % 7, rotor),
    decreases n,
{
    let m = (n - 1) as nat;
    let s = heli_stamps(n, dir, rotor);
    let rest = heli_stamps(m, dir, rotor);
    if k == m {
        assert(s[s.len() - 1] == heli_cell(dir, k / 7, k % 7, rotor));
    } else {
        lemma_cell_in_stamps(m, dir, rotor, k);
        let i = choose|i: int| 0 <= i < rest.len() && #[trigger] rest[i] == heli_cell(dir, k / 7, k % 7, rotor);
        assert(s[i] == rest[i]);
    }
}

/// Law: the helicopter is drawn pointing the way it heads. For every heading (taken
/// modulo 8) and rotor frame, the sprite holds the heading's arrowhead, every arrowhead in
/// it is that one, and it lies on the side of the anchor it points to (above for `▲`,
/// below for `▼`, right for `►`, left for `◄`); the body `#` sits on the anchor.
pub proof fn law_heli_points_ahead(dir: int, rotor: int)
    requires
        dir >= 0,
    ensures
        ({
            let s = spec_heli_sprite(dir, rotor);
            let arrow = heading_arrow(dir % 8);
            &&& forall|i: int| 0 <= i < s.len() && is_arrowhead(#[trigger] s[i].glyph) ==> {
                &&& s[i].glyph == arrow
                &&& s[i].glyph == '▲' ==> s[i].dy < 0
                &&& s[i].glyph == '▼' ==> s[i].dy > 0
                &&& s[i].glyph == '►' ==> s[i].dx > 0
                &&& s[i].glyph == '◄' ==> s[i].dx < 0
            }
            &&& exists|i: int| 0 <= i < s.len() && #[trigger] s[i].glyph == arrow
            &&& exists|i: int| 0 <= i < s.len() && #[trigger] s[i] == st(0, 0, '#', Ink::White)
        }),
{
    let d = dir % 8;
    let s = spec_heli_sprite(dir, rotor);
    let arrow = heading_arrow(d);
    lemma_stamps_from_cells(35, d, rotor);
    assert forall|i: int| 0 <= i < s.len() && is_arrowhead(#[trigger] s[i].glyph) implies {
        &&& s[i].glyph == arrow
        &&& s[i].glyph == '▲' ==> s[i].dy < 0
        &&& s[i].glyph == '▼' ==> s[i].dy > 0
        &&& s[i].glyph == '►' ==> s[i].dx > 0
        &&& s[i].glyph == '◄' ==> s[i].dx < 0
    } by {
        assert(stamp_from_some_cell(35, d, rotor, i));
        let k = choose|k: int| 0 <= k < 35 && #[trigger] drawn_from_cell(s[i], d, rotor, k);
        let r = k / 7;
        let c = k % 7;
        lemma_heli_row(d, r);
        assert(cell_points_ahead(d, r, c));
        let ch = heli_row(d, r)[c];
        if ch == '*' {
            let f = spec_rotor_frame(rotor);
            assert(!is_arrowhead(f));
        }
    }
    let (ar, ac) = if d == 0 {
        (0int, 3int)
    } else if d == 1 {
        (0, 4)
    } else if d == 2 {
        (2, 5)
    } else if d == 3 {
        (4, 5)
    } else if d == 4 {
        (4, 3)
    } else if d == 5 {
        (4, 1)
    } else if d == 6 {
        (2, 1)
    } else {
        (0, 1)
    };
    let ka = ar * 7 + ac;
    assert(ka / 7 == ar && ka % 7 == ac);
    lemma_heli_row(d, ar);
    reveal_strlit("   ▲   ");
    reveal_strlit("    ▲  ");
    reveal_strlit("  =##► ");
    reveal_strlit("     ▼ ");
    reveal_strlit("   ▼   ");
    reveal_strlit(" ▼     ");
    reveal_strlit(" ◄##=  ");
    reveal_strlit(" ▲     ");
    assert(heli_row(d, ar)[ac] == arrow);
    lemma_cell_in_stamps(35, d, rotor, ka);
    let ia = choose|i: int| 0 <= i < s.len() && #[trigger] s[i] == heli_cell(d, ka / 7, ka % 7, rotor);
    assert(s[ia].glyph == arrow);
    let kb = 17int;
    assert(kb / 7 == 2 && kb % 7 == 3);
    lemma_heli_row(d, 2);
    lemma_cell_in_stamps(35, d, rotor, kb);
    let ib = choose|i: int| 0 <= i < s.len() && #[trigger] s[i] == heli_cell(d, kb / 7, kb % 7, rotor);
    assert(s[ib] == st(0, 0, '#', Ink::White));
}

} // verus!
