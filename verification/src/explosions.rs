use vstd::prelude::*;
use vstd::arithmetic::div_mod::lemma_fundamental_div_mod_converse;
use crate::dice::random_byte;
use crate::game::{EXPLOSION_LIFETIME, Game, explosions_fresh};
use crate::types::Explosion;

verus! {

/// An explosion one tick older.
pub open spec fn aged(e: Explosion) -> Explosion {
    Explosion { age: (e.age + 1) as i32, ..e }
}

/// The explosion list one tick later: every marker ages by one tick, in order, and those
/// that reach `EXPLOSION_LIFETIME` are gone.
pub open spec fn after_tick(s: Seq<Explosion>) -> Seq<Explosion>
    decreases s.len(),
{
    if s.len() == 0 {
        Seq::empty()
    } else {
        let rest = after_tick(s.drop_last());
        let e = aged(s.last());
        if e.age < EXPLOSION_LIFETIME {
            rest.push(e)
        } else {
            rest
        }
    }
}

/// The explosion list `n` ticks later.
pub open spec fn after_ticks(s: Seq<Explosion>, n: nat) -> Seq<Explosion>
    decreases n,
{
    if n == 0 {
        s
    } else {
        after_ticks(after_tick(s), (n - 1) as nat)
    }
}

/// A burst reaching `r` cells either side of `c` stays within the range of `i32`.
pub open spec fn burst_fits(c: int, r: int) -> bool {
    &&& 0 <= r
    &&& i32::MIN <= c - r
    &&& c + r <= i32::MAX
}

/// Number of cells in a burst reaching `rx` columns and `ry` rows from its centre.
pub open spec fn burst_size(rx: int, ry: int) -> int {
    (2 * rx + 1) * (2 * ry + 1)
}

/// Column and row of the `k`-th cell of a burst centred on `(cx, cy)`: columns from
/// `cx - rx` to `cx + rx`, and within each column the rows from `cy - ry` to `cy + ry`.
pub open spec fn burst_cell(cx: int, cy: int, rx: int, ry: int, k: int) -> (int, int) {
    (cx - rx + k / (2 * ry + 1), cy - ry + k % (2 * ry + 1))
}

/// All explosions of `s` are at least `a` ticks old.
pub open spec fn all_at_least(s: Seq<Explosion>, a: int) -> bool {
    forall|i: int| 0 <= i < s.len() ==> #[trigger] s[i].age >= a
}

proof fn lemma_after_tick_props(s: Seq<Explosion>, a: int)
    requires
        explosions_fresh(s),
        all_at_least(s, a),
    ensures
        explosions_fresh(after_tick(s)),
        all_at_least(after_tick(s), a + 1),
        after_tick(s).len() <= s.len(),
    decreases s.len(),
{
    if s.len() > 0 {
        let d = s.drop_last();
        assert forall|i: int| 0 <= i < d.len() implies 0 <= #[trigger] d[i].age < EXPLOSION_LIFETIME
            && d[i].age >= a by {
            assert(d[i] == s[i]);
        }
        lemma_after_tick_props(d, a);
        assert(s.last() == s[s.len() - 1]);
    }
}

proof fn lemma_after_ticks_age(s: Seq<Explosion>, a: int, n: nat)
    requires
        explosions_fresh(s),
        all_at_least(s, a),
    ensures
        explosions_fresh(after_ticks(s, n)),
        all_at_least(after_ticks(s, n), a + n),
    decreases n,
{
    if n > 0 {
        lemma_after_tick_props(s, a);
        lemma_after_ticks_age(after_tick(s), a + 1, (n - 1) as nat);
    }
}

/// Law: one tick never adds explosions and keeps every remaining one visible.
pub proof fn law_tick_keeps_fresh(s: Seq<Explosion>)
    requires
        explosions_fresh(s),
    ensures
        explosions_fresh(after_tick(s)),
        after_tick(s).len() <= s.len(),
{
    lemma_after_tick_props(s, 0);
}

/// Law: every visible explosion has faded after `EXPLOSION_LIFETIME` ticks.
pub proof fn law_explosions_fade(s: Seq<Explosion>)
    requires
        explosions_fresh(s),
    ensures
        after_ticks(s, EXPLOSION_LIFETIME as nat).len() == 0,
{
    lemma_after_ticks_age(s, 0, EXPLOSION_LIFETIME as nat);
    let t = after_ticks(s, EXPLOSION_LIFETIME as nat);
    if t.len() > 0 {
        assert(t[0].age >= EXPLOSION_LIFETIME);
        assert(t[0].age < EXPLOSION_LIFETIME);
    }
}

/// The age a scattered burst marker gets from a random byte: the byte modulo `spread`.
pub fn scatter_age(byte: u8, spread: i32) -> (age: i32)
    requires
        spread > 0,
    ensures
        age == byte as int % spread as int,
        0 <= age < spread,
{
    (byte as i32) % spread
}

impl Game {
    /// Ages every explosion by one tick and removes those that have faded, keeping order.
    pub fn update_explosions(&mut self)
        requires
            old(self).wf(),
        ensures
            final(self).wf(),
            final(self).explosions@ == after_tick(old(self).explosions@),
            *final(self) == (Game { explosions: final(self).explosions, ..*old(self) }),
    {
        let ghost start = self.explosions@;
        let mut kept: Vec<Explosion> = Vec::new();
        let n = self.explosions.len();
        let mut i: usize = 0;
        while i < n
            invariant
                n == start.len(),
                self.explosions@ == start,
                explosions_fresh(start),
                0 <= i <= n,
                kept@ == after_tick(start.take(i as int)),
            decreases n - i,
        {
            let e = self.explosions[i];
            assert(start.take(i + 1).drop_last() =~= start.take(i as int));
            assert(start.take(i + 1).last() == start[i as int]);
            let older = Explosion { age: e.age + 1, ..e };
            if older.age < EXPLOSION_LIFETIME {
                kept.push(older);
            }
            i += 1;
        }
        assert(start.take(n as int) =~= start);
        proof {
            lemma_after_tick_props(start, 0);
        }
        self.explosions = kept;
    }

    /// Adds one explosion marker at `(x, y)` of age `age`.
    pub fn push_explosion(&mut self, x: i32, y: i32, age: i32)
        requires
            old(self).wf(),
            0 <= age < EXPLOSION_LIFETIME,
        ensures
            final(self).wf(),
            final(self).explosions@ == old(self).explosions@.push(Explosion { x, y, age }),
            *final(self) == (Game { explosions: final(self).explosions, ..*old(self) }),
    {
        self.explosions.push(Explosion { x, y, age });
    }

    /// Adds a rectangular burst of explosion markers centred on `(cx, cy)`, reaching `rx`
    /// columns and `ry` rows out, column by column; every marker is `age` ticks old.
    pub fn push_burst(&mut self, cx: i32, cy: i32, rx: i32, ry: i32, age: i32)
        requires
            old(self).wf(),
            burst_fits(cx as int, rx as int),
            burst_fits(cy as int, ry as int),
            0 <= age < EXPLOSION_LIFETIME,
        ensures
            final(self).wf(),
            final(self).explosions@.len() == old(self).explosions@.len() + burst_size(rx as int, ry as int),
            forall|i: int| 0 <= i < old(self).explosions@.len() ==> #[trigger] final(self).explosions@[i] == old(self).explosions@[i],
            forall|k: int| 0 <= k < burst_size(rx as int, ry as int) ==> {
                let e = #[trigger] final(self).explosions@[old(self).explosions@.len() + k];
                let cell = burst_cell(cx as int, cy as int, rx as int, ry as int, k);
                e.x == cell.0 && e.y == cell.1 && e.age == age
            },
            *final(self) == (Game { explosions: final(self).explosions, ..*old(self) }),
    {
        self.push_burst_with(cx, cy, rx, ry, age, 0);
    }

    /// Adds a rectangular burst like `push_burst`, but every marker gets its own random
    /// age below `spread`.
    pub fn push_burst_scattered(&mut self, cx: i32, cy: i32, rx: i32, ry: i32, spread: i32)
        requires
            old(self).wf(),
            burst_fits(cx as int, rx as int),
            burst_fits(cy as int, ry as int),
            0 < spread <= EXPLOSION_LIFETIME,
        ensures
            final(self).wf(),
            final(self).explosions@.len() == old(self).explosions@.len() + burst_size(rx as int, ry as int),
            forall|i: int| 0 <= i < old(self).explosions@.len() ==> #[trigger] final(self).explosions@[i] == old(self).explosions@[i],
            forall|k: int| 0 <= k < burst_size(rx as int, ry as int) ==> {
                let e = #[trigger] final(self).explosions@[old(self).explosions@.len() + k];
                let cell = burst_cell(cx as int, cy as int, rx as int, ry as int, k);
                e.x == cell.0 && e.y == cell.1 && 0 <= e.age < spread
            },
            *final(self) == (Game { explosions: final(self).explosions, ..*old(self) }),
    {
        self.push_burst_with(cx, cy, rx, ry, 0, spread);
    }

    /// Shared loop of the two bursts: a fixed `age` when `spread` is zero, else random ages
    /// below `spread`.
    fn push_burst_with(&mut self, cx: i32, cy: i32, rx: i32, ry: i32, age: i32, spread: i32)
        requires
            old(self).wf(),
            burst_fits(cx as int, rx as int),
            burst_fits(cy as int, ry as int),
            0 <= age < EXPLOSION_LIFETIME,
            0 <= spread <= EXPLOSION_LIFETIME,
        ensures
            final(self).wf(),
            final(self).explosions@.len() == old(self).explosions@.len() + burst_size(rx as int, ry as int),
            forall|i: int| 0 <= i < old(self).explosions@.len() ==> #[trigger] final(self).explosions@[i] == old(self).explosions@[i],
            forall|k: int| 0 <= k < burst_size(rx as int, ry as int) ==> {
                let e = #[trigger] final(self).explosions@[old(self).explosions@.len() + k];
                let cell = burst_cell(cx as int, cy as int, rx as int, ry as int, k);
                &&& e.x == cell.0
                &&& e.y == cell.1
                &&& spread == 0 ==> e.age == age
                &&& spread > 0 ==> 0 <= e.age < spread
            },
            *final(self) == (Game { explosions: final(self).explosions, ..*old(self) }),
    {
        let ghost start = *self;
        let ghost base = self.explosions@.len() as int;
        let ghost rows = 2 * ry + 1;
        let (rx, ry): (i64, i64) = (rx as i64, ry as i64);
        let mut dx: i64 = -rx;
        assert((dx + rx) * rows == 0) by (nonlinear_arith)
            requires
                dx + rx == 0,
        ;
        while dx <= rx
            invariant
                -rx <= dx <= rx + 1,
                rows == 2 * ry + 1,
                base == start.explosions@.len(),
                burst_fits(cx as int, rx as int),
                burst_fits(cy as int, ry as int),
                0 <= age < EXPLOSION_LIFETIME,
                0 <= spread <= EXPLOSION_LIFETIME,
                start.wf(),
                *self == (Game { explosions: self.explosions, ..start }),
                explosions_fresh(self.explosions@),
                self.explosions@.len() == base + (dx + rx) * rows,
                forall|i: int| 0 <= i < base ==> #[trigger] self.explosions@[i] == start.explosions@[i],
                forall|k: int| 0 <= k < (dx + rx) * rows ==> {
                    let e = #[trigger] self.explosions@[base + k];
                    let cell = burst_cell(cx as int, cy as int, rx as int, ry as int, k);
                    &&& e.x == cell.0
                    &&& e.y == cell.1
                    &&& spread == 0 ==> e.age == age
                    &&& spread > 0 ==> 0 <= e.age < spread
                },
            decreases rx + 1 - dx,
        {
            let mut dy: i64 = -ry;
            while dy <= ry
                invariant
                    -rx <= dx <= rx,
                    -ry <= dy <= ry + 1,
                    rows == 2 * ry + 1,
                    base == start.explosions@.len(),
                    burst_fits(cx as int, rx as int),
                    burst_fits(cy as int, ry as int),
                    0 <= age < EXPLOSION_LIFETIME,
                    0 <= spread <= EXPLOSION_LIFETIME,
                    start.wf(),
                    *self == (Game { explosions: self.explosions, ..start }),
                    explosions_fresh(self.explosions@),
                    self.explosions@.len() == base + (dx + rx) * rows + (dy + ry),
                    forall|i: int| 0 <= i < base ==> #[trigger] self.explosions@[i] == start.explosions@[i],
                    forall|k: int| 0 <= k < (dx + rx) * rows + (dy + ry) ==> {
                        let e = #[trigger] self.explosions@[base + k];
                        let cell = burst_cell(cx as int, cy as int, rx as int, ry as int, k);
                        &&& e.x == cell.0
                        &&& e.y == cell.1
                        &&& spread == 0 ==> e.age == age
                        &&& spread > 0 ==> 0 <= e.age < spread
                    },
                decreases ry + 1 - dy,
            {
                let a = if spread > 0 {
                    scatter_age(random_byte(), spread)
                } else {
                    age
                };
                let ghost k = (dx + rx) * rows + (dy + ry);
                proof {
                    lemma_fundamental_div_mod_converse(k, rows, (dx + rx) as int, (dy + ry) as int);
                }
                self.explosions.push(Explosion { x: (cx as i64 + dx) as i32, y: (cy as i64 + dy) as i32, age: a });
                dy += 1;
            }
            assert((dx + rx) * rows + rows == (dx + 1 + rx) * rows) by (nonlinear_arith);
            dx += 1;
        }
        assert((2 * rx + 1) * rows == burst_size(rx as int, ry as int));
    }
}

} // verus!
