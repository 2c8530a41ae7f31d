use vstd::prelude::*;
use vstd::arithmetic::div_mod::{lemma_add_mod_noop, lemma_small_mod};

verus! {

/// The game's sound effects.
#[derive(Debug, Clone, Copy, PartialEq, Eq, Hash, Structural)]
pub enum SoundType {
    Warning,
    Laser,
    Missile,
    Explosion,
    Speedboat,
}

/// Least gap between two plays of the same sound, in nanoseconds (60 ms).
pub const REPLAY_GAP_NS: u64 = 60_000_000;

/// Multiplier of the noise generator.
pub const LCG_MULTIPLIER: u32 = 1664525;

/// Increment of the noise generator.
pub const LCG_INCREMENT: u32 = 1013904223;

/// Position of each sound in per-sound tables.
pub open spec fn sound_index(s: SoundType) -> int {
    match s {
        SoundType::Warning => 0,
        SoundType::Laser => 1,
        SoundType::Missile => 2,
        SoundType::Explosion => 3,
        SoundType::Speedboat => 4,
    }
}

impl SoundType {
    /// Position of this sound in per-sound tables (0 to 4).
    pub fn index(&self) -> (i: usize)
        ensures
            i == sound_index(*self),
            i < 5,
    {
        match self {
            SoundType::Warning => 0,
            SoundType::Laser => 1,
            SoundType::Missile => 2,
            SoundType::Explosion => 3,
            SoundType::Speedboat => 4,
        }
    }

    /// The noise generator's seed for this sound: 1 to 5 in declaration order, so each
    /// sound has its own repeatable noise.
    pub fn seed(&self) -> (s: u32)
        ensures
            s == sound_index(*self) + 1,
    {
        match self {
            SoundType::Warning => 1,
            SoundType::Laser => 2,
            SoundType::Missile => 3,
            SoundType::Explosion => 4,
            SoundType::Speedboat => 5,
        }
    }

    /// How long the sound plays, in milliseconds.
    pub fn duration_ms(&self) -> (ms: u64)
        ensures
            ms == match *self {
                SoundType::Warning => 500u64,
                SoundType::Laser => 55u64,
                SoundType::Missile => 400u64,
                SoundType::Explosion => 800u64,
                SoundType::Speedboat => 300u64,
            },
    {
        match self {
            SoundType::Warning => 500,
            SoundType::Laser => 55,
            SoundType::Missile => 400,
            SoundType::Explosion => 800,
            SoundType::Speedboat => 300,
        }
    }
}

/// Whether two strings hold the same characters.
fn text_eq(a: &str, b: &str) -> (r: bool)
    ensures
        r == (a@ == b@),
{
    let n = a.unicode_len();
    let m = b.unicode_len();
    if n != m {
        return false;
    }
    let mut i: usize = 0;
    while i < n
        invariant
            n == a@.len(),
            m == b@.len(),
            n == m,
            0 <= i <= n,
            forall|j: int| 0 <= j < i ==> a@[j] == b@[j],
        decreases n - i,
    {
        if a.get_char(i) != b.get_char(i) {
            return false;
        }
        i += 1;
    }
    assert(a@ =~= b@);
    true
}

/// The sound named by `name`: "warning", "laser", "missile", "explosion" or "speedboat";
/// any other name plays nothing.
pub fn sound_for_name(name: &str) -> (s: Option<SoundType>)
    ensures
        name@ == "warning"@ <==> s == Some(SoundType::Warning),
        name@ == "laser"@ <==> s == Some(SoundType::Laser),
        name@ == "missile"@ <==> s == Some(SoundType::Missile),
        name@ == "explosion"@ <==> s == Some(SoundType::Explosion),
        name@ == "speedboat"@ <==> s == Some(SoundType::Speedboat),
{
    proof {
        reveal_strlit("warning");
        reveal_strlit("laser");
        reveal_strlit("missile");
        reveal_strlit("explosion");
        reveal_strlit("speedboat");
        assert("warning"@[0] == 'w');
        assert("laser"@[0] == 'l');
        assert("missile"@[0] == 'm');
        assert("explosion"@[0] == 'e');
        assert("speedboat"@[0] == 's');
    }
    if text_eq(name, "warning") {
        Some(SoundType::Warning)
    } else if text_eq(name, "laser") {
        Some(SoundType::Laser)
    } else if text_eq(name, "missile") {
        Some(SoundType::Missile)
    } else if text_eq(name, "explosion") {
        Some(SoundType::Explosion)
    } else if text_eq(name, "speedboat") {
        Some(SoundType::Speedboat)
    } else {
        None
    }
}

/// One step of the noise generator: state times 1664525 plus 1013904223, modulo 2^32.
pub open spec fn lcg_step(state: u32) -> u32 {
    ((state as int * LCG_MULTIPLIER as int + LCG_INCREMENT as int) % 0x1_0000_0000) as u32
}

/// A linear congruential generator that feeds the noise of the sound effects.
#[derive(Debug, Clone, Copy, PartialEq, Eq)]
pub struct Lcg {
    pub state: u32,
}

impl Lcg {
    /// A generator starting from `seed`.
    pub fn new(seed: u32) -> (g: Lcg)
        ensures
            g.state == seed,
    {
        Lcg { state: seed }
    }

    /// Advances the generator one step and returns the new state.
    pub fn next_state(&mut self) -> (s: u32)
        ensures
            s == lcg_step(old(self).state),
            final(self).state == s,
    {
        let prod = self.state.wrapping_mul(LCG_MULTIPLIER);
        let next = prod.wrapping_add(LCG_INCREMENT);
        proof {
            let x = old(self).state as int * LCG_MULTIPLIER as int;
            let m: int = 0x1_0000_0000;
            assert(prod as int == x % m);
            lemma_add_mod_noop(x, LCG_INCREMENT as int, m);
            lemma_small_mod(LCG_INCREMENT as nat, m as nat);
            assert(0 <= prod < m);
            assert((prod as int + LCG_INCREMENT as int) < 2 * m);
            if prod as int + LCG_INCREMENT as int >= m {
                lemma_small_mod((prod as int + LCG_INCREMENT as int - m) as nat, m as nat);
                vstd::arithmetic::div_mod::lemma_mod_add_multiples_vanish(
                    prod as int + LCG_INCREMENT as int - m, m);
            } else {
                lemma_small_mod((prod as int + LCG_INCREMENT as int) as nat, m as nat);
            }
        }
        self.state = next;
        next
    }
}

/// When each sound last started playing (nanoseconds on the caller's clock), used to keep
/// one sound from stacking on itself.
#[derive(Debug, Clone)]
pub struct AudioThrottle {
    pub last_ns: Vec<Option<u64>>,
}

/// Time from `prev` to `now`, or zero if `now` comes first.
pub open spec fn elapsed(now: u64, prev: u64) -> int {
    if now >= prev {
        now - prev
    } else {
        0
    }
}

/// A sound may start at `now` unless the same sound started less than 60 ms earlier.
pub open spec fn may_play(last: Option<u64>, now: u64) -> bool {
    match last {
        None => true,
        Some(prev) => elapsed(now, prev) >= REPLAY_GAP_NS,
    }
}

impl AudioThrottle {
    /// One entry per sound.
    pub open spec fn wf(&self) -> bool {
        self.last_ns@.len() == 5
    }

    /// No sound has played yet.
    pub fn new() -> (t: AudioThrottle)
        ensures
            t.wf(),
            forall|i: int| 0 <= i < 5 ==> #[trigger] t.last_ns@[i] is None,
    {
        let mut v: Vec<Option<u64>> = Vec::new();
        v.push(None);
        v.push(None);
        v.push(None);
        v.push(None);
        v.push(None);
        AudioThrottle { last_ns: v }
    }

    /// A request to play `sound` at time `now_ns`: granted unless the same sound started
    /// less than 60 ms before; a granted request records the new start time.
    pub fn request(&mut self, sound: SoundType, now_ns: u64) -> (granted: bool)
        requires
            old(self).wf(),
        ensures
            final(self).wf(),
            granted == may_play(old(self).last_ns@[sound_index(sound)], now_ns),
            granted ==> final(self).last_ns@ == old(self).last_ns@.update(sound_index(sound), Some(now_ns)),
            !granted ==> final(self).last_ns@ == old(self).last_ns@,
    {
        let i = sound.index();
        let granted = match self.last_ns[i] {
            None => true,
            Some(prev) => {
                let gap = if now_ns >= prev { now_ns - prev } else { 0 };
                gap >= REPLAY_GAP_NS
            },
        };
        if granted {
            self.last_ns.set(i, Some(now_ns));
        }
        granted
    }
}

/// Law: once a sound has started, the same sound asked for again less than 60 ms later is
/// refused, while any other sound is unaffected by it.
pub proof fn law_no_stacking(t: AudioThrottle, sound: SoundType, other: SoundType, t0: u64, t1: u64)
    requires
        t.wf(),
        t0 <= t1 < t0 + REPLAY_GAP_NS,
    ensures
        ({
            let after = t.last_ns@.update(sound_index(sound), Some(t0));
            &&& !may_play(after[sound_index(sound)], t1)
            &&& other != sound ==> may_play(after[sound_index(other)], t1) == may_play(t.last_ns@[sound_index(other)], t1)
        }),
{
}

} // verus!
