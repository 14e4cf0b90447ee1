use vstd::prelude::*;

verus! {

/// A source of pseudo-random numbers for the games.
pub trait Rng: Sized {
    /// Whether the values this source hands out are fixed in advance (a
    /// seeded or replayed sequence). A hardware source is not, and then
    /// nothing is stated of its values.
    open spec fn predictable(&self) -> bool {
        false
    }

    /// For a predictable source, the raw value handed out `k` draws from now.
    open spec fn upcoming(&self, k: nat) -> u32 {
        0
    }

    /// The next raw value.
    fn next_u32(&mut self) -> (r: u32)
        ensures
            old(self).predictable() ==> {
                &&& final(self).predictable()
                &&& forall|k: nat| #[trigger] final(self).upcoming(k) == old(self).upcoming(k + 1)
                &&& r == old(self).upcoming(0)
            },
    ;

    /// A number below `limit`, taken from the next raw value.
    fn index(&mut self, limit: usize) -> (r: usize)
        requires
            limit > 0,
        ensures
            r < limit,
            old(self).predictable() ==> {
                &&& final(self).predictable()
                &&& forall|k: nat| #[trigger] final(self).upcoming(k) == old(self).upcoming(k + 1)
                &&& r == old(self).upcoming(0) as int % limit as int
            },
    {
        (self.next_u32() as usize) % limit
    }
}

/// A predictable source moved on by `n` draws: what `after` hands out is
/// what `before` would have handed out `n` draws later.
pub open spec fn drew<R: Rng>(before: R, after: R, n: nat) -> bool {
    &&& after.predictable()
    &&& forall|k: nat| #[trigger] after.upcoming(k) == before.upcoming(k + n)
}

/// Two runs of draws make one.
pub proof fn lemma_drew_then<R: Rng>(a: R, b: R, c: R, m: nat, n: nat)
    requires
        drew(a, b, m),
        drew(b, c, n),
    ensures
        drew(a, c, m + n),
{
    assert forall|k: nat| #[trigger] c.upcoming(k) == a.upcoming(k + (m + n)) by {
        assert(c.upcoming(k) == b.upcoming(k + n));
        assert(b.upcoming((k + n) as nat) == a.upcoming((k + n) + m));
    }
}

/// No draws leave a predictable source where it was.
pub proof fn lemma_drew_nothing<R: Rng>(a: R)
    requires
        a.predictable(),
    ensures
        drew(a, a, 0),
{
}

/// The linear congruential step used by [`LcgRng`].
pub open spec fn lcg_step(state: u32) -> u32 {
    ((state as int * 1_664_525 + 1_013_904_223) % 0x1_0000_0000) as u32
}

/// The state `n` steps after `state`.
pub open spec fn lcg_nth(state: u32, n: nat) -> u32
    decreases n,
{
    if n == 0 { state } else { lcg_nth(lcg_step(state), (n - 1) as nat) }
}

/// A linear congruential generator (Numerical Recipes constants).
#[derive(Debug, Clone)]
pub struct LcgRng {
    state: u32,
}

impl LcgRng {
    pub closed spec fn state(&self) -> u32 {
        self.state
    }

    pub fn new(seed: u32) -> (r: Self)
        ensures
            r.state() == seed,
    {
        LcgRng { state: seed }
    }
}

impl Rng for LcgRng {
    open spec fn predictable(&self) -> bool {
        true
    }

    /// The state after `k + 1` more steps.
    closed spec fn upcoming(&self, k: nat) -> u32 {
        lcg_nth(self.state, k + 1)
    }

    /// Advances the state by one step and returns the new state.
    fn next_u32(&mut self) -> (r: u32)
        ensures
            final(self).state() == lcg_step(old(self).state()),
            r == final(self).state(),
    {
        self.state = self.state.wrapping_mul(1_664_525).wrapping_add(1_013_904_223);
        proof {
            let s = old(self).state as int;
            assert((((s * 1_664_525) % 0x1_0000_0000) + 1_013_904_223) % 0x1_0000_0000
                == (s * 1_664_525 + 1_013_904_223) % 0x1_0000_0000) by {
                vstd::arithmetic::div_mod::lemma_add_mod_noop(s * 1_664_525, 1_013_904_223, 0x1_0000_0000);
                vstd::arithmetic::div_mod::lemma_small_mod(1_013_904_223nat, 0x1_0000_0000nat);
                vstd::arithmetic::div_mod::lemma_mod_twice(s * 1_664_525, 0x1_0000_0000);
            }
            assert(old(self).upcoming(0) == lcg_nth(lcg_step(old(self).state), 0));
            assert forall|k: nat| #[trigger] self.upcoming(k) == old(self).upcoming(k + 1) by {
                assert(lcg_nth(old(self).state, k + 2) == lcg_nth(lcg_step(old(self).state), (k + 1) as nat));
            }
        }
        self.state
    }
}

/// An `Rng` that replays a fixed, non-empty list of values in a cycle.
#[derive(Debug)]
pub struct ScriptedRng {
    values: Vec<u32>,
    cursor: usize,
}

impl ScriptedRng {
    #[verifier::type_invariant]
    spec fn inv(self) -> bool {
        0 <= self.cursor < self.values@.len()
    }

    pub closed spec fn values(&self) -> Seq<u32> {
        self.values@
    }

    /// Position in the cycle of the value handed out next.
    pub closed spec fn cursor(&self) -> nat {
        self.cursor as nat
    }

    pub fn new(values: Vec<u32>) -> (r: Self)
        requires
            values@.len() > 0,
        ensures
            r.values() == values@,
            r.cursor() == 0,
            r.predictable(),
            forall|k: nat| #[trigger] r.upcoming(k) == values@[(k % values@.len()) as int],
    {
        ScriptedRng { values, cursor: 0 }
    }
}

impl Rng for ScriptedRng {
    open spec fn predictable(&self) -> bool {
        true
    }

    /// The values from the cursor on, round the cycle.
    closed spec fn upcoming(&self, k: nat) -> u32 {
        self.values@[((self.cursor as nat + k) % self.values@.len()) as int]
    }

    /// The value at the cursor; the cursor then moves on, wrapping at the end.
    fn next_u32(&mut self) -> (r: u32)
        ensures
            final(self).values() == old(self).values(),
            old(self).cursor() < old(self).values().len(),
            r == old(self).values()[old(self).cursor() as int],
            final(self).cursor() == (old(self).cursor() + 1) % old(self).values().len(),
    {
        proof { use_type_invariant(&*self); }
        let value = self.values[self.cursor];
        if self.cursor < self.values.len() - 1 {
            self.cursor = self.cursor + 1;
        } else {
            self.cursor = 0;
        }
        proof {
            let n = old(self).values().len();
            let c = old(self).cursor();
            if c + 1 < n {
                vstd::arithmetic::div_mod::lemma_small_mod((c + 1) as nat, n);
            } else {
                vstd::arithmetic::div_mod::lemma_mod_self_0(n as int);
            }
            vstd::arithmetic::div_mod::lemma_small_mod(c, n);
            assert forall|k: nat| #[trigger] self.upcoming(k) == old(self).upcoming(k + 1) by {
                vstd::arithmetic::div_mod::lemma_add_mod_noop((c + 1) as int, k as int, n as int);
                vstd::arithmetic::div_mod::lemma_small_mod(k % n, n);
                vstd::arithmetic::div_mod::lemma_mod_twice(k as int, n as int);
                assert(((c + 1) % n + k) % n == (c + 1 + k) % n) by {
                    vstd::arithmetic::div_mod::lemma_add_mod_noop((c + 1) as int, k as int, n as int);
                    vstd::arithmetic::div_mod::lemma_add_mod_noop(((c + 1) % n) as int, k as int, n as int);
                    vstd::arithmetic::div_mod::lemma_mod_twice((c + 1) as int, n as int);
                }
            }
        }
        value
    }
}

} // verus!
