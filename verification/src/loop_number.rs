use vstd::arithmetic::div_mod::{lemma_mod_multiples_vanish, lemma_small_mod};
use vstd::prelude::*;

verus! {

/// Error returned when a counter is requested over an empty range.
#[derive(Clone, Copy, Debug, PartialEq, Eq, Structural)]
pub struct InvalidLength;

/// A bounded counter that cycles through `0 .. length` with wraparound.
#[derive(Clone, Copy, Debug, PartialEq, Eq, Structural)]
pub struct LoopNumber {
    pub value: usize,
    pub length: usize,
}

/// The counter one step forward, with wraparound.
pub open spec fn spec_next(c: LoopNumber) -> LoopNumber {
    LoopNumber { value: (((c.value + 1) as int % (c.length as int)) as usize), length: c.length }
}

/// The counter one step backward, with wraparound.
pub open spec fn spec_prev(c: LoopNumber) -> LoopNumber {
    LoopNumber {
        value: (((c.value + c.length - 1) as int % (c.length as int)) as usize),
        length: c.length,
    }
}

/// The counter after `k` forward steps.
pub open spec fn spec_iter_next(c: LoopNumber, k: nat) -> LoopNumber
    decreases k,
{
    if k == 0 {
        c
    } else {
        spec_next(spec_iter_next(c, (k - 1) as nat))
    }
}

impl LoopNumber {
    /// Well-formed: the value lies strictly below the length (so the length is positive).
    pub open spec fn wf(self) -> bool {
        self.value < self.length
    }

    /// Construct a counter at zero over `0 .. length`; a zero length is rejected.
    pub fn new(length: usize) -> (r: Result<Self, InvalidLength>)
        ensures
            length > 0 ==> r == Ok::<Self, InvalidLength>(LoopNumber { value: 0, length }),
            length == 0 ==> r == Err::<Self, InvalidLength>(InvalidLength),
    {
        if length == 0 {
            Err(InvalidLength)
        } else {
            Ok(LoopNumber { value: 0, length })
        }
    }

    /// Advance by one, wrapping from `length - 1` back to `0`.
    pub fn next(&self) -> (r: Self)
        requires
            self.wf(),
        ensures
            r == spec_next(*self),
            r.value == (self.value + 1) % (self.length as int),
            r.length == self.length,
            r.wf(),
    {
        Self { value: (self.value + 1) % self.length, length: self.length }
    }

    /// Step back by one, wrapping from `0` to `length - 1`.
    pub fn prev(&self) -> (r: Self)
        requires
            self.wf(),
        ensures
            r == spec_prev(*self),
            r.value == (self.value + self.length - 1) % (self.length as int),
            r.length == self.length,
            r.wf(),
    {
        let v = if self.value == 0 {
            self.length - 1
        } else {
            self.value - 1
        };
        proof {
            lemma_prev_value(*self);
        }
        Self { value: v, length: self.length }
    }
}

/// The backward step lands on `value - 1`, or on `length - 1` from zero.
proof fn lemma_prev_value(c: LoopNumber)
    requires
        c.wf(),
    ensures
        c.value == 0 ==> (c.value + c.length - 1) % (c.length as int) == c.length - 1,
        c.value > 0 ==> (c.value + c.length - 1) % (c.length as int) == c.value - 1,
{
    if c.value == 0 {
        lemma_small_mod((c.length - 1) as nat, c.length as nat);
    } else {
        lemma_mod_multiples_vanish(1, c.value - 1, c.length as int);
        lemma_small_mod((c.value - 1) as nat, c.length as nat);
    }
}

/// After `k` forward steps from zero the value is `k % length`.
proof fn lemma_iter_next_value(length: usize, k: nat)
    requires
        length > 0,
    ensures
        spec_iter_next(LoopNumber { value: 0, length }, k).length == length,
        spec_iter_next(LoopNumber { value: 0, length }, k).value == k as int % (length as int),
    decreases k,
{
    let c0 = LoopNumber { value: 0, length };
    if k == 0 {
        lemma_small_mod(0, length as nat);
    } else {
        lemma_iter_next_value(length, (k - 1) as nat);
        let prior = spec_iter_next(c0, (k - 1) as nat);
        lemma_mod_bound((k - 1) as int, length as int);
        if prior.value + 1 < length {
            lemma_small_mod((prior.value + 1) as nat, length as nat);
            lemma_mod_step((k - 1) as int, length as int);
        } else {
            lemma_mod_step((k - 1) as int, length as int);
        }
    }
}

/// `0 <= a % m < m` for positive `m`.
proof fn lemma_mod_bound(a: int, m: int)
    requires
        0 <= a,
        0 < m,
    ensures
        0 <= a % m < m,
{
    lemma_small_mod((a % m) as nat, m as nat);
}

/// `(a % m + 1) % m == (a + 1) % m` for positive `m`.
proof fn lemma_mod_step(a: int, m: int)
    requires
        0 <= a,
        0 < m,
    ensures
        (a % m + 1) % m == (a + 1) % m,
{
    lemma_mod_bound(a, m);
    let q = a / m;
    vstd::arithmetic::div_mod::lemma_fundamental_div_mod(a, m);
    lemma_mod_multiples_vanish(q, a % m + 1, m);
}

/// The wraparound formulas agree with the branching computation, for any
/// index `x` below a positive bound `len`.
pub proof fn lemma_wrap_formulas(x: usize, len: usize)
    requires
        x < len,
    ensures
        x == len - 1 ==> (x + 1) % (len as int) == 0,
        x < len - 1 ==> (x + 1) % (len as int) == x + 1,
        x == 0 ==> (x + len - 1) % (len as int) == len - 1,
        x > 0 ==> (x + len - 1) % (len as int) == x - 1,
{
    if x == len - 1 {
        lemma_mod_multiples_vanish(1, 0, len as int);
        lemma_small_mod(0, len as nat);
    }
    if x < len - 1 {
        lemma_small_mod((x + 1) as nat, len as nat);
    }
    lemma_prev_value(LoopNumber { value: x, length: len });
}

/// Law: stepping a fresh counter forward `length` times returns its value to zero.
pub proof fn lemma_next_full_cycle(length: usize)
    requires
        length > 1,
    ensures
        spec_iter_next(LoopNumber { value: 0, length }, length as nat).value == 0,
{
    lemma_iter_next_value(length, length as nat);
    lemma_mod_multiples_vanish(1, 0, length as int);
    lemma_small_mod(0, length as nat);
}

/// Law: a backward step undoes a forward step, and a forward step undoes a backward one.
pub proof fn lemma_prev_undoes_next(c: LoopNumber)
    requires
        c.wf(),
    ensures
        spec_prev(spec_next(c)) == c,
        spec_next(spec_prev(c)) == c,
{
    lemma_mod_bound((c.value + 1) as int, c.length as int);
    lemma_mod_bound((c.value + c.length - 1) as int, c.length as int);
    let n = spec_next(c);
    let p = spec_prev(c);
    if c.value + 1 < c.length {
        lemma_small_mod((c.value + 1) as nat, c.length as nat);
    } else {
        lemma_mod_multiples_vanish(1, 0, c.length as int);
        lemma_small_mod(0, c.length as nat);
    }
    lemma_prev_value(n);
    lemma_prev_value(c);
    if p.value + 1 < c.length {
        lemma_small_mod((p.value + 1) as nat, c.length as nat);
    } else {
        lemma_mod_multiples_vanish(1, 0, c.length as int);
        lemma_small_mod(0, c.length as nat);
    }
}

/// Law: focus wraps around — a backward step from zero lands on `length - 1`,
/// and a forward step from `length - 1` lands on zero.
pub proof fn lemma_wraparound(c: LoopNumber)
    requires
        c.wf(),
    ensures
        c.value == 0 ==> spec_prev(c).value == c.length - 1,
        c.value == c.length - 1 ==> spec_next(c).value == 0,
{
    lemma_prev_value(c);
    if c.value == c.length - 1 {
        lemma_mod_multiples_vanish(1, 0, c.length as int);
        lemma_small_mod(0, c.length as nat);
    }
}

} // verus!
