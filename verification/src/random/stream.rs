use vstd::prelude::*;
use vstd::arithmetic::power::{pow, lemma_pow1, lemma_pow_adds};
use vstd::arithmetic::div_mod::{lemma_mul_mod_noop, lemma_mul_mod_noop_left, lemma_mod_bound};
use crate::error::TpcdsError;

verus! {

/// The message of a global column number outside `0..=MAX_COLUMN`.
pub const COLUMN_RANGE_MESSAGE: &'static str = "global column number is out of range";

/// The message of a negative number of seeds per row.
pub const NEGATIVE_SEEDS_MESSAGE: &'static str = "seeds per row must not be negative";

/// Modulus of the multiplicative congruential generator (2^31 - 1).
pub const MODULUS: i64 = 2147483647;

/// Multiplier of the generator.
pub const MULTIPLIER: i64 = 16807;

/// Seed from which the starting seed of every column is derived.
pub const DEFAULT_SEED_BASE: i64 = 19620718;

/// Largest global column number a stream can be created for.
pub const MAX_COLUMN: i32 = 799;

/// Distance between the starting seeds of two consecutive columns
/// (`MODULUS / MAX_COLUMN`).
pub const SEED_SPACING: i64 = 2687713;

/// Largest starting seed a stream can have.
pub const MAX_INITIAL_SEED: i64 = 2167103405;

/// One step of the generator.
pub open spec fn next_seed(s: int) -> int {
    (s * 16807) % 2147483647
}

/// The seed after `k` steps of the generator from `s`.
pub open spec fn nth_seed(s: int, k: nat) -> int
    decreases k,
{
    if k == 0 {
        s
    } else {
        next_seed(nth_seed(s, (k - 1) as nat))
    }
}

/// Increment of an `i32` counter that wraps around at `i32::MAX`.
pub open spec fn bump(u: int) -> int {
    if u == i32::MAX {
        i32::MIN as int
    } else {
        u + 1
    }
}

/// `k` wrapping increments of a counter.
pub open spec fn bump_n(u: int, k: nat) -> int
    decreases k,
{
    if k == 0 {
        u
    } else {
        bump(bump_n(u, (k - 1) as nat))
    }
}

/// Abstract state of a random number stream.
pub struct StreamState {
    pub seed: int,
    pub initial_seed: int,
    pub seeds_per_row: int,
    pub seeds_used: int,
}

impl StreamState {
    /// The state after `k` values have been drawn.
    pub open spec fn advance(self, k: nat) -> StreamState {
        StreamState {
            seed: nth_seed(self.seed, k),
            initial_seed: self.initial_seed,
            seeds_per_row: self.seeds_per_row,
            seeds_used: bump_n(self.seeds_used, k),
        }
    }

    /// The value returned by the draw with index `i` (counting from 0).
    pub open spec fn draw(self, i: nat) -> int {
        nth_seed(self.seed, i + 1)
    }
}

/// The state of a fresh stream for a column.
pub open spec fn initial_state(global_column_number: int, seeds_per_row: int) -> StreamState {
    let s = DEFAULT_SEED_BASE + global_column_number * SEED_SPACING;
    StreamState { seed: s, initial_seed: s, seeds_per_row: seeds_per_row, seeds_used: 0 }
}

/// After at least one step the generator equals multiplication by a power
/// of the multiplier, modulo `MODULUS`.
pub proof fn lemma_nth_seed_is_power(s: int, k: nat)
    requires
        k >= 1,
    ensures
        nth_seed(s, k) == (pow(16807, k) * s) % 2147483647,
    decreases k,
{
    if k == 1 {
        lemma_pow1(16807);
        assert(nth_seed(s, 0) == s);
        assert(s * 16807 == 16807 * s) by (nonlinear_arith);
    } else {
        lemma_nth_seed_is_power(s, (k - 1) as nat);
        let p = pow(16807, (k - 1) as nat);
        lemma_pow_adds(16807, (k - 1) as nat, 1);
        lemma_pow1(16807);
        lemma_mul_mod_noop_left(p * s, 16807, 2147483647);
        assert((p * s) * 16807 == (p * 16807) * s) by (nonlinear_arith);
    }
}

/// Drawing one more value after `k` draws is the same as drawing `k + 1`
/// values, and the value it returns is the draw with index `k`.
pub proof fn lemma_advance_step(st: StreamState, k: nat)
    ensures
        st.advance(k).advance(1) == st.advance(k + 1),
        st.advance(k).draw(0) == st.draw(k),
{
    reveal_with_fuel(nth_seed, 2);
    reveal_with_fuel(bump_n, 2);
    assert(nth_seed(nth_seed(st.seed, k), 1) == nth_seed(st.seed, k + 1));
    assert(bump_n(bump_n(st.seeds_used, k), 1) == bump_n(st.seeds_used, k + 1));
}

/// Stepping `a` times and then `b` times is stepping `a + b` times.
pub proof fn lemma_nth_seed_add(s: int, a: nat, b: nat)
    ensures
        nth_seed(nth_seed(s, a), b) == nth_seed(s, a + b),
    decreases b,
{
    if b > 0 {
        lemma_nth_seed_add(s, a, (b - 1) as nat);
    }
}

/// A counter that starts at zero counts exactly while it stays within `i32`.
pub proof fn lemma_bump_n_from_zero(k: nat)
    requires
        k <= i32::MAX,
    ensures
        bump_n(0, k) == k,
    decreases k,
{
    if k > 0 {
        lemma_bump_n_from_zero((k - 1) as nat);
    }
}

/// Every drawn value lies in `[0, MODULUS)`.
pub proof fn lemma_draw_in_range(st: StreamState, i: nat)
    ensures
        0 <= st.draw(i) < 2147483647,
{
    reveal_with_fuel(nth_seed, 2);
    assert(st.draw(i) == next_seed(nth_seed(st.seed, i)));
}

/// Drawing no value leaves the state as it is.
pub proof fn lemma_advance_zero(st: StreamState)
    ensures
        st.advance(0) == st,
{
    reveal_with_fuel(nth_seed, 1);
    reveal_with_fuel(bump_n, 1);
}

/// A random number stream: a multiplicative congruential generator that
/// also counts the values drawn in the current row.
pub struct RandomNumberStreamImpl {
    seed: i64,
    initial_seed: i64,
    seeds_per_row: i32,
    seeds_used: i32,
}

impl View for RandomNumberStreamImpl {
    type V = StreamState;

    closed spec fn view(&self) -> StreamState {
        StreamState {
            seed: self.seed as int,
            initial_seed: self.initial_seed as int,
            seeds_per_row: self.seeds_per_row as int,
            seeds_used: self.seeds_used as int,
        }
    }
}

impl RandomNumberStreamImpl {
    #[verifier::type_invariant]
    spec fn well_formed(self) -> bool {
        &&& 0 <= self.seed <= MAX_INITIAL_SEED
        &&& 0 <= self.initial_seed <= MAX_INITIAL_SEED
        &&& self.seeds_per_row >= 0
    }

    /// Creates a stream for global column 0.
    pub fn new(seeds_per_row: i32) -> (r: Result<Self, TpcdsError>)
        ensures
            r is Ok <==> seeds_per_row >= 0,
            r matches Ok(s) ==> s@ == initial_state(0, seeds_per_row as int),
            r matches Err(e) ==> e@ == NEGATIVE_SEEDS_MESSAGE@,
    {
        Self::new_with_column(0, seeds_per_row)
    }

    /// Creates the stream of a global column; each column starts from its own seed.
    pub fn new_with_column(global_column_number: i32, seeds_per_row: i32) -> (r: Result<
        Self,
        TpcdsError,
    >)
        ensures
            r is Ok <==> (0 <= global_column_number <= MAX_COLUMN && seeds_per_row >= 0),
            r matches Ok(s) ==> s@ == initial_state(
                global_column_number as int,
                seeds_per_row as int,
            ),
            r matches Err(e) ==> e@ == (if 0 <= global_column_number <= MAX_COLUMN {
                NEGATIVE_SEEDS_MESSAGE@
            } else {
                COLUMN_RANGE_MESSAGE@
            }),
    {
        if global_column_number < 0 || global_column_number > MAX_COLUMN {
            return Err(TpcdsError::new(COLUMN_RANGE_MESSAGE));
        }
        if seeds_per_row < 0 {
            return Err(TpcdsError::new(NEGATIVE_SEEDS_MESSAGE));
        }
        let seed = DEFAULT_SEED_BASE + (global_column_number as i64) * SEED_SPACING;
        Ok(
            RandomNumberStreamImpl {
                seed,
                initial_seed: seed,
                seeds_per_row,
                seeds_used: 0,
            },
        )
    }

    /// Draws the next value of the stream.
    pub fn next_random(&mut self) -> (r: i64)
        ensures
            final(self)@ == old(self)@.advance(1),
            r == old(self)@.draw(0),
            0 <= r < MODULUS,
    {
        proof {
            use_type_invariant(&*self);
        }
        proof {
            reveal_with_fuel(nth_seed, 2);
            reveal_with_fuel(bump_n, 2);
        }
        let next = (self.seed * MULTIPLIER) % MODULUS;
        self.seed = next;
        self.seeds_used = if self.seeds_used == i32::MAX {
            i32::MIN
        } else {
            self.seeds_used + 1
        };
        next
    }

    /// Number of values drawn since the counter was last reset.
    pub fn get_seeds_used(&self) -> (r: i32)
        ensures
            r == self@.seeds_used,
    {
        self.seeds_used
    }

    /// Number of values one row of this column is allotted.
    pub fn get_seeds_per_row(&self) -> (r: i32)
        ensures
            r == self@.seeds_per_row,
    {
        self.seeds_per_row
    }

    /// Resets the counter of values drawn in the current row.
    pub fn reset_seeds_used(&mut self)
        ensures
            final(self)@ == (StreamState { seeds_used: 0, ..old(self)@ }),
    {
        proof {
            use_type_invariant(&*self);
        }
        self.seeds_used = 0;
    }

    /// Repositions the stream as if `number_of_rows` complete rows had been
    /// drawn from its starting seed.
    pub fn skip_rows(&mut self, number_of_rows: i64)
        requires
            i64::MIN <= number_of_rows * old(self)@.seeds_per_row <= i64::MAX,
        ensures
            final(self)@ == (StreamState {
                seed: if number_of_rows * old(self)@.seeds_per_row > 0 {
                    nth_seed(
                        old(self)@.initial_seed,
                        (number_of_rows * old(self)@.seeds_per_row) as nat,
                    )
                } else {
                    old(self)@.initial_seed
                },
                ..old(self)@
            }),
    {
        proof {
            use_type_invariant(&*self);
        }
        let total: i64 = number_of_rows * (self.seeds_per_row as i64);
        let mut remaining: i64 = total;
        let mut next: i64 = self.initial_seed;
        let mut mult: i64 = MULTIPLIER;
        let ghost init = self.initial_seed as int;
        let ghost mut done: nat = 0;
        let ghost mut pw: nat = 1;
        proof {
            lemma_pow1(16807);
        }
        while remaining > 0
            invariant
                0 <= init <= MAX_INITIAL_SEED,
                init == self.initial_seed,
                total == number_of_rows * self.seeds_per_row,
                total > 0 ==> 0 <= remaining,
                total <= 0 ==> remaining == total && done == 0,
                total > 0 ==> done + remaining * pw == total,
                pw >= 1,
                0 <= mult < MODULUS,
                mult == pow(16807, pw) % 2147483647,
                done == 0 ==> next == init,
                done > 0 ==> next == (pow(16807, done) * init) % 2147483647,
                0 <= next <= MAX_INITIAL_SEED,
            decreases remaining,
        {
            if remaining % 2 != 0 {
                proof {
                    lemma_mul_mod_noop_left(pow(16807, pw), next as int, 2147483647);
                    lemma_pow_adds(16807, pw, done);
                    if done > 0 {
                        lemma_mul_mod_noop(pow(16807, pw), pow(16807, done) * init, 2147483647);
                        assert(pow(16807, pw) * (pow(16807, done) * init) == (pow(16807, pw)
                            * pow(16807, done)) * init) by (nonlinear_arith);
                        lemma_mul_mod_noop_left(pow(16807, pw), init, 2147483647);
                    } else {
                        lemma_mul_mod_noop_left(pow(16807, pw), init, 2147483647);
                    }
                    assert(0 <= mult * next < 0x8000_0000_0000_0000) by (nonlinear_arith)
                        requires
                            0 <= mult < MODULUS,
                            0 <= next <= MAX_INITIAL_SEED,
                    ;
                    assert(done + remaining * pw == done + pw + ((remaining - 1) / 2) * (2
                        * pw)) by (nonlinear_arith)
                        requires
                            remaining % 2 == 1,
                    ;
                }
                next = (mult * next) % MODULUS;
                proof {
                    done = done + pw;
                }
            } else {
                proof {
                    assert(remaining * pw == (remaining / 2) * (2 * pw)) by (nonlinear_arith)
                        requires
                            remaining % 2 == 0,
                    ;
                }
            }
            proof {
                lemma_mul_mod_noop(pow(16807, pw), pow(16807, pw), 2147483647);
                lemma_pow_adds(16807, pw, pw);
                assert(0 <= mult * mult < 0x8000_0000_0000_0000) by (nonlinear_arith)
                    requires
                        0 <= mult < MODULUS,
                ;
            }
            remaining = remaining / 2;
            mult = (mult * mult) % MODULUS;
            proof {
                pw = pw + pw;
            }
        }
        proof {
            if total > 0 {
                assert(done == total);
                lemma_nth_seed_is_power(init, done);
                assert(next == nth_seed(init, done));
            } else {
                assert(next == init);
            }
        }
        self.seed = next;
    }
}

} // verus!
