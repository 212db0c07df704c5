//! The noise value of a texel cell: how high the strand in it stands.
//!
//! The value comes from a small spatial hash. The cell's coordinates are
//! scaled down and shifted, squared and weighed into one number; its
//! fractional part is squared and weighed again, and the fractional part of
//! that is the noise. Here the hash is evaluated exactly; in single precision
//! the two fractional parts round off, and other values come out.

use vstd::prelude::*;
use vstd::arithmetic::div_mod::{
    lemma_add_mod_noop,
    lemma_fundamental_div_mod,
    lemma_fundamental_div_mod_converse,
    lemma_mod_bound,
    lemma_mul_mod_noop,
    lemma_mul_mod_noop_right,
    lemma_truncate_middle,
};
use crate::ratio::Rational;

verus! {

/// A cell coordinate is divided by this before it is squared.
pub const HASH_SCALE: u64 = 4320;

/// What is added to the first coordinate, in units of `1 / HASH_SCALE`: a
/// quarter.
pub const HASH_OFFSET: u64 = 1080;

/// The weight of both squares in the first round; the second round weighs
/// with twice as much.
pub const HASH_WEIGHT: u64 = 3571;

/// The denominator of the first round's fractional part: `HASH_SCALE`
/// squared.
pub const STATE_DENOMINATOR: u64 = 18_662_400;

/// The denominator of a noise value: `STATE_DENOMINATOR` squared.
pub const NOISE_DENOMINATOR: u64 = 348_285_173_760_000;

/// The first round of the hash for the cell `(x, y)`: the fractional part of
/// `HASH_WEIGHT * (sx * sx + sy * sy)`, where `sx` is `x / HASH_SCALE + 1/4`
/// and `sy` is `y / HASH_SCALE`.
pub open spec fn hash_state(x: int, y: int) -> Rational {
    Rational {
        num: HASH_WEIGHT * ((x + HASH_OFFSET) * (x + HASH_OFFSET) + y * y),
        den: STATE_DENOMINATOR as int,
    }.fract()
}

/// The noise value of the cell `(x, y)`: the fractional part of
/// `2 * HASH_WEIGHT * s * s`, where `s` is the first round's result.
pub open spec fn hash_of(x: int, y: int) -> Rational {
    hash_state(x, y).squared().scaled(2 * HASH_WEIGHT).fract()
}

/// The first round of the hash, step by step: the cell is scaled down and
/// shifted by a quarter along the first axis, each coordinate is squared, the
/// squares are weighed and summed, and the fractional part is taken.
pub open spec fn hash_state_by_steps(x: int, y: int) -> Rational {
    let sx = Rational { num: x, den: HASH_SCALE as int }.plus(Rational { num: 1, den: 4 });
    let sy = Rational { num: y, den: HASH_SCALE as int };
    sx.squared().plus(sy.squared()).scaled(HASH_WEIGHT as int).fract()
}

/// The hash, step by step: the first round's result is squared, weighed
/// twice as much, and the fractional part is taken.
pub open spec fn hash_by_steps(x: int, y: int) -> Rational {
    hash_state_by_steps(x, y).squared().scaled(2 * HASH_WEIGHT).fract()
}

/// A noise value: a number in [0, 1), counted in units of
/// `1 / NOISE_DENOMINATOR`.
#[derive(Clone, Copy, Debug)]
pub struct Noise {
    num: u64,
}

impl View for Noise {
    type V = Rational;

    closed spec fn view(&self) -> Rational {
        Rational { num: self.num as int, den: NOISE_DENOMINATOR as int }
    }
}

impl Noise {
    #[verifier::type_invariant]
    spec fn below_one(self) -> bool {
        self.num < NOISE_DENOMINATOR
    }

    /// The noise value `num / NOISE_DENOMINATOR`; none where that is not
    /// less than 1.
    pub fn new(num: u64) -> (noise: Option<Noise>)
        ensures
            num < NOISE_DENOMINATOR <==> noise is Some,
            noise matches Some(n) ==> n@ == (Rational {
                num: num as int,
                den: NOISE_DENOMINATOR as int,
            }),
    {
        if num < NOISE_DENOMINATOR {
            Some(Noise { num })
        } else {
            None
        }
    }

    /// The numerator over `NOISE_DENOMINATOR`.
    pub fn numerator(&self) -> (num: u64)
        ensures
            num == self@.num,
            num < NOISE_DENOMINATOR,
            self@.den == NOISE_DENOMINATOR,
    {
        proof {
            use_type_invariant(self);
        }
        self.num
    }
}

/// The remainder of `x` by `STATE_DENOMINATOR`, never negative.
fn residue(x: i128) -> (r: u64)
    ensures
        r == (x as int) % (STATE_DENOMINATOR as int),
        r < STATE_DENOMINATOR,
{
    let modulus: u128 = STATE_DENOMINATOR as u128;
    if x >= 0 {
        ((x as u128) % modulus) as u64
    } else {
        // -x may not fit, -(x + 1) does
        let magnitude: u128 = ((-(x + 1)) as u128) + 1;
        let quotient: u128 = magnitude / modulus;
        let rest: u128 = magnitude % modulus;
        let up: u128 = if rest == 0 {
            0
        } else {
            modulus - rest
        };
        proof {
            let floor: int = if rest == 0 {
                -(quotient as int)
            } else {
                -(quotient as int) - 1
            };
            lemma_fundamental_div_mod(magnitude as int, modulus as int);
            assert(x as int == floor * modulus + up) by (nonlinear_arith)
                requires
                    x as int == -(magnitude as int),
                    magnitude == modulus * quotient + rest,
                    floor == (if rest == 0 {
                        -(quotient as int)
                    } else {
                        -(quotient as int) - 1
                    }),
                    up == (if rest == 0 {
                        0
                    } else {
                        modulus - rest
                    }),
            ;
            lemma_fundamental_div_mod_converse(x as int, modulus as int, floor, up as int);
        }
        up as u64
    }
}

/// The noise value of the cell `(x, y)`.
pub fn hash(x: i128, y: i128) -> (noise: Noise)
    ensures
        noise@ == hash_of(x as int, y as int),
        Rational::whole(0).le(noise@),
        noise@.lt(Rational::whole(1)),
{
    let modulus: u128 = STATE_DENOMINATOR as u128;
    let weight: u128 = HASH_WEIGHT as u128;
    let px: u128 = ((residue(x) as u128) + (HASH_OFFSET as u128)) % modulus;
    let py: u128 = residue(y) as u128;
    assert(px * px <= 18_662_399 * 18_662_399 && py * py <= 18_662_399 * 18_662_399)
        by (nonlinear_arith)
        requires
            px <= 18_662_399,
            py <= 18_662_399,
    ;
    let squares: u128 = px * px + py * py;
    let state: u128 = (weight * squares) % modulus;
    proof {
        lemma_state_residues(x as int, y as int, px as int, py as int);
    }
    assert(state * state <= 18_662_399 * 18_662_399) by (nonlinear_arith)
        requires
            state <= 18_662_399,
    ;
    let spread: u128 = (2 * weight) * (state * state);
    let num: u128 = spread % (NOISE_DENOMINATOR as u128);
    assert(STATE_DENOMINATOR * STATE_DENOMINATOR == NOISE_DENOMINATOR);
    Noise { num: num as u64 }
}

/// Squares may be taken of remainders: the first round comes out the same.
proof fn lemma_state_residues(x: int, y: int, px: int, py: int)
    requires
        px == (x % (STATE_DENOMINATOR as int) + HASH_OFFSET) % (STATE_DENOMINATOR as int),
        py == y % (STATE_DENOMINATOR as int),
    ensures
        (HASH_WEIGHT * (px * px + py * py)) % (STATE_DENOMINATOR as int) == hash_state(x, y).num,
{
    let m = STATE_DENOMINATOR as int;
    let sx = x + HASH_OFFSET;
    assert(px == sx % m) by {
        lemma_add_mod_noop(x, HASH_OFFSET as int, m);
        assert((HASH_OFFSET as int) % m == HASH_OFFSET);
    }
    lemma_mul_mod_noop(sx, sx, m);
    lemma_mul_mod_noop(y, y, m);
    lemma_add_mod_noop(sx * sx, y * y, m);
    lemma_add_mod_noop(px * px, py * py, m);
    assert((px * px + py * py) % m == (sx * sx + y * y) % m);
    lemma_mul_mod_noop_right(HASH_WEIGHT as int, px * px + py * py, m);
    lemma_mul_mod_noop_right(HASH_WEIGHT as int, sx * sx + y * y, m);
}

/// The noise value of every cell lies in [0, 1), and so does the first
/// round's result.
pub proof fn lemma_hash_in_unit_range(x: int, y: int)
    ensures
        hash_of(x, y).wf(),
        Rational::whole(0).le(hash_of(x, y)),
        hash_of(x, y).lt(Rational::whole(1)),
        Rational::whole(0).le(hash_state(x, y)),
        hash_state(x, y).lt(Rational::whole(1)),
        hash_of(x, y).den == NOISE_DENOMINATOR,
{
    let s = hash_state(x, y);
    lemma_mod_bound(HASH_WEIGHT * ((x + HASH_OFFSET) * (x + HASH_OFFSET) + y * y), s.den);
    assert(s.den * s.den == NOISE_DENOMINATOR) by (nonlinear_arith)
        requires
            s.den == 18_662_400,
    ;
    lemma_mod_bound((2 * HASH_WEIGHT) * (s.num * s.num), s.den * s.den);
}

/// Taken step by step over fractions, the hash gives the same numbers as
/// over the common denominators that `hash_state` and `hash_of` use.
pub proof fn lemma_hash_by_steps(x: int, y: int)
    ensures
        hash_state_by_steps(x, y).same(hash_state(x, y)),
        hash_by_steps(x, y).same(hash_of(x, y)),
{
    let n = STATE_DENOMINATOR as int;
    let w = HASH_WEIGHT as int;
    let k = 16 * n;
    let sx = Rational { num: x, den: HASH_SCALE as int }.plus(Rational { num: 1, den: 4 });
    let sy = Rational { num: y, den: HASH_SCALE as int };
    let dot = sx.squared().plus(sy.squared()).scaled(w);
    // the weighed sum of squares over the common denominator
    let c = w * ((x + 1080) * (x + 1080) + y * y);
    assert(sx.num == 4 * (x + 1080) && sx.den == 17280);
    assert(dot.den == k * n) by (nonlinear_arith)
        requires
            dot.den == (17280 * 17280) * (4320 * 4320),
            n == 18_662_400,
            k == 16 * n,
    ;
    assert(dot.num == k * c) by (nonlinear_arith)
        requires
            dot.num == w * ((4 * (x + 1080)) * (4 * (x + 1080)) * (4320 * 4320) + (y * y) * (17280
                * 17280)),
            c == w * ((x + 1080) * (x + 1080) + y * y),
            k == 16 * 18_662_400,
    ;
    assert(c >= 0) by (nonlinear_arith)
        requires
            c == w * ((x + 1080) * (x + 1080) + y * y),
            w == 3571,
    ;
    lemma_truncate_middle(c, k, n);
    let a = c % n;
    let first = hash_state_by_steps(x, y);
    assert(first.num == k * a && first.den == k * n);
    assert(hash_state(x, y).num == a && hash_state(x, y).den == n);
    assert((k * a) * n == a * (k * n)) by (nonlinear_arith);

    // the second round
    let kk = k * k;
    let nn = n * n;
    let b = (2 * w) * (a * a);
    assert(a >= 0) by {
        lemma_mod_bound(c, n);
    }
    assert(b >= 0) by (nonlinear_arith)
        requires
            b == (2 * w) * (a * a),
            w == 3571,
    ;
    assert(kk > 0 && nn > 0) by (nonlinear_arith)
        requires
            kk == k * k,
            nn == n * n,
            k > 0,
            n > 0,
    ;
    lemma_truncate_middle(b, kk, nn);
    let second = hash_by_steps(x, y);
    assert(second.den == kk * nn) by (nonlinear_arith)
        requires
            second.den == (k * n) * (k * n),
            kk == k * k,
            nn == n * n,
    ;
    assert(second.num == (kk * b) % (kk * nn)) by {
        assert((2 * w) * ((k * a) * (k * a)) == kk * b) by (nonlinear_arith)
            requires
                kk == k * k,
                b == (2 * w) * (a * a),
        ;
    }
    let r = b % nn;
    assert(hash_of(x, y).num == r && hash_of(x, y).den == nn);
    assert((kk * r) * nn == r * (kk * nn)) by (nonlinear_arith);
}

} // verus!
