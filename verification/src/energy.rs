//! The CCD cost of energy under the chain's exchange rates, as
//! `ChainParameters::ccd_cost` of concordium-rust-sdk computes it.
use vstd::prelude::*;
use vstd::arithmetic::div_mod::{
    lemma_add_mod_noop, lemma_fundamental_div_mod, lemma_fundamental_div_mod_converse,
    lemma_mod_bound, lemma_mul_mod_noop,
};

verus! {

/// An exchange rate `numerator / denominator`.
#[derive(Clone, Copy, Debug, PartialEq, Eq, Structural)]
pub struct ExchangeRate {
    pub numerator: u64,
    pub denominator: u64,
}

/// The exchange rates of the chain parameters that price energy.
#[derive(Clone, Copy, Debug, PartialEq, Eq, Structural)]
pub struct EnergyRates {
    pub euro_per_energy: ExchangeRate,
    pub micro_ccd_per_euro: ExchangeRate,
}

impl EnergyRates {
    /// The chain never holds an exchange rate with a zero denominator.
    pub open spec fn wf(self) -> bool {
        &&& self.euro_per_energy.denominator > 0
        &&& self.micro_ccd_per_euro.denominator > 0
    }

    /// Micro CCD per energy, numerator.
    pub open spec fn numer(self) -> nat {
        (self.micro_ccd_per_euro.numerator * self.euro_per_energy.numerator) as nat
    }

    /// Micro CCD per energy, denominator.
    pub open spec fn denom(self) -> nat {
        (self.micro_ccd_per_euro.denominator * self.euro_per_energy.denominator) as nat
    }
}

/// `a / b` rounded up.
pub open spec fn ceil_div(a: nat, b: nat) -> nat
    recommends
        b > 0,
{
    ((a + b - 1) / (b as int)) as nat
}

/// The CCD cost in micro CCD of `energy`: the energy times the micro CCD per
/// energy, rounded up, and reduced modulo `u64::MAX` as the node does.
pub open spec fn ccd_cost_of(rates: EnergyRates, energy: nat) -> nat {
    ceil_div(energy * rates.numer(), rates.denom()) % (u64::MAX as nat)
}

proof fn lemma_u64_product_fits(x: u64, y: u64)
    ensures
        (x as int) * (y as int) <= 0xFFFF_FFFF_FFFF_FFFE_0000_0000_0000_0001int,
{
    assert((x as int) * (y as int) <= 0xFFFF_FFFF_FFFF_FFFFint * 0xFFFF_FFFF_FFFF_FFFFint) by (nonlinear_arith)
        requires
            0 <= x <= 0xFFFF_FFFF_FFFF_FFFFint,
            0 <= y <= 0xFFFF_FFFF_FFFF_FFFFint,
    ;
}

proof fn lemma_mul_le(a: int, b: int, c: int)
    requires
        0 <= a,
        b <= c,
    ensures
        a * b <= a * c,
{
    assert(a * b <= a * c) by (nonlinear_arith)
        requires
            0 <= a,
            b <= c,
    ;
}

/// From `e * r == q * d + rem + m * (a * d + b)` with `r < d`: `q <= e`, and
/// `a < e` while bits remain.
proof fn lemma_loop_bounds(e: int, r: int, d: int, q: int, rem: int, m: int, a: int, b: int)
    requires
        e * r == q * d + rem + m * (a * d + b),
        0 <= r < d,
        0 <= e,
        0 <= q,
        0 <= rem,
        0 <= m <= e,
        0 <= a,
        0 <= b,
    ensures
        q <= e,
        m > 0 ==> a < e,
{
    assert(0 <= m * (a * d + b)) by (nonlinear_arith)
        requires
            0 <= m,
            0 <= a * d + b,
    ;
    assert(0 <= a * d) by (nonlinear_arith)
        requires
            0 <= a,
            0 <= d,
    ;
    lemma_mul_le(e, r, d);
    assert(q <= e) by (nonlinear_arith)
        requires
            q * d <= e * d,
            d > 0,
    ;
    if m > 0 {
        assert(m * (a * d + b) >= a * d) by (nonlinear_arith)
            requires
                m >= 1,
                a * d + b >= a * d,
                a * d >= 0,
        ;
        lemma_mul_le(e, r, d - 1);
        assert(e * (d - 1) == e * d - e) by (nonlinear_arith);
        assert(a < e) by (nonlinear_arith)
            requires
                a * d <= e * d - e,
                e >= 1,
                d > 0,
                0 <= a,
        ;
    }
}

/// `(e * r) / d` and `(e * r) % d` for 64-bit `e` and 128-bit `r < d`, whose
/// product may exceed 128 bits: the product is built one bit of `e` at a time.
fn mul_div_mod(e: u64, r: u128, d: u128) -> (res: (u128, u128))
    requires
        r < d,
    ensures
        e * r == res.0 * d + res.1,
        res.1 < d,
        res.0 <= e,
{
    let ghost ei = e as int;
    let ghost ri = r as int;
    let ghost di = d as int;
    // acc = q * d + rem holds the product with the bits of e consumed so far;
    // cur = a * d + b is r times the weight of the next bit.
    let mut q: u128 = 0;
    let mut rem: u128 = 0;
    let mut a: u128 = 0;
    let mut b: u128 = r;
    let mut m: u64 = e;
    while m > 0
        invariant
            ei * ri == (q as int) * di + (rem as int) + (m as int) * ((a as int) * di + (b as int)),
            rem < d,
            b < d,
            r < d,
            ei == e,
            ri == r,
            di == d,
            q <= e,
            m <= e,
            m > 0 ==> a < e,
        decreases m,
    {
        let ghost m0 = m as int;
        let ghost q0 = q as int;
        let ghost rem0 = rem as int;
        let ghost a0 = a as int;
        let ghost b0 = b as int;
        let ghost cur = a0 * di + b0;
        let bit = m % 2;
        if bit == 1 {
            if rem >= d - b {
                rem = rem - (d - b);
                q = q + a + 1;
                assert((q as int) * di == q0 * di + a0 * di + di) by (nonlinear_arith)
                    requires
                        q as int == q0 + a0 + 1,
                ;
            } else {
                rem = rem + b;
                q = q + a;
                assert((q as int) * di == q0 * di + a0 * di) by (nonlinear_arith)
                    requires
                        q as int == q0 + a0,
                ;
            }
            assert((q as int) * di + (rem as int) == q0 * di + rem0 + cur);
        }
        if b >= d - b {
            b = b - (d - b);
            a = 2 * a + 1;
            assert((a as int) * di == 2 * (a0 * di) + di) by (nonlinear_arith)
                requires
                    a as int == 2 * a0 + 1,
            ;
        } else {
            b = b + b;
            a = 2 * a;
            assert((a as int) * di == 2 * (a0 * di)) by (nonlinear_arith)
                requires
                    a as int == 2 * a0,
            ;
        }
        assert((a as int) * di + (b as int) == 2 * cur);
        m = m / 2;
        assert(m0 == 2 * (m as int) + (bit as int));
        assert((q as int) * di + (rem as int) == q0 * di + rem0 + (bit as int) * cur);
        assert(ei * ri == (q as int) * di + (rem as int) + (m as int) * ((a as int) * di + (b as int))) by (nonlinear_arith)
            requires
                ei * ri == q0 * di + rem0 + m0 * cur,
                (q as int) * di + (rem as int) == q0 * di + rem0 + (bit as int) * cur,
                (a as int) * di + (b as int) == 2 * cur,
                m0 == 2 * (m as int) + (bit as int),
        ;
        proof {
            lemma_loop_bounds(ei, ri, di, q as int, rem as int, m as int, a as int, b as int);
        }
    }
    (q, rem)
}

/// `ChainParameters::ccd_cost`: the cost in micro CCD of `energy`.
pub fn ccd_cost(rates: &EnergyRates, energy: u64) -> (r: u64)
    requires
        rates.wf(),
    ensures
        r == ccd_cost_of(*rates, energy as nat),
{
    proof {
        lemma_u64_product_fits(rates.micro_ccd_per_euro.numerator, rates.euro_per_energy.numerator);
        lemma_u64_product_fits(rates.micro_ccd_per_euro.denominator, rates.euro_per_energy.denominator);
    }
    let n: u128 = (rates.micro_ccd_per_euro.numerator as u128) * (rates.euro_per_energy.numerator as u128);
    let d: u128 = (rates.micro_ccd_per_euro.denominator as u128) * (rates.euro_per_energy.denominator as u128);
    assert(d > 0) by (nonlinear_arith)
        requires
            rates.micro_ccd_per_euro.denominator > 0,
            rates.euro_per_energy.denominator > 0,
            d == rates.micro_ccd_per_euro.denominator * rates.euro_per_energy.denominator,
    ;
    let whole = n / d;
    let frac = n % d;
    let (hq, hr) = mul_div_mod(energy, frac, d);
    let carry: u128 = if hr > 0 { 1 } else { 0 };
    let modulus: u128 = 0xFFFF_FFFF_FFFF_FFFFu128;
    let em = energy as u128 % modulus;
    let wm = whole % modulus;
    proof {
        lemma_u64_product_fits(em as u64, wm as u64);
    }
    let a = ((energy as u128 % modulus) * (whole % modulus)) % modulus;
    let total = (a + hq + carry) % modulus;
    proof {
        let e = energy as int;
        let ni = n as int;
        let di = d as int;
        let wi = whole as int;
        let fi = frac as int;
        lemma_fundamental_div_mod(ni, di);
        assert(ni == di * wi + fi);
        // e * n = (e * whole + hq) * d + hr
        assert(e * ni == (e * wi + (hq as int)) * di + (hr as int)) by (nonlinear_arith)
            requires
                ni == di * wi + fi,
                e * fi == (hq as int) * di + (hr as int),
        ;
        // rounding up adds one exactly when the remainder is not zero
        let x = e * ni + di - 1;
        let k = e * wi + (hq as int) + (carry as int);
        let t = if hr > 0 { (hr as int) - 1 } else { di - 1 };
        assert(x == k * di + t) by (nonlinear_arith)
            requires
                x == e * ni + di - 1,
                e * ni == (e * wi + (hq as int)) * di + (hr as int),
                k == e * wi + (hq as int) + (carry as int),
                t == (if hr > 0 { (hr as int) - 1 } else { di - 1 }),
                carry as int == (if hr > 0 { 1int } else { 0int }),
        ;
        lemma_fundamental_div_mod_converse(x, di, k, t);
        assert(ceil_div((e * (rates.numer() as int)) as nat, rates.denom()) == k);
        let mi = modulus as int;
        lemma_mul_mod_noop(e, wi, mi);
        assert(((e % mi) * (wi % mi)) % mi == (e * wi) % mi);
        lemma_add_mod_noop(e * wi, (hq as int) + (carry as int), mi);
        lemma_mod_bound(a as int, mi);
        lemma_mod_bound((hq as int) + (carry as int), mi);
        lemma_add_mod_noop(a as int, (hq as int) + (carry as int), mi);
        lemma_mod_bound(a as int + (hq as int) + (carry as int), mi);
    }
    total as u64
}

/// Where the cost does not wrap around, it is the least amount of micro CCD
/// that pays for the energy: it covers the energy's price, and one micro CCD
/// less would not.
pub proof fn lemma_ccd_cost_covers_price(rates: EnergyRates, energy: nat)
    requires
        rates.wf(),
        ceil_div(energy * rates.numer(), rates.denom()) < u64::MAX,
    ensures
        ccd_cost_of(rates, energy) * rates.denom() >= energy * rates.numer(),
        energy * rates.numer() > 0 ==> (ccd_cost_of(rates, energy) - 1) * rates.denom() < energy * rates.numer(),
{
    let a = (energy * rates.numer()) as int;
    let b = rates.denom() as int;
    assert(b > 0) by (nonlinear_arith)
        requires
            rates.micro_ccd_per_euro.denominator > 0,
            rates.euro_per_energy.denominator > 0,
            b == rates.micro_ccd_per_euro.denominator * rates.euro_per_energy.denominator,
    ;
    let c = (a + b - 1) / b;
    lemma_fundamental_div_mod(a + b - 1, b);
    lemma_mod_bound(a + b - 1, b);
    assert(ccd_cost_of(rates, energy) == c);
    assert(c * b >= a) by (nonlinear_arith)
        requires
            a + b - 1 == b * c + (a + b - 1) % b,
            (a + b - 1) % b < b,
    ;
    if a > 0 {
        assert((c - 1) * b < a) by (nonlinear_arith)
            requires
                a + b - 1 == b * c + (a + b - 1) % b,
                0 <= (a + b - 1) % b,
        ;
    }
}

} // verus!
