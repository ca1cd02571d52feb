use vstd::prelude::*;
use vstd::arithmetic::div_mod::lemma_fundamental_div_mod;
use vstd::arithmetic::mul::lemma_mul_upper_bound;

verus! {

/// Half of a `u128`: `2^64`.
pub const LIMB: u128 = 0x1_0000_0000_0000_0000;

/// `2^128`, the base of the high half of a wide product.
pub open spec fn wide_base() -> int {
    (LIMB as int) * (LIMB as int)
}

/// The value of a 256-bit number held as a high and a low half.
pub open spec fn wide_value(w: (u128, u128)) -> int {
    w.0 * wide_base() + w.1
}

proof fn lemma_split(x: u128)
    ensures
        x == (x / LIMB) * LIMB + x % LIMB,
        x / LIMB < LIMB,
        x % LIMB < LIMB,
{
    lemma_fundamental_div_mod(x as int, LIMB as int);
}

proof fn lemma_limb_product(a: u128, b: u128)
    requires
        a < LIMB,
        b < LIMB,
    ensures
        a * b <= (LIMB - 1) * (LIMB - 1),
{
    lemma_mul_upper_bound(a as int, (LIMB - 1) as int, b as int, (LIMB - 1) as int);
}

/// The exact product of two `u128`s, as a high and a low half.
pub fn mul_wide(x: u128, y: u128) -> (w: (u128, u128))
    ensures
        wide_value(w) == x * y,
{
    let x0 = x % LIMB;
    let x1 = x / LIMB;
    let y0 = y % LIMB;
    let y1 = y / LIMB;
    proof {
        lemma_split(x);
        lemma_split(y);
        lemma_limb_product(x0, y0);
        lemma_limb_product(x0, y1);
        lemma_limb_product(x1, y0);
        lemma_limb_product(x1, y1);
    }
    let p00 = x0 * y0;
    let p01 = x0 * y1;
    let p10 = x1 * y0;
    let p11 = x1 * y1;
    proof {
        lemma_split(p00);
        lemma_split(p01);
        lemma_split(p10);
        lemma_split(p11);
    }
    let mid = p00 / LIMB + p01 % LIMB + p10 % LIMB;
    proof {
        lemma_split(mid);
    }
    let lo = (mid % LIMB) * LIMB + p00 % LIMB;
    proof {
        let b = LIMB as int;
        assert(x * y == p11 * (b * b) + (p01 + p10) * b + p00) by (nonlinear_arith)
            requires
                x == x1 * b + x0,
                y == y1 * b + y0,
                p00 == x0 * y0,
                p01 == x0 * y1,
                p10 == x1 * y0,
                p11 == x1 * y1,
        ;
        let h = p11 + p01 / LIMB + p10 / LIMB + mid / LIMB;
        assert(x * y == h * (b * b) + lo) by (nonlinear_arith)
            requires
                x * y == p11 * (b * b) + (p01 + p10) * b + p00,
                p00 == (p00 / LIMB) * b + p00 % LIMB,
                p01 == (p01 / LIMB) * b + p01 % LIMB,
                p10 == (p10 / LIMB) * b + p10 % LIMB,
                mid == p00 / LIMB + p01 % LIMB + p10 % LIMB,
                mid == (mid / LIMB) * b + mid % LIMB,
                lo == (mid % LIMB) * b + p00 % LIMB,
                h == p11 + p01 / LIMB + p10 / LIMB + mid / LIMB,
        ;
        assert(x * y <= (b * b - 1) * (b * b - 1)) by (nonlinear_arith)
            requires
                0 <= x < b * b,
                0 <= y < b * b,
        ;
        assert(h < b * b) by (nonlinear_arith)
            requires
                x * y == h * (b * b) + lo,
                x * y <= (b * b - 1) * (b * b - 1),
                0 <= lo,
                b == 0x1_0000_0000_0000_0000int,
        ;
    }
    let hi = p11 + p01 / LIMB + p10 / LIMB + mid / LIMB;
    (hi, lo)
}

/// `p <= q` for two 256-bit numbers given as halves.
fn wide_le(p: (u128, u128), q: (u128, u128)) -> (r: bool)
    ensures
        r == (wide_value(p) <= wide_value(q)),
{
    proof {
        let b = wide_base();
        assert(b == u128::MAX + 1);
        assert((p.0 < q.0) ==> p.0 * b + p.1 < q.0 * b + q.1) by (nonlinear_arith)
            requires
                b == u128::MAX + 1,
                0 <= p.1 < b,
                0 <= q.1,
        ;
        assert((p.0 > q.0) ==> p.0 * b + p.1 > q.0 * b + q.1) by (nonlinear_arith)
            requires
                b == u128::MAX + 1,
                0 <= q.1 < b,
                0 <= p.1,
        ;
    }
    p.0 < q.0 || (p.0 == q.0 && p.1 <= q.1)
}

/// `w + d` for a 256-bit number `w` whose sum with `d` stays below `2^256`.
fn wide_add(w: (u128, u128), d: u128) -> (r: (u128, u128))
    requires
        wide_value(w) + d < wide_base() * wide_base(),
    ensures
        wide_value(r) == wide_value(w) + d,
{
    if w.1 <= u128::MAX - d {
        (w.0, w.1 + d)
    } else {
        assert(w.0 < u128::MAX) by (nonlinear_arith)
            requires
                wide_value(w) + d < wide_base() * wide_base(),
                wide_value(w) == w.0 * wide_base() + w.1,
                w.1 + d > u128::MAX,
                wide_base() == u128::MAX + 1,
        ;
        (w.0 + 1, w.1 - (u128::MAX - d) - 1)
    }
}

/// Whether `amount` is at least `product_1 * product_2 / divisor`, with the
/// product and the quotient exact.
pub fn quotient_at_most(product_1: u128, product_2: u128, divisor: u128, amount: u128) -> (r: bool)
    requires
        divisor > 0,
    ensures
        r == (amount >= (product_1 * product_2) / (divisor as int)),
{
    let p = mul_wide(product_1, product_2);
    let q = mul_wide(amount, divisor);
    proof {
        assert(wide_base() == u128::MAX + 1);
        assert(amount * divisor + (divisor - 1) < wide_base() * wide_base()) by (nonlinear_arith)
            requires
                amount <= u128::MAX,
                1 <= divisor <= u128::MAX,
                wide_base() == u128::MAX + 1,
        ;
    }
    let q2 = wide_add(q, divisor - 1);
    proof {
        let n = product_1 * product_2;
        let m = divisor as int;
        lemma_fundamental_div_mod(n, m);
        let k = n / m;
        assert(0 <= n % m < m);
        assert((amount >= k) == (n <= amount * m + m - 1)) by (nonlinear_arith)
            requires
                n == m * k + n % m,
                0 <= n % m < m,
                m > 0,
        ;
    }
    wide_le(p, q2)
}

} // verus!
