use vstd::prelude::*;

verus! {

/// Whether `x` is a multiple of `m`, with the convention that only zero is a
/// multiple of zero.
pub open spec fn is_multiple(x: int, m: int) -> bool {
    if m == 0 {
        x == 0
    } else {
        x % m == 0
    }
}

/// Whether `n` is a power of two (`1, 2, 4, 8, ...`).
pub open spec fn is_pow2(n: nat) -> bool
    decreases n,
{
    if n == 0 {
        false
    } else if n == 1 {
        true
    } else {
        n % 2 == 0 && is_pow2(n / 2)
    }
}

/// `num_integer::Integer::is_multiple_of` on `usize`.
///
/// The crate computes `value == 0` when `other` is zero and `value % other == 0`
/// otherwise; the contract states exactly that.
#[verifier::external_body]
pub(crate) fn is_multiple_of(value: usize, other: usize) -> (r: bool)
    ensures
        r == is_multiple(value as int, other as int),
{
    num_integer::Integer::is_multiple_of(&value, &other)
}

/// Whether `x` is a power of two.
pub fn is_power_of_two(x: usize) -> (r: bool)
    ensures
        r == is_pow2(x as nat),
{
    if x == 0 {
        return false;
    }
    let mut n = x;
    while n % 2 == 0
        invariant
            n > 0,
            is_pow2(x as nat) == is_pow2(n as nat),
        decreases n,
    {
        n = n / 2;
    }
    n == 1
}

/// `x` rounded up to the next multiple of `m`, divided by `m`: the number of
/// `m`-sized units needed to hold `x` (`usize::div_ceil`).
pub fn div_ceil(x: usize, m: usize) -> (r: usize)
    requires
        m > 0,
    ensures
        r == (x as int + m - 1) / (m as int),
        r as int * m >= x,
        (r as int - 1) * m < x,
{
    let q = x / m;
    proof {
        if x % m != 0 {
            assert(q < usize::MAX) by (nonlinear_arith)
                requires
                    m > 0,
                    x % m != 0,
                    q == x / m,
                    x <= usize::MAX,
            {
                if m == 1 {
                    assert(x % m == 0);
                }
            }
        }
    }
    let r = if x % m == 0 {
        q
    } else {
        q + 1
    };
    proof {
        vstd::arithmetic::div_mod::lemma_fundamental_div_mod(x as int, m as int);
        vstd::arithmetic::div_mod::lemma_fundamental_div_mod(x as int + m - 1, m as int);
        assert(r == (x as int + m - 1) / (m as int)) by (nonlinear_arith)
            requires
                m > 0,
                x == m * (x / m) + x % m,
                0 <= x % m < m,
                x as int + m - 1 == m * ((x as int + m - 1) / (m as int)) + (x as int + m
                    - 1) % (m as int),
                0 <= (x as int + m - 1) % (m as int) < m,
                q == x / m,
                r == if x % m == 0 {
                    q as int
                } else {
                    q + 1
                },
        ;
        assert(r as int * m >= x && (r as int - 1) * m < x) by (nonlinear_arith)
            requires
                m > 0,
                x == m * (x / m) + x % m,
                0 <= x % m < m,
                q == x / m,
                r == if x % m == 0 {
                    q as int
                } else {
                    q + 1
                },
        ;
    }
    r
}

} // verus!
