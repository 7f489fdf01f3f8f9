use vstd::prelude::*;

verus! {

/// The arithmetic that the algebra layer is generic over.
///
/// Each operation has a specification-level twin (`spec_add` for `add`, and
/// so on), and every executable method promises to return exactly what its
/// twin describes.  The `law_*` obligations are the little algebra that the
/// matrix contracts lean on: adding zero and multiplying by one are
/// identities, multiplying by zero gives zero, and a nonzero value divided
/// by itself gives one.
pub trait Scalar: Sized + Copy {
    spec fn spec_zero() -> Self;

    spec fn spec_one() -> Self;

    spec fn spec_add(self, rhs: Self) -> Self;

    spec fn spec_mul(self, rhs: Self) -> Self;

    spec fn spec_div(self, rhs: Self) -> Self;

    spec fn spec_neg(self) -> Self;

    /// The scalar standing for the count `n`, used to normalize reductions.
    spec fn spec_of_count(n: usize) -> Self;

    proof fn law_add_zero(x: Self)
        ensures
            x.spec_add(Self::spec_zero()) == x,
            Self::spec_zero().spec_add(x) == x,
    ;

    proof fn law_mul_one(x: Self)
        ensures
            Self::spec_one().spec_mul(x) == x,
            x.spec_mul(Self::spec_one()) == x,
    ;

    proof fn law_mul_zero(x: Self)
        ensures
            Self::spec_zero().spec_mul(x) == Self::spec_zero(),
            x.spec_mul(Self::spec_zero()) == Self::spec_zero(),
    ;

    proof fn law_div_self(x: Self)
        requires
            x != Self::spec_zero(),
        ensures
            x.spec_div(x) == Self::spec_one(),
    ;

    fn zero() -> (r: Self)
        ensures
            r == Self::spec_zero(),
    ;

    fn one() -> (r: Self)
        ensures
            r == Self::spec_one(),
    ;

    fn add(self, rhs: Self) -> (r: Self)
        ensures
            r == self.spec_add(rhs),
    ;

    fn mul(self, rhs: Self) -> (r: Self)
        ensures
            r == self.spec_mul(rhs),
    ;

    fn div(self, rhs: Self) -> (r: Self)
        ensures
            r == self.spec_div(rhs),
    ;

    fn neg(self) -> (r: Self)
        ensures
            r == self.spec_neg(),
    ;

    fn of_count(n: usize) -> (r: Self)
        ensures
            r == Self::spec_of_count(n),
    ;

    fn is_zero(&self) -> (b: bool)
        ensures
            b == (*self == Self::spec_zero()),
    ;
}

/// The representation of 1 in `Fx`: values are stored in units of 1 / 2^32.
pub const FX_ONE: i64 = 0x1_0000_0000;

/// Clamping into the `i64` range; out-of-range results saturate.
pub open spec fn sat64(i: int) -> i64 {
    if i > i64::MAX as int {
        i64::MAX
    } else if i < i64::MIN as int {
        i64::MIN
    } else {
        i as i64
    }
}

/// The absolute value, as a plain integer.
pub open spec fn abs_i(n: int) -> int {
    if n < 0 {
        -n
    } else {
        n
    }
}

/// Integer division rounding toward zero (`d` must be nonzero).
pub open spec fn div_rtz(n: int, d: int) -> int
    recommends
        d != 0,
{
    let q = abs_i(n) / abs_i(d);
    if (n < 0) != (d < 0) {
        -q
    } else {
        q
    }
}

/// A fixed-point number in Q32.32: the stored `v` counts units of 1 / 2^32.
///
/// Arithmetic is exact up to the final rounding toward zero and saturates at
/// the ends of the `i64` range, so every operation is total and the `Scalar`
/// laws hold without side conditions.  Division by zero saturates in the
/// direction of the dividend's sign (and gives zero for zero), mirroring a
/// signed infinity as closely as a bounded scale allows.
#[derive(Clone, Copy, Debug, PartialEq, Eq, Structural)]
pub struct Fx {
    pub v: i64,
}

impl Fx {
    /// The fixed-point number standing for the integer `n`.
    pub fn from_int(n: i64) -> (r: Self)
        ensures
            r == (Fx { v: sat64(n * FX_ONE) }),
    {
        assert((n as int) * (FX_ONE as int) <= i128::MAX && i128::MIN <= (n as int) * (
        FX_ONE as int)) by (nonlinear_arith)
            requires
                i64::MIN <= n <= i64::MAX,
        ;
        let wide: i128 = (n as i128) * (FX_ONE as i128);
        Fx { v: clamp_i128(wide) }
    }
}

fn clamp_i128(s: i128) -> (r: i64)
    ensures
        r == sat64(s as int),
{
    if s > i64::MAX as i128 {
        i64::MAX
    } else if s < i64::MIN as i128 {
        i64::MIN
    } else {
        s as i64
    }
}

fn abs_u64(a: i64) -> (r: u64)
    ensures
        r == abs_i(a as int),
{
    if a >= 0 {
        a as u64
    } else {
        (-(a as i128)) as u64
    }
}

/// Signed reassembly of a magnitude: the value `q` (negated when `neg`),
/// clamped into the `i64` range.
fn sign_clamp(q: u128, neg: bool) -> (r: i64)
    ensures
        r == sat64(
            if neg {
                -(q as int)
            } else {
                q as int
            },
        ),
{
    if neg {
        if q >= 9223372036854775808u128 {
            i64::MIN
        } else {
            -(q as i64)
        }
    } else {
        if q > i64::MAX as u128 {
            i64::MAX
        } else {
            q as i64
        }
    }
}

proof fn lemma_abs_mul(a: int, b: int)
    ensures
        abs_i(a * b) == abs_i(a) * abs_i(b),
        ((a < 0) != (b < 0)) ==> a * b <= 0,
        ((a < 0) == (b < 0)) ==> a * b >= 0,
{
    assert(abs_i(a * b) == abs_i(a) * abs_i(b) && (((a < 0) != (b < 0)) ==> a * b <= 0) && (((a < 0)
        == (b < 0)) ==> a * b >= 0)) by (nonlinear_arith);
}

impl Scalar for Fx {
    open spec fn spec_zero() -> Self {
        Fx { v: 0 }
    }

    open spec fn spec_one() -> Self {
        Fx { v: FX_ONE }
    }

    open spec fn spec_add(self, rhs: Self) -> Self {
        Fx { v: sat64(self.v + rhs.v) }
    }

    open spec fn spec_mul(self, rhs: Self) -> Self {
        Fx { v: sat64(div_rtz(self.v * rhs.v, FX_ONE as int)) }
    }

    open spec fn spec_div(self, rhs: Self) -> Self {
        if rhs.v == 0 {
            Fx {
                v: if self.v > 0 {
                    i64::MAX
                } else if self.v < 0 {
                    i64::MIN
                } else {
                    0
                },
            }
        } else {
            Fx { v: sat64(div_rtz(self.v * (FX_ONE as int), rhs.v as int)) }
        }
    }

    open spec fn spec_neg(self) -> Self {
        Fx { v: sat64(-self.v) }
    }

    open spec fn spec_of_count(n: usize) -> Self {
        Fx { v: sat64(n * (FX_ONE as int)) }
    }

    proof fn law_add_zero(x: Self) {
    }

    proof fn law_mul_one(x: Self) {
        lemma_abs_mul(FX_ONE as int, x.v as int);
        lemma_abs_mul(x.v as int, FX_ONE as int);
        assert(abs_i(x.v as int) * (FX_ONE as int) / (FX_ONE as int) == abs_i(x.v as int))
            by (nonlinear_arith);
        assert((FX_ONE as int) * abs_i(x.v as int) == abs_i(x.v as int) * (FX_ONE as int))
            by (nonlinear_arith);
    }

    proof fn law_mul_zero(x: Self) {
        lemma_abs_mul(0, x.v as int);
        lemma_abs_mul(x.v as int, 0);
    }

    proof fn law_div_self(x: Self) {
        lemma_abs_mul(x.v as int, FX_ONE as int);
        assert(abs_i(x.v as int) * (FX_ONE as int) / abs_i(x.v as int) == FX_ONE as int)
            by (nonlinear_arith)
            requires
                abs_i(x.v as int) > 0,
        ;
        assert(abs_i(x.v as int * (FX_ONE as int)) == abs_i(x.v as int) * (FX_ONE as int));
    }

    fn zero() -> (r: Self) {
        Fx { v: 0 }
    }

    fn one() -> (r: Self) {
        Fx { v: FX_ONE }
    }

    fn add(self, rhs: Self) -> (r: Self) {
        let wide: i128 = (self.v as i128) + (rhs.v as i128);
        Fx { v: clamp_i128(wide) }
    }

    fn mul(self, rhs: Self) -> (r: Self) {
        let neg = (self.v < 0) != (rhs.v < 0);
        let au: u128 = abs_u64(self.v) as u128;
        let bu: u128 = abs_u64(rhs.v) as u128;
        assert(au * bu <= u128::MAX) by (nonlinear_arith)
            requires
                au <= 9223372036854775808u128 && bu <= 9223372036854775808u128,
        ;
        let p: u128 = au * bu;
        let q: u128 = p / (FX_ONE as u128);
        proof {
            lemma_abs_mul(self.v as int, rhs.v as int);
        }
        Fx { v: sign_clamp(q, neg) }
    }

    fn div(self, rhs: Self) -> (r: Self) {
        if rhs.v == 0 {
            Fx {
                v: if self.v > 0 {
                    i64::MAX
                } else if self.v < 0 {
                    i64::MIN
                } else {
                    0
                },
            }
        } else {
            let neg = (self.v < 0) != (rhs.v < 0);
            let au: u128 = abs_u64(self.v) as u128;
            assert(au * (FX_ONE as u128) <= u128::MAX) by (nonlinear_arith)
                requires
                    au <= 9223372036854775808u128,
            ;
            let nu: u128 = au * (FX_ONE as u128);
            let du: u128 = abs_u64(rhs.v) as u128;
            let q: u128 = nu / du;
            proof {
                lemma_abs_mul(self.v as int, FX_ONE as int);
            }
            Fx { v: sign_clamp(q, neg) }
        }
    }

    fn neg(self) -> (r: Self) {
        if self.v == i64::MIN {
            Fx { v: i64::MAX }
        } else {
            Fx { v: -self.v }
        }
    }

    fn of_count(n: usize) -> (r: Self) {
        let wide: u128 = (n as u128) * (FX_ONE as u128);
        if wide > i64::MAX as u128 {
            Fx { v: i64::MAX }
        } else {
            Fx { v: wide as i64 }
        }
    }

    fn is_zero(&self) -> (b: bool) {
        self.v == 0
    }
}

} // verus!

