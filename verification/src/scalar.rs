//! Exact rational numbers: the numeric domain of the shading pipeline.
//!
//! A [`Scalar`] is a fraction of two machine integers that is never rounded.
//! Contracts speak of its value as a mathematical real number; the size of
//! numerator and denominator is tracked by [`Scalar::magnitude`] so that every
//! operation can say when it stays inside the machine's range.

use vstd::prelude::*;

verus! {

/// The largest numerator or denominator a [`Scalar`] may hold.
pub const SCALAR_MAX: i128 = 0x7fff_ffff_ffff_ffff_ffff_ffff_ffff_ffff;

/// A fraction `num / den` with a positive denominator.
#[derive(Clone, Copy, Debug)]
pub struct Scalar {
    pub num: i128,
    pub den: i128,
}

/// The product of two integers as a real number is the product of the reals.
pub proof fn lemma_real_of_product(a: int, b: int)
    ensures
        (a * b) as real == a as real * b as real,
{
    assert((a * b) as real == a as real * b as real) by (nonlinear_arith);
}

/// Bounds on two factors bound their product.
pub proof fn lemma_product_bound(a: int, b: int, x: int, y: int)
    requires
        -x <= a <= x,
        -y <= b <= y,
    ensures
        -(x * y) <= a * b <= x * y,
{
    assert(-(x * y) <= a * b <= x * y) by (nonlinear_arith)
        requires
            -x <= a <= x,
            -y <= b <= y,
    ;
}

/// A number over one is itself.
pub proof fn lemma_over_one(a: real)
    ensures
        a / 1real == a,
{
    assert(a / 1real == a) by (nonlinear_arith);
}

/// The product of two positive integers is positive.
pub proof fn lemma_positive_product(a: int, b: int)
    requires
        0 < a,
        0 < b,
    ensures
        0 < a * b,
{
    assert(0 < a * b) by (nonlinear_arith)
        requires
            0 < a,
            0 < b,
    ;
}

impl View for Scalar {
    type V = real;

    open spec fn view(&self) -> real {
        self.num as real / self.den as real
    }
}

impl Scalar {
    /// The denominator is positive and the numerator can be negated.
    pub open spec fn wf(self) -> bool {
        0 < self.den && -SCALAR_MAX <= self.num
    }

    /// The larger of the numerator's absolute value and the denominator.
    pub open spec fn magnitude(self) -> int {
        let n: int = if self.num < 0 { -self.num } else { self.num as int };
        if n >= self.den { n } else { self.den as int }
    }

    /// The fraction `num / den`, or nothing where `den` is zero.
    pub fn new(num: i64, den: i64) -> (r: Option<Scalar>)
        ensures
            r is Some <==> den != 0,
            r matches Some(s) ==> s.wf() && s@ == num as real / den as real
                && s.magnitude() <= 0x8000_0000_0000_0000,
    {
        if den == 0 {
            None
        } else if den > 0 {
            Some(Scalar { num: num as i128, den: den as i128 })
        } else {
            let s = Scalar { num: -(num as i128), den: -(den as i128) };
            proof {
                let a = num as real;
                let b = den as real;
                assert((-a) / (-b) == a / b) by (nonlinear_arith)
                    requires
                        b < 0real,
                ;
            }
            Some(s)
        }
    }

    /// The integer `n` as a fraction over one.
    pub fn from_int(n: i64) -> (r: Scalar)
        ensures
            r.wf(),
            r@ == n as real,
            r.num == n,
            r.den == 1,
    {
        proof {
            lemma_over_one(n as real);
        }
        Scalar { num: n as i128, den: 1 }
    }

    /// The number zero.
    pub fn zero() -> (r: Scalar)
        ensures
            r.wf(),
            r@ == 0real,
            r.num == 0,
            r.den == 1,
    {
        Scalar::from_int(0)
    }

    /// The number one.
    pub fn one() -> (r: Scalar)
        ensures
            r.wf(),
            r@ == 1real,
            r.num == 1,
            r.den == 1,
    {
        Scalar::from_int(1)
    }

    /// The number one half.
    pub fn half() -> (r: Scalar)
        ensures
            r.wf(),
            r@ == 1real / 2real,
            r.num == 1,
            r.den == 2,
    {
        Scalar { num: 1, den: 2 }
    }

    /// The numerator.
    pub fn numerator(&self) -> (n: i128)
        ensures
            n == self.num,
    {
        self.num
    }

    /// The denominator.
    pub fn denominator(&self) -> (d: i128)
        ensures
            d == self.den,
    {
        self.den
    }

    /// The sum of two fractions.
    pub fn plus(self, rhs: Scalar) -> (r: Scalar)
        requires
            self.wf(),
            rhs.wf(),
            2 * (self.magnitude() * rhs.magnitude()) <= SCALAR_MAX,
        ensures
            r.wf(),
            r@ == self@ + rhs@,
            r.magnitude() <= 2 * (self.magnitude() * rhs.magnitude()),
    {
        proof {
            lemma_product_bound(self.num as int, rhs.den as int, self.magnitude(), rhs.magnitude());
            lemma_product_bound(rhs.num as int, self.den as int, rhs.magnitude(), self.magnitude());
            lemma_product_bound(self.den as int, rhs.den as int, self.magnitude(), rhs.magnitude());
            lemma_positive_product(self.den as int, rhs.den as int);
            assert(rhs.magnitude() * self.magnitude() == self.magnitude() * rhs.magnitude())
                by (nonlinear_arith);
        }
        let r = Scalar { num: self.num * rhs.den + rhs.num * self.den, den: self.den * rhs.den };
        proof {
            lemma_real_of_product(self.num as int, rhs.den as int);
            lemma_real_of_product(rhs.num as int, self.den as int);
            lemma_real_of_product(self.den as int, rhs.den as int);
            let a = self.num as real;
            let b = self.den as real;
            let c = rhs.num as real;
            let d = rhs.den as real;
            assert((a * d + c * b) / (b * d) == a / b + c / d) by (nonlinear_arith)
                requires
                    b > 0real,
                    d > 0real,
            ;
        }
        r
    }

    /// The difference of two fractions.
    pub fn minus(self, rhs: Scalar) -> (r: Scalar)
        requires
            self.wf(),
            rhs.wf(),
            2 * (self.magnitude() * rhs.magnitude()) <= SCALAR_MAX,
        ensures
            r.wf(),
            r@ == self@ - rhs@,
            r.magnitude() <= 2 * (self.magnitude() * rhs.magnitude()),
    {
        proof {
            lemma_product_bound(self.num as int, rhs.den as int, self.magnitude(), rhs.magnitude());
            lemma_product_bound(rhs.num as int, self.den as int, rhs.magnitude(), self.magnitude());
            lemma_product_bound(self.den as int, rhs.den as int, self.magnitude(), rhs.magnitude());
            lemma_positive_product(self.den as int, rhs.den as int);
            assert(rhs.magnitude() * self.magnitude() == self.magnitude() * rhs.magnitude())
                by (nonlinear_arith);
        }
        let r = Scalar { num: self.num * rhs.den - rhs.num * self.den, den: self.den * rhs.den };
        proof {
            lemma_real_of_product(self.num as int, rhs.den as int);
            lemma_real_of_product(rhs.num as int, self.den as int);
            lemma_real_of_product(self.den as int, rhs.den as int);
            let a = self.num as real;
            let b = self.den as real;
            let c = rhs.num as real;
            let d = rhs.den as real;
            assert((a * d - c * b) / (b * d) == a / b - c / d) by (nonlinear_arith)
                requires
                    b > 0real,
                    d > 0real,
            ;
        }
        r
    }

    /// The product of two fractions.
    pub fn times(self, rhs: Scalar) -> (r: Scalar)
        requires
            self.wf(),
            rhs.wf(),
            self.magnitude() * rhs.magnitude() <= SCALAR_MAX,
        ensures
            r.wf(),
            r@ == self@ * rhs@,
            r.magnitude() <= self.magnitude() * rhs.magnitude(),
    {
        proof {
            lemma_product_bound(self.num as int, rhs.num as int, self.magnitude(), rhs.magnitude());
            lemma_product_bound(self.den as int, rhs.den as int, self.magnitude(), rhs.magnitude());
            lemma_positive_product(self.den as int, rhs.den as int);
        }
        let r = Scalar { num: self.num * rhs.num, den: self.den * rhs.den };
        proof {
            lemma_real_of_product(self.num as int, rhs.num as int);
            lemma_real_of_product(self.den as int, rhs.den as int);
            let a = self.num as real;
            let b = self.den as real;
            let c = rhs.num as real;
            let d = rhs.den as real;
            assert((a * c) / (b * d) == (a / b) * (c / d)) by (nonlinear_arith)
                requires
                    b > 0real,
                    d > 0real,
            ;
        }
        r
    }

    /// The quotient of two fractions, the divisor being positive.
    pub fn over(self, rhs: Scalar) -> (r: Scalar)
        requires
            self.wf(),
            rhs.wf(),
            rhs.num > 0,
            self.magnitude() * rhs.magnitude() <= SCALAR_MAX,
        ensures
            r.wf(),
            r@ == self@ / rhs@,
            r.magnitude() <= self.magnitude() * rhs.magnitude(),
    {
        proof {
            lemma_product_bound(self.num as int, rhs.den as int, self.magnitude(), rhs.magnitude());
            lemma_product_bound(self.den as int, rhs.num as int, self.magnitude(), rhs.magnitude());
            lemma_positive_product(self.den as int, rhs.num as int);
        }
        let r = Scalar { num: self.num * rhs.den, den: self.den * rhs.num };
        proof {
            lemma_real_of_product(self.num as int, rhs.den as int);
            lemma_real_of_product(self.den as int, rhs.num as int);
            let a = self.num as real;
            let b = self.den as real;
            let c = rhs.num as real;
            let d = rhs.den as real;
            assert((a * d) / (b * c) == (a / b) / (c / d)) by (nonlinear_arith)
                requires
                    b > 0real,
                    c > 0real,
                    d > 0real,
            ;
        }
        r
    }

    /// Whether this fraction is at least `rhs`.
    pub fn ge(self, rhs: Scalar) -> (b: bool)
        requires
            self.wf(),
            rhs.wf(),
            self.magnitude() * rhs.magnitude() <= SCALAR_MAX,
        ensures
            b == (self@ >= rhs@),
    {
        proof {
            lemma_product_bound(self.num as int, rhs.den as int, self.magnitude(), rhs.magnitude());
            lemma_product_bound(rhs.num as int, self.den as int, rhs.magnitude(), self.magnitude());
            assert(rhs.magnitude() * self.magnitude() == self.magnitude() * rhs.magnitude())
                by (nonlinear_arith);
            lemma_real_of_product(self.num as int, rhs.den as int);
            lemma_real_of_product(rhs.num as int, self.den as int);
            let a = self.num as real;
            let b = self.den as real;
            let c = rhs.num as real;
            let d = rhs.den as real;
            assert((a * d >= c * b) == (a / b >= c / d)) by (nonlinear_arith)
                requires
                    b > 0real,
                    d > 0real,
            ;
        }
        self.num * rhs.den >= rhs.num * self.den
    }

    /// The larger of two fractions; `self` where they are equal.
    pub fn max(self, rhs: Scalar) -> (r: Scalar)
        requires
            self.wf(),
            rhs.wf(),
            self.magnitude() * rhs.magnitude() <= SCALAR_MAX,
        ensures
            r == (if self@ >= rhs@ { self } else { rhs }),
    {
        if self.ge(rhs) {
            self
        } else {
            rhs
        }
    }

    /// Whether this fraction is at least one.
    pub fn at_least_one(self) -> (b: bool)
        requires
            self.wf(),
        ensures
            b == (self@ >= 1real),
    {
        proof {
            let a = self.num as real;
            let d = self.den as real;
            assert((a >= d) == (a / d >= 1real)) by (nonlinear_arith)
                requires
                    d > 0real,
            ;
        }
        self.num >= self.den
    }

    /// Whether this fraction is at most zero.
    pub fn at_most_zero(self) -> (b: bool)
        requires
            self.wf(),
        ensures
            b == (self@ <= 0real),
    {
        proof {
            let a = self.num as real;
            let d = self.den as real;
            assert((a <= 0real) == (a / d <= 0real)) by (nonlinear_arith)
                requires
                    d > 0real,
            ;
        }
        self.num <= 0
    }

    /// Whether two fractions stand for the same number.
    pub fn same(self, rhs: Scalar) -> (b: bool)
        requires
            self.wf(),
            rhs.wf(),
            self.magnitude() * rhs.magnitude() <= SCALAR_MAX,
        ensures
            b == (self@ == rhs@),
    {
        proof {
            lemma_product_bound(self.num as int, rhs.den as int, self.magnitude(), rhs.magnitude());
            lemma_product_bound(rhs.num as int, self.den as int, rhs.magnitude(), self.magnitude());
            assert(rhs.magnitude() * self.magnitude() == self.magnitude() * rhs.magnitude())
                by (nonlinear_arith);
            lemma_real_of_product(self.num as int, rhs.den as int);
            lemma_real_of_product(rhs.num as int, self.den as int);
            let a = self.num as real;
            let b = self.den as real;
            let c = rhs.num as real;
            let d = rhs.den as real;
            assert((a * d == c * b) == (a / b == c / d)) by (nonlinear_arith)
                requires
                    b > 0real,
                    d > 0real,
            ;
        }
        self.num * rhs.den == rhs.num * self.den
    }
}

/// A pair of fractions: a point or a size in the plane.
#[derive(Clone, Copy, Debug)]
pub struct Vec2 {
    pub x: Scalar,
    pub y: Scalar,
}

impl Vec2 {
    /// Both components are well formed.
    pub open spec fn wf(self) -> bool {
        self.x.wf() && self.y.wf()
    }

    /// The larger of the two components' magnitudes.
    pub open spec fn magnitude(self) -> int {
        if self.x.magnitude() >= self.y.magnitude() {
            self.x.magnitude()
        } else {
            self.y.magnitude()
        }
    }

    /// The point `(x, y)`.
    pub fn new(x: Scalar, y: Scalar) -> (r: Vec2)
        ensures
            r.x == x,
            r.y == y,
    {
        Vec2 { x, y }
    }

    /// The point with the integer coordinates `(x, y)`.
    pub fn from_ints(x: i64, y: i64) -> (r: Vec2)
        ensures
            r.wf(),
            r.x@ == x as real,
            r.y@ == y as real,
            r.x.num == x,
            r.x.den == 1,
            r.y.num == y,
            r.y.den == 1,
    {
        Vec2 { x: Scalar::from_int(x), y: Scalar::from_int(y) }
    }
}

} // verus!
