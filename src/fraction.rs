//! Exact fractions of bounded integers.
use vstd::prelude::*;

verus! {

/// Bound on the magnitude of a fraction's parts wherever two of them are
/// combined, so that cross products stay well inside `i128`.
pub const PART_LIMIT: i128 = 0x4000_0000_0000_0000;

/// The fraction `num / den`; well formed when `den > 0`.
#[derive(Clone, Copy, Debug, PartialEq, Eq, Structural)]
pub struct Fraction {
    pub num: i128,
    pub den: i128,
}

impl Fraction {
    /// A positive denominator.
    pub open spec fn wf(self) -> bool {
        self.den > 0
    }

    /// Well formed, with both parts within `PART_LIMIT`.
    pub open spec fn small(self) -> bool {
        &&& self.wf()
        &&& -PART_LIMIT <= self.num <= PART_LIMIT
        &&& self.den <= PART_LIMIT
    }

    /// This fraction equals `n / d` (for `d > 0`).
    pub open spec fn denotes(self, n: int, d: int) -> bool {
        self.wf() && self.num * d == n * self.den
    }

    /// Two well-formed fractions with the same value.
    pub open spec fn same_value(self, other: Fraction) -> bool {
        other.wf() && self.denotes(other.num as int, other.den as int)
    }

    /// A strictly positive value.
    pub open spec fn is_positive(self) -> bool {
        self.wf() && self.num > 0
    }

    /// `self - other` as computed: over the product of the denominators.
    pub open spec fn sub_spec(self, other: Fraction) -> Fraction {
        Fraction {
            num: (self.num * other.den - other.num * self.den) as i128,
            den: (self.den * other.den) as i128,
        }
    }

    /// `self * other` as computed: parts multiplied.
    pub open spec fn mul_spec(self, other: Fraction) -> Fraction {
        Fraction { num: (self.num * other.num) as i128, den: (self.den * other.den) as i128 }
    }

    /// The difference `self - other`, over the product of the denominators.
    pub fn sub(self, other: Fraction) -> (r: Fraction)
        requires
            self.small(),
            other.small(),
        ensures
            r.wf(),
            r == self.sub_spec(other),
            r.num == self.num * other.den - other.num * self.den,
            r.den == self.den * other.den,
            r.denotes(
                self.num * other.den - other.num * self.den,
                self.den * other.den,
            ),
    {
        proof {
            lemma_part_product(self.num as int, other.den as int);
            lemma_part_product(other.num as int, self.den as int);
            lemma_part_product(self.den as int, other.den as int);
            assert(self.den * other.den > 0) by (nonlinear_arith)
                requires self.den > 0, other.den > 0;
        }
        Fraction {
            num: self.num * other.den - other.num * self.den,
            den: self.den * other.den,
        }
    }

    /// The product `self * other`.
    pub fn mul(self, other: Fraction) -> (r: Fraction)
        requires
            self.small(),
            other.small(),
        ensures
            r.wf(),
            r == self.mul_spec(other),
            r.num == self.num * other.num,
            r.den == self.den * other.den,
            r.denotes(self.num * other.num, self.den * other.den),
    {
        proof {
            lemma_part_product(self.num as int, other.num as int);
            lemma_part_product(self.den as int, other.den as int);
            assert(self.den * other.den > 0) by (nonlinear_arith)
                requires self.den > 0, other.den > 0;
        }
        Fraction { num: self.num * other.num, den: self.den * other.den }
    }

    /// The fraction `num / den` with its sign moved to the numerator; `None`
    /// when `den` is zero.
    pub fn new(num: i32, den: i32) -> (r: Option<Fraction>)
        ensures
            r is None <==> den == 0,
            den != 0 ==> r == Some(fraction_of(num, den)),
            r matches Some(f) ==> f.small() && f.denotes(num as int, den as int),
            r matches Some(f) ==> f.num == (if den > 0 { num as int } else { -num }),
            r matches Some(f) ==> f.den == (if den > 0 { den as int } else { -den }),
    {
        if den == 0 {
            None
        } else if den > 0 {
            Some(Fraction { num: num as i128, den: den as i128 })
        } else {
            proof {
                let (n, d) = (num as int, den as int);
                assert((-n) * d == n * (-d)) by (nonlinear_arith);
            }
            Some(Fraction { num: -(num as i128), den: -(den as i128) })
        }
    }
}

/// The fraction `num / den` (for `den != 0`) with a positive denominator.
pub open spec fn fraction_of(num: i32, den: i32) -> Fraction {
    if den > 0 {
        Fraction { num: num as i128, den: den as i128 }
    } else {
        Fraction { num: (-num) as i128, den: (-den) as i128 }
    }
}

/// The product of two parts within `PART_LIMIT` is within its square, which
/// leaves room in `i128` for a sum of two such products.
proof fn lemma_part_product(x: int, y: int)
    requires
        -PART_LIMIT <= x <= PART_LIMIT,
        -PART_LIMIT <= y <= PART_LIMIT,
    ensures
        -PART_LIMIT * PART_LIMIT <= x * y <= PART_LIMIT * PART_LIMIT,
{
    let l = PART_LIMIT as int;
    assert(-l * l <= x * y <= l * l) by (nonlinear_arith)
        requires -l <= x <= l, -l <= y <= l, l > 0;
}

} // verus!
