//! Fixed-point arithmetic in the 16.16 format: a value is its raw 32-bit
//! integer divided by 65536.

use vstd::prelude::*;

verus! {

/// Raw value of 1.0.
pub const SCALE: i32 = 65536;

/// A 16.16 fixed-point number.
#[derive(Debug, Clone, Copy, PartialEq, Eq, Structural)]
pub struct Fixed16(i32);

/// Raw value of the product of raw values `a` and `b`: the product scaled
/// down, rounded towards minus infinity and truncated to 32 bits.
pub open spec fn mul_raw(a: i32, b: i32) -> i32 {
    ((a * b) / 65536) as i32
}

impl Fixed16 {
    /// The raw integer.
    pub closed spec fn raw_value(self) -> i32 {
        self.0
    }

    /// The number with raw integer `raw`.
    pub fn from_raw(raw: i32) -> (r: Self)
        ensures
            r.raw_value() == raw,
    {
        Fixed16(raw)
    }

    /// The raw integer.
    pub fn raw(self) -> (r: i32)
        ensures
            r == self.raw_value(),
    {
        self.0
    }

    /// The product, rounded down to the format's resolution; a product out
    /// of range wraps to 32 bits.
    pub fn mul(self, other: Self) -> (r: Self)
        ensures
            r.raw_value() == mul_raw(self.raw_value(), other.raw_value()),
    {
        let a = self.0 as i64;
        let b = other.0 as i64;
        assert(i64::MIN <= a * b <= i64::MAX) by (nonlinear_arith)
            requires
                -0x8000_0000 <= a < 0x8000_0000,
                -0x8000_0000 <= b < 0x8000_0000,
        ;
        let p: i64 = a * b;
        let shifted: i64 = p >> 16;
        assert(shifted == p / 65536) by (bit_vector)
            requires
                shifted == p >> 16,
        ;
        Fixed16(#[verifier::truncate] (shifted as i32))
    }

    /// The sum.
    pub fn add(self, other: Self) -> (r: Self)
        requires
            i32::MIN <= self.raw_value() + other.raw_value() <= i32::MAX,
        ensures
            r.raw_value() == self.raw_value() + other.raw_value(),
    {
        Fixed16(self.0 + other.0)
    }
}

/// A 2x2 matrix of fixed-point numbers, row by row.
#[derive(Debug, Clone, Copy, PartialEq, Eq)]
pub struct Matrix2x2Fixed {
    pub data: [Fixed16; 4],
}

/// The product of the matrix with raw entries `m` and the vector with raw
/// entries `x` and `y` does not overflow in its sums.
pub open spec fn product_fits(m: Seq<Fixed16>, x: i32, y: i32) -> bool {
    &&& i32::MIN <= mul_raw(m[0].raw_value(), x) + mul_raw(m[1].raw_value(), y) <= i32::MAX
    &&& i32::MIN <= mul_raw(m[2].raw_value(), x) + mul_raw(m[3].raw_value(), y) <= i32::MAX
}

impl Matrix2x2Fixed {
    /// The matrix with rows `(a, b)` and `(c, d)`.
    pub fn from_fixed(a: Fixed16, b: Fixed16, c: Fixed16, d: Fixed16) -> (r: Self)
        ensures
            r.data@ == seq![a, b, c, d],
    {
        let r = Matrix2x2Fixed { data: [a, b, c, d] };
        assert(r.data@ =~= seq![a, b, c, d]);
        r
    }

    /// Whether the product of the matrix with the vector `(x, y)` can be
    /// taken without a sum leaving 32 bits.
    pub fn product_fits(&self, x: Fixed16, y: Fixed16) -> (r: bool)
        ensures
            r == product_fits(self.data@, x.raw_value(), y.raw_value()),
    {
        let a = self.data[0].mul(x).raw() as i64 + self.data[1].mul(y).raw() as i64;
        let b = self.data[2].mul(x).raw() as i64 + self.data[3].mul(y).raw() as i64;
        i32::MIN as i64 <= a && a <= i32::MAX as i64 && i32::MIN as i64 <= b && b <= i32::MAX as i64
    }

    /// The product of the matrix with the vector `(x, y)`.
    pub fn multiply_fixed(&self, x: Fixed16, y: Fixed16) -> (r: (Fixed16, Fixed16))
        requires
            product_fits(self.data@, x.raw_value(), y.raw_value()),
        ensures
            r.0.raw_value() == mul_raw(self.data@[0].raw_value(), x.raw_value()) + mul_raw(
                self.data@[1].raw_value(),
                y.raw_value(),
            ),
            r.1.raw_value() == mul_raw(self.data@[2].raw_value(), x.raw_value()) + mul_raw(
                self.data@[3].raw_value(),
                y.raw_value(),
            ),
    {
        let result_x = self.data[0].mul(x).add(self.data[1].mul(y));
        let result_y = self.data[2].mul(x).add(self.data[3].mul(y));
        (result_x, result_y)
    }
}

/// Multiplying by one gives the number back.
pub proof fn lemma_mul_by_one(a: i32)
    ensures
        mul_raw(a, SCALE) == a,
{
    assert((a * 65536) / 65536 == a) by (nonlinear_arith);
}

/// Multiplication is commutative, overflow included.
pub proof fn lemma_mul_commutes(a: i32, b: i32)
    ensures
        mul_raw(a, b) == mul_raw(b, a),
{
    assert(a * b == b * a) by (nonlinear_arith);
}

} // verus!
