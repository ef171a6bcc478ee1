use vstd::prelude::*;

verus! {

/// Number of fractional digits that a `DecimalType` holds exactly.
pub const SCALE_DIGITS: u32 = 4;

/// Whether an exact amount, counted in ten-thousandths, can be stored.
pub open spec fn fits(v: int) -> bool {
    i128::MIN <= v <= i128::MAX
}

/// `10^(4 - scale)`: how many ten-thousandths one step of the last digit of a
/// number with `scale` fractional digits is worth.
pub open spec fn unit_factor(scale: u32) -> int
    recommends
        scale <= SCALE_DIGITS,
{
    if scale == 0 {
        10000
    } else if scale == 1 {
        1000
    } else if scale == 2 {
        100
    } else if scale == 3 {
        10
    } else {
        1
    }
}

/// An exact signed decimal with four fractional digits, stored as a count of
/// ten-thousandths.
#[derive(Clone, Copy, Debug, PartialEq, Eq, Structural, PartialOrd, Ord, Hash)]
pub struct DecimalType(pub i128);

impl View for DecimalType {
    type V = int;

    /// The amount in ten-thousandths.
    open spec fn view(&self) -> int {
        self.0 as int
    }
}

impl DecimalType {
    /// The decimal `num / 10^scale`, for at most four fractional digits.
    pub fn new(num: i64, scale: u32) -> (r: DecimalType)
        requires
            scale <= SCALE_DIGITS,
        ensures
            r@ == num as int * unit_factor(scale),
    {
        let factor: i128 = if scale == 0 {
            10000
        } else if scale == 1 {
            1000
        } else if scale == 2 {
            100
        } else if scale == 3 {
            10
        } else {
            1
        };
        assert(i64::MIN as int * 10000 <= num as int * factor <= i64::MAX as int * 10000)
            by (nonlinear_arith)
            requires
                1 <= factor <= 10000,
                i64::MIN <= num <= i64::MAX,
        ;
        DecimalType(num as i128 * factor)
    }

    /// The amount zero.
    pub fn zero() -> (r: DecimalType)
        ensures
            r@ == 0,
    {
        DecimalType(0)
    }

    /// The amount as a count of ten-thousandths.
    pub fn units(&self) -> (r: i128)
        ensures
            r as int == self@,
    {
        self.0
    }

    /// The exact sum of two amounts.
    pub fn add(self, other: DecimalType) -> (r: DecimalType)
        requires
            fits(self@ + other@),
        ensures
            r@ == self@ + other@,
    {
        DecimalType(self.0 + other.0)
    }

    /// Adds `other` in place.
    pub fn add_assign(&mut self, other: DecimalType)
        requires
            fits(old(self)@ + other@),
        ensures
            final(self)@ == old(self)@ + other@,
    {
        *self = DecimalType(self.0 + other.0);
    }

    /// The exact difference of two amounts.
    pub fn sub(self, other: DecimalType) -> (r: DecimalType)
        requires
            fits(self@ - other@),
        ensures
            r@ == self@ - other@,
    {
        DecimalType(self.0 - other.0)
    }

    /// Subtracts `other` in place.
    pub fn sub_assign(&mut self, other: DecimalType)
        requires
            fits(old(self)@ - other@),
        ensures
            final(self)@ == old(self)@ - other@,
    {
        *self = DecimalType(self.0 - other.0);
    }

    /// The sum, or `None` when it cannot be stored.
    pub fn checked_add(self, other: DecimalType) -> (r: Option<DecimalType>)
        ensures
            r is Some <==> fits(self@ + other@),
            r is Some ==> r->0@ == self@ + other@,
    {
        match self.0.checked_add(other.0) {
            Some(v) => Some(DecimalType(v)),
            None => None,
        }
    }

    /// The difference, or `None` when it cannot be stored.
    pub fn checked_sub(self, other: DecimalType) -> (r: Option<DecimalType>)
        ensures
            r is Some <==> fits(self@ - other@),
            r is Some ==> r->0@ == self@ - other@,
    {
        match self.0.checked_sub(other.0) {
            Some(v) => Some(DecimalType(v)),
            None => None,
        }
    }

    /// Whether `self` is strictly smaller than `other`.
    pub fn less_than(&self, other: &DecimalType) -> (r: bool)
        ensures
            r == (self@ < other@),
    {
        self.0 < other.0
    }
}

} // verus!
