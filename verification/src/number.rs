//! Double-precision numbers without the arithmetic: a number is held by its
//! place in the numeric order, which is all that a range rule ever asks of it.

use vstd::prelude::*;

verus! {

/// The bit pattern of positive infinity, the largest magnitude that is a number.
pub const INFINITY_BITS: u64 = 0x7ff0_0000_0000_0000;

/// The sign bit of an IEEE 754 double.
pub const SIGN_BIT: u64 = 0x8000_0000_0000_0000;

/// Whether the IEEE 754 bit pattern has its sign bit set.
pub open spec fn bits_negative(bits: u64) -> bool {
    bits >= SIGN_BIT
}

/// The bit pattern with its sign bit cleared.
pub open spec fn bits_magnitude(bits: u64) -> int {
    if bits_negative(bits) {
        bits - SIGN_BIT
    } else {
        bits as int
    }
}

/// Whether the bit pattern is one of the NaNs: an all-ones exponent with a
/// non-zero fraction.
pub open spec fn bits_nan(bits: u64) -> bool {
    bits_magnitude(bits) > INFINITY_BITS
}

/// The place of a bit pattern in the numeric order. Doubles of one sign are
/// ordered as their magnitudes are, so the signed magnitude orders all of
/// them; both zeros get the key 0, as they compare equal.
pub open spec fn bits_key(bits: u64) -> int {
    if bits_negative(bits) {
        -bits_magnitude(bits)
    } else {
        bits_magnitude(bits)
    }
}

/// A double that is not NaN. Its view is its order key: `a` is below `b` as
/// numbers exactly when `a@ < b@`.
#[derive(Clone, Copy, Debug, PartialEq, Eq)]
pub struct Double {
    key: i64,
}

impl View for Double {
    type V = int;

    closed spec fn view(&self) -> int {
        self.key as int
    }
}

impl Double {
    #[verifier::type_invariant]
    spec fn in_range(self) -> bool {
        -(INFINITY_BITS as int) <= self.key <= INFINITY_BITS as int
    }

    /// The number with the given IEEE 754 bit pattern; `None` for a NaN.
    pub fn from_bits(bits: u64) -> (number: Option<Double>)
        ensures
            number is None <==> bits_nan(bits),
            number matches Some(d) ==> d@ == bits_key(bits),
    {
        let negative: bool = bits >= SIGN_BIT;
        let magnitude: u64 = if negative {
            bits - SIGN_BIT
        } else {
            bits
        };
        if magnitude > INFINITY_BITS {
            None
        } else if negative {
            Some(Double { key: -(magnitude as i64) })
        } else {
            Some(Double { key: magnitude as i64 })
        }
    }

    /// A bit pattern of this number: the one with a clear sign bit for zero.
    pub fn to_bits(self) -> (bits: u64)
        ensures
            !bits_nan(bits),
            bits_key(bits) == self@,
            self@ == 0 ==> bits == 0,
    {
        proof {
            use_type_invariant(&self);
        }
        if self.key < 0 {
            let magnitude: u64 = (-self.key) as u64;
            magnitude + SIGN_BIT
        } else {
            self.key as u64
        }
    }

    /// Whether this number is strictly below the other.
    pub fn lt(self, other: Double) -> (below: bool)
        ensures
            below == (self@ < other@),
    {
        self.key < other.key
    }

    /// Whether this number is below or equal to the other.
    pub fn le(self, other: Double) -> (below: bool)
        ensures
            below == (self@ <= other@),
    {
        self.key <= other.key
    }

    /// The smaller of two numbers.
    pub fn min_of(self, other: Double) -> (least: Double)
        ensures
            least@ == spec_min(self@, other@),
    {
        if self.key <= other.key {
            self
        } else {
            other
        }
    }

    /// The larger of two numbers.
    pub fn max_of(self, other: Double) -> (greatest: Double)
        ensures
            greatest@ == spec_max(self@, other@),
    {
        if self.key >= other.key {
            self
        } else {
            other
        }
    }

    /// Whether the number lies in the half-open interval from `min`, which
    /// belongs to it, to `max`, which does not.
    pub fn within(self, min: Double, max: Double) -> (inside: bool)
        ensures
            inside == in_interval(self@, min@, max@),
    {
        min.key <= self.key && self.key < max.key
    }

    /// Whether the number meets the two bounds of a rule: it lies in
    /// `[min, max)`, or the two bounds are one number and it is that number.
    pub fn meets(self, min: Double, max: Double) -> (met: bool)
        ensures
            met == meets_bounds(self@, min@, max@),
    {
        self.within(min, max) || (min.key == max.key && self.key == min.key)
    }
}

/// The smaller of two integers.
pub open spec fn spec_min(a: int, b: int) -> int {
    if a <= b {
        a
    } else {
        b
    }
}

/// The larger of two integers.
pub open spec fn spec_max(a: int, b: int) -> int {
    if a >= b {
        a
    } else {
        b
    }
}

/// Membership in the half-open interval `[min, max)`.
pub open spec fn in_interval(x: int, min: int, max: int) -> bool {
    min <= x < max
}

/// Whether `x` meets the two bounds of a rule. Two different bounds stand for
/// the half-open interval `[min, max)`. Two equal bounds, as a rule written
/// with a single bound has them, stand for that one value: the interval
/// `[n, n)` would hold nothing.
pub open spec fn meets_bounds(x: int, min: int, max: int) -> bool {
    in_interval(x, min, max) || (min == max && x == min)
}

/// Equal bit patterns aside, two numbers have the same key only if they are
/// the two zeros.
pub proof fn lemma_key_determines_bits(a: u64, b: u64)
    requires
        !bits_nan(a),
        !bits_nan(b),
        bits_key(a) == bits_key(b),
    ensures
        a == b || (bits_magnitude(a) == 0 && bits_magnitude(b) == 0),
{
}

/// The order of keys is the numeric order on each sign: among non-negative
/// patterns a larger pattern has a larger key, among negative ones a smaller.
pub proof fn lemma_key_order(a: u64, b: u64)
    requires
        a < b,
    ensures
        !bits_negative(b) ==> bits_key(a) < bits_key(b),
        bits_negative(a) ==> bits_key(a) > bits_key(b),
        !bits_negative(a) && bits_negative(b) ==> bits_key(b) <= bits_key(a),
{
}

} // verus!
