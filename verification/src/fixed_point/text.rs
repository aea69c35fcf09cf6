//! [`Fract`] and [`FixedPoint`] values written out.
//!
//! A fraction is written as `0.` and its digits after the point. A fixed-point number is
//! written as its integer part, a point, and the digits of its fractional part. The
//! integer part is the number rounded down, so a negative number that is not whole shows
//! the next lower integer before the point and what it exceeds that by after it.
use super::FixedPoint;
use super::Fract;
use crate::i48_int::text::int_text_in;
use crate::radix::can_write;
use crate::radix::fraction_text;
use vstd::prelude::*;
use vstd::string::StringExecFns;

verus! {

/// The fraction `n / 65536` written in `radix`: `0.` and what follows the point.
pub open spec fn fract_written(
    n: int,
    radix: int,
    uppercase: bool,
    precision: Option<usize>,
) -> Seq<char> {
    seq!['0', '.'] + fraction_text(n, radix, uppercase, precision)
}

/// The fixed-point number of `raw` steps written in `radix`: its integer part, a point,
/// and what follows the point for its fractional part. The precision does not touch the
/// integer part.
pub open spec fn fixed_written(
    raw: int,
    radix: int,
    uppercase: bool,
    precision: Option<usize>,
) -> Seq<char> {
    int_text_in(raw / 0x1_0000, radix, uppercase) + seq!['.'] + fraction_text(
        raw % 0x1_0000,
        radix,
        uppercase,
        precision,
    )
}

impl Fract {
    /// The fraction written in `radix`, with at most `precision` digits after the
    /// point where that is given.
    pub fn format(self, radix: u32, uppercase: bool, precision: Option<usize>) -> (s: String)
        requires
            can_write(self@, radix as int, precision),
        ensures
            s@ == fract_written(self@, radix as int, uppercase, precision),
    {
        let mut s = String::new();
        s.push('0');
        s.push('.');
        let digits = self.fmt_fractional(radix, uppercase, precision);
        s.append(digits.as_str());
        assert(s@ =~= fract_written(self@, radix as int, uppercase, precision));
        s
    }

    /// The fraction written in decimal, in full.
    pub fn to_string(self) -> (s: String)
        ensures
            s@ == fract_written(self@, 10, false, None),
    {
        self.format(10, false, None)
    }
}

impl FixedPoint {
    /// The number written in `radix`, with at most `precision` digits after the point
    /// where that is given.
    pub fn format(self, radix: u32, uppercase: bool, precision: Option<usize>) -> (s: String)
        requires
            can_write(self.frac_part(), radix as int, precision),
        ensures
            s@ == fixed_written(self@, radix as int, uppercase, precision),
    {
        let (integer, frac) = self.to_raw();
        let mut s = integer.format(radix, uppercase);
        s.push('.');
        let digits = frac.fmt_fractional(radix, uppercase, precision);
        s.append(digits.as_str());
        assert(s@ =~= fixed_written(self@, radix as int, uppercase, precision));
        s
    }

    /// The number written in decimal, in full.
    pub fn to_string(self) -> (s: String)
        ensures
            s@ == fixed_written(self@, 10, false, None),
    {
        self.format(10, false, None)
    }
}

} // verus!
