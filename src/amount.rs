//! Exact decimal money amounts, and how amount fields are read.

use vstd::prelude::*;

use crate::text::{is_blank, is_blank_text, is_numeral, numeral_value};

verus! {

/// An exact decimal amount: `mantissa` times ten to the power of minus `scale`.
///
/// `150.00` is held as mantissa 15000 and scale 2; the scale written is kept.
#[derive(Clone, Copy, Debug, PartialEq, Eq, Structural)]
pub struct Amount {
    pub mantissa: i128,
    pub scale: u32,
}

impl Amount {
    /// The amount zero.
    pub open spec fn zero_spec() -> Amount {
        Amount { mantissa: 0, scale: 0 }
    }

    /// The amount zero.
    pub fn zero() -> (r: Amount)
        ensures
            r == Amount::zero_spec(),
    {
        Amount { mantissa: 0, scale: 0 }
    }
}

/// The mantissa and scale that rust_decimal reads from a text, if it reads one.
pub uninterp spec fn decimal_of_text(s: Seq<char>) -> Option<(i128, u32)>;

/// The amount that a text denotes, if any.
pub open spec fn amount_of_text(s: Seq<char>) -> Option<Amount> {
    match decimal_of_text(s) {
        Some((m, e)) => Some(Amount { mantissa: m, scale: e }),
        None => None,
    }
}

/// The text of a plain decimal: the digits `whole`, then, where `fraction`
/// is not empty, a point and the digits `fraction`.
pub open spec fn plain_decimal(whole: Seq<char>, fraction: Seq<char>) -> Seq<char> {
    if fraction.len() == 0 {
        whole
    } else {
        whole + seq!['.'] + fraction
    }
}

/// Relies on rust_decimal's `Decimal::from_str_exact`, with `mantissa` and
/// `scale`: whether a text is an exact decimal, and which, depends on the text
/// alone; a plain decimal of fewer than 18 characters reads as its digits,
/// scaled by the number of digits after the point.
#[verifier::external_body]
fn parse_decimal(s: &str) -> (r: Option<Amount>)
    ensures
        match r {
            Some(a) => decimal_of_text(s@) == Some((a.mantissa, a.scale)),
            None => decimal_of_text(s@) is None,
        },
        forall|whole: Seq<char>, fraction: Seq<char>|
            #[trigger] plain_decimal(whole, fraction) == s@ && s@.len() < 18 && is_numeral(whole)
                && (fraction.len() == 0 || is_numeral(fraction)) ==> r == Some(
                Amount {
                    mantissa: numeral_value(whole + fraction) as i128,
                    scale: fraction.len() as u32,
                },
            ),
{
    match rust_decimal::Decimal::from_str_exact(s) {
        Ok(d) => Some(Amount { mantissa: d.mantissa(), scale: d.scale() }),
        Err(_) => None,
    }
}

/// Reads a required amount field.
pub fn parse_amount(s: &str) -> (r: Option<Amount>)
    ensures
        r == amount_of_text(s@),
        forall|whole: Seq<char>, fraction: Seq<char>|
            #[trigger] plain_decimal(whole, fraction) == s@ && s@.len() < 18 && is_numeral(whole)
                && (fraction.len() == 0 || is_numeral(fraction)) ==> r == Some(
                Amount {
                    mantissa: numeral_value(whole + fraction) as i128,
                    scale: fraction.len() as u32,
                },
            ),
{
    parse_decimal(s)
}

/// An optional amount field, given what its text reads as: a blank field is
/// no amount, any other field must read as an amount. `None` when it does not.
pub open spec fn optional_amount(s: Seq<char>, read: Option<Amount>) -> Option<Option<Amount>> {
    if is_blank(s) {
        Some(None)
    } else {
        match read {
            Some(a) => Some(Some(a)),
            None => None,
        }
    }
}

/// Settles an optional amount field from its text and what that text reads as.
pub fn optional_amount_from(s: &str, read: Option<Amount>) -> (r: Option<Option<Amount>>)
    ensures
        r == optional_amount(s@, read),
{
    if is_blank_text(s) {
        Some(None)
    } else {
        match read {
            Some(a) => Some(Some(a)),
            None => None,
        }
    }
}

/// Reads an optional amount field: blank gives `Some(None)`, a decimal gives
/// `Some(Some(amount))`, anything else `None`.
pub fn parse_optional_amount(s: &str) -> (r: Option<Option<Amount>>)
    ensures
        r == optional_amount(s@, amount_of_text(s@)),
        is_blank(s@) ==> r == Some(Option::<Amount>::None),
{
    if is_blank_text(s) {
        Some(None)
    } else {
        optional_amount_from(s, parse_decimal(s))
    }
}

/// `m` divided by ten `k` times, where every division leaves no remainder.
pub open spec fn exact_tenths(m: int, k: nat) -> Option<int>
    decreases k,
{
    if k == 0 {
        Some(m)
    } else if m % 10 != 0 {
        None
    } else {
        exact_tenths(m / 10, (k - 1) as nat)
    }
}

/// The amount counted in hundredths of a currency unit (kopecks, cents),
/// where it is a whole, non-negative number of them: `150.00` is 15000.
pub open spec fn hundredths(a: Amount) -> Option<int> {
    if a.mantissa < 0 {
        None
    } else {
        exact_tenths(a.mantissa * 100, a.scale as nat)
    }
}

/// Exact divisions of a non-negative number stay non-negative.
proof fn lemma_exact_tenths_nonneg(m: int, k: nat)
    requires
        m >= 0,
    ensures
        exact_tenths(m, k) matches Some(v) ==> v >= 0,
    decreases k,
{
    if k > 0 && m % 10 == 0 {
        lemma_exact_tenths_nonneg(m / 10, (k - 1) as nat);
    }
}

/// A count of hundredths is never negative.
pub proof fn lemma_hundredths_nonneg(a: Amount)
    ensures
        hundredths(a) matches Some(h) ==> h >= 0,
{
    if a.mantissa >= 0 {
        assert(a.mantissa * 100 >= 0) by (nonlinear_arith)
            requires
                a.mantissa >= 0,
        ;
        lemma_exact_tenths_nonneg(a.mantissa * 100, a.scale as nat);
    }
}

/// Dividing a hundredfold by ten twice only undoes the factor.
proof fn lemma_hundredfold(m: int, k: nat)
    requires
        k >= 2,
    ensures
        exact_tenths(m * 100, k) == exact_tenths(m, (k - 2) as nat),
{
    assert((m * 100) % 10 == 0 && (m * 100) / 10 == m * 10) by (nonlinear_arith);
    assert((m * 10) % 10 == 0 && (m * 10) / 10 == m) by (nonlinear_arith);
    assert(exact_tenths(m * 100, k) == exact_tenths(m * 10, (k - 1) as nat));
    assert(exact_tenths(m * 10, (k - 1) as nat) == exact_tenths(m, (k - 2) as nat));
}

/// The amount in hundredths of a unit, where that is a whole, non-negative
/// number that fits a `usize`; `None` otherwise.
pub fn to_hundredths(a: Amount) -> (r: Option<usize>)
    ensures
        match hundredths(a) {
            Some(h) => if h <= usize::MAX {
                r == Some(h as usize)
            } else {
                r is None
            },
            None => r is None,
        },
{
    if a.mantissa < 0 {
        return None;
    }
    if a.scale < 2 {
        let m = a.mantissa;
        proof {
            assert((m * 100) % 10 == 0 && (m * 100) / 10 == m * 10) by (nonlinear_arith);
            if a.scale == 1 {
                assert(exact_tenths(m * 100, 1) == exact_tenths(m * 10, 0));
            }
        }
        if m > usize::MAX as i128 {
            return None;
        }
        let h: i128 = if a.scale == 0 {
            m * 100
        } else {
            m * 10
        };
        if h > usize::MAX as i128 {
            return None;
        }
        return Some(h as usize);
    }
    let mut m: i128 = a.mantissa;
    let mut k: u32 = a.scale - 2;
    proof {
        lemma_hundredfold(a.mantissa as int, a.scale as nat);
    }
    while k > 0
        invariant
            m >= 0,
            exact_tenths(m as int, k as nat) == hundredths(a),
        decreases k,
    {
        if m % 10 != 0 {
            return None;
        }
        m = m / 10;
        k = k - 1;
    }
    if m > usize::MAX as i128 {
        None
    } else {
        Some(m as usize)
    }
}

} // verus!
