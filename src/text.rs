//! Text fields typed by a user: numerals and optional values.

use vstd::prelude::*;

verus! {

/// Whether `c` is one of the ASCII digits `0` to `9`.
pub open spec fn is_digit(c: char) -> bool {
    '0' <= c && c <= '9'
}

/// The value of an ASCII digit.
pub open spec fn digit_value(c: char) -> nat {
    (c as int - '0' as int) as nat
}

/// A non-empty run of ASCII digits.
pub open spec fn is_numeral(s: Seq<char>) -> bool {
    &&& s.len() > 0
    &&& forall|i: int| 0 <= i < s.len() ==> is_digit(#[trigger] s[i])
}

/// The number that a run of digits denotes, most significant digit first.
pub open spec fn numeral_value(s: Seq<char>) -> nat
    decreases s.len(),
{
    if s.len() == 0 {
        0
    } else {
        numeral_value(s.drop_last()) * 10 + digit_value(s.last())
    }
}

/// What a numeral field holds when its value may not exceed `limit`.
pub open spec fn bounded_numeral(s: Seq<char>, limit: nat) -> Option<nat> {
    if is_numeral(s) && numeral_value(s) <= limit {
        Some(numeral_value(s))
    } else {
        None
    }
}

/// A numeral never denotes less than any of its prefixes.
proof fn lemma_prefix_value_le(s: Seq<char>, k: int)
    requires
        is_numeral(s),
        0 <= k <= s.len(),
    ensures
        numeral_value(s.subrange(0, k)) <= numeral_value(s),
    decreases s.len() - k,
{
    if k < s.len() {
        let p = s.subrange(0, k + 1);
        assert(p.drop_last() =~= s.subrange(0, k));
        lemma_prefix_value_le(s, k + 1);
    } else {
        assert(s.subrange(0, k) =~= s);
    }
}

/// Reads `s` as a decimal numeral whose value is at most `limit`.
pub fn parse_numeral(s: &str, limit: u64) -> (r: Option<u64>)
    ensures
        match r {
            Some(v) => bounded_numeral(s@, limit as nat) == Some(v as nat),
            None => bounded_numeral(s@, limit as nat) is None,
        },
{
    let n = s.unicode_len();
    if n == 0 {
        return None;
    }
    let mut value: u64 = 0;
    let mut i: usize = 0;
    while i < n
        invariant
            n == s@.len(),
            0 <= i <= n,
            value as nat == numeral_value(s@.subrange(0, i as int)),
            value <= limit,
            forall|j: int| 0 <= j < i ==> is_digit(#[trigger] s@[j]),
        decreases n - i,
    {
        let c = s.get_char(i);
        if c < '0' || c > '9' {
            return None;
        }
        let d = (c as u32 - '0' as u32) as u64;
        let next: u128 = value as u128 * 10 + d as u128;
        assert(s@.subrange(0, i + 1).drop_last() =~= s@.subrange(0, i as int));
        if next > limit as u128 {
            proof {
                assert forall|j: int| 0 <= j < i + 1 implies is_digit(#[trigger] s@[j]) by {}
                if is_numeral(s@) {
                    lemma_prefix_value_le(s@, i + 1);
                }
            }
            return None;
        }
        value = next as u64;
        i = i + 1;
    }
    assert(s@.subrange(0, n as int) =~= s@);
    Some(value)
}

/// A field left empty, or holding the single digit zero, stands for "no value".
pub open spec fn is_blank(s: Seq<char>) -> bool {
    s.len() == 0 || s == seq!['0']
}

/// Whether the field `s` stands for "no value".
pub fn is_blank_text(s: &str) -> (r: bool)
    ensures
        r == is_blank(s@),
{
    let n = s.unicode_len();
    if n == 0 {
        return true;
    }
    if n == 1 && s.get_char(0) == '0' {
        assert(s@ =~= seq!['0']);
        return true;
    }
    false
}

/// An optional text field: a blank field gives no value, any other its text.
pub fn optional_text(s: &str) -> (r: Option<String>)
    ensures
        is_blank(s@) ==> r is None,
        !is_blank(s@) ==> (r matches Some(t) && t@ == s@),
{
    if is_blank_text(s) {
        None
    } else {
        Some(s.to_owned())
    }
}

/// The character of a digit value below ten.
pub open spec fn digit_char(d: nat) -> char {
    ('0' as nat + d) as char
}

/// The decimal numeral of `n`, without sign or leading zeros.
pub open spec fn numeral_text(n: nat) -> Seq<char>
    decreases n,
{
    if n < 10 {
        seq![digit_char(n)]
    } else {
        numeral_text(n / 10).push(digit_char(n % 10))
    }
}

/// The numeral of `n` reads back as `n`.
pub proof fn lemma_numeral_text_value(n: nat)
    ensures
        is_numeral(numeral_text(n)),
        numeral_value(numeral_text(n)) == n,
    decreases n,
{
    let d = n % 10;
    assert(digit_value(digit_char(d)) == d);
    if n < 10 {
        let t = numeral_text(n);
        assert(t.drop_last() =~= Seq::<char>::empty());
        assert(numeral_value(t) == numeral_value(t.drop_last()) * 10 + digit_value(t.last()));
    } else {
        lemma_numeral_text_value(n / 10);
        let p = numeral_text(n / 10);
        let t = numeral_text(n);
        assert(t.drop_last() =~= p);
        assert(t.last() == digit_char(d));
        assert(numeral_value(t) == numeral_value(p) * 10 + digit_value(t.last()));
        assert(n == (n / 10) * 10 + n % 10);
        assert forall|i: int| 0 <= i < t.len() implies is_digit(#[trigger] t[i]) by {
            if i < p.len() {
                assert(t[i] == p[i]);
            }
        }
    }
}

/// Relies on std's `Display` for `u64` (through `to_string`): the decimal
/// digits of the value, with no sign and no leading zeros.
#[verifier::external_body]
pub(crate) fn decimal_text(n: u64) -> (r: String)
    ensures
        r@ == numeral_text(n as nat),
{
    n.to_string()
}

} // verus!
