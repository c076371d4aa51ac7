//! Pieces of text, and decimal numbers in text.

use vstd::prelude::*;

verus! {

/// The digit `d`, which is below ten.
pub open spec fn digit(d: nat) -> char {
    (48 + d) as char
}

/// Whether `c` is one of the ten decimal digits.
pub open spec fn is_digit(c: char) -> bool {
    '0' <= c <= '9'
}

/// `n` in decimal, without leading zeros.
pub open spec fn decimal(n: nat) -> Seq<char>
    decreases n,
{
    if n < 10 {
        seq![digit(n)]
    } else {
        decimal(n / 10).push(digit(n % 10))
    }
}

/// The number that a sequence of decimal digits stands for.
pub open spec fn value(digits: Seq<char>) -> int
    decreases digits.len(),
{
    if digits.len() == 0 {
        0
    } else {
        value(digits.drop_last()) * 10 + (digits.last() as int - 48)
    }
}

/// Whether `s` is a sequence of one or more decimal digits.
pub open spec fn is_number(s: Seq<char>) -> bool {
    s.len() > 0 && forall|i: int| 0 <= i < s.len() ==> is_digit(#[trigger] s[i])
}

/// The 16-bit number that `s` spells: an optional plus sign and decimal digits.
pub open spec fn u16_of(s: Seq<char>) -> Option<u16> {
    let digits = if s.len() > 0 && s[0] == '+' {
        s.skip(1)
    } else {
        s
    };
    if is_number(digits) && value(digits) <= u16::MAX {
        Some(value(digits) as u16)
    } else {
        None
    }
}

/// The part of `s` before the first `c`; all of `s` where there is no `c`.
pub open spec fn before_first(s: Seq<char>, c: char) -> Seq<char>
    decreases s.len(),
{
    if s.len() == 0 || s[0] == c {
        Seq::empty()
    } else {
        seq![s[0]] + before_first(s.skip(1), c)
    }
}

/// The part of `s` after the last `c`, where there is one.
pub open spec fn after_last(s: Seq<char>, c: char) -> Option<Seq<char>>
    decreases s.len(),
{
    if s.len() == 0 {
        None
    } else if s.last() == c {
        Some(Seq::empty())
    } else {
        match after_last(s.drop_last(), c) {
            Some(rest) => Some(rest.push(s.last())),
            None => None,
        }
    }
}

/// Whether `s` holds printable ASCII characters only, and no blank.
pub open spec fn is_visible(s: Seq<char>) -> bool {
    forall|i: int| 0 <= i < s.len() ==> '!' <= #[trigger] s[i] <= '~'
}

/// A piece of visible text is visible.
pub(crate) proof fn before_first_visible(s: Seq<char>, c: char)
    requires
        is_visible(s),
    ensures
        is_visible(before_first(s, c)),
    decreases s.len(),
{
    if s.len() > 0 && s[0] != c {
        assert forall|i: int| 0 <= i < s.skip(1).len() implies '!' <= #[trigger] s.skip(1)[i]
            <= '~' by {
            assert(s.skip(1)[i] == s[i + 1]);
        }
        before_first_visible(s.skip(1), c);
    }
}

/// A piece of visible text is visible.
pub(crate) proof fn after_last_visible(s: Seq<char>, c: char)
    requires
        is_visible(s),
    ensures
        after_last(s, c) matches Some(rest) ==> is_visible(rest),
    decreases s.len(),
{
    if s.len() > 0 && s.last() != c {
        assert(is_visible(s.drop_last()));
        assert('!' <= s[s.len() - 1] <= '~');
        after_last_visible(s.drop_last(), c);
    }
}

/// A number in decimal is visible.
pub(crate) proof fn decimal_visible(n: nat)
    ensures
        is_visible(decimal(n)),
{
    decimal_reads_back(n);
    assert forall|i: int| 0 <= i < decimal(n).len() implies '!' <= #[trigger] decimal(n)[i]
        <= '~' by {
        assert(is_digit(decimal(n)[i]));
    }
}

/// `u16::to_string`: the number in decimal.
#[verifier::external_body]
pub(crate) fn u16_to_string(n: u16) -> (r: String)
    ensures
        r@ == decimal(n as nat),
{
    n.to_string()
}

/// Text made of decimal digits reads back as the number that it was written from.
pub proof fn decimal_reads_back(n: nat)
    ensures
        is_number(decimal(n)),
        value(decimal(n)) == n,
    decreases n,
{
    reveal_with_fuel(value, 2);
    if n < 10 {
        assert(decimal(n).drop_last() =~= Seq::<char>::empty());
    } else {
        decimal_reads_back(n / 10);
        assert(decimal(n).drop_last() =~= decimal(n / 10));
    }
}

/// A 16-bit number written in decimal reads back as itself.
pub proof fn u16_reads_back(n: u16)
    ensures
        u16_of(decimal(n as nat)) == Some(n),
{
    decimal_reads_back(n as nat);
    assert(is_digit(decimal(n as nat)[0]));
}

} // verus!
