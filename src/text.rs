use vstd::prelude::*;

verus! {

/// The character that stands for a digit value below sixteen, lowercase.
pub open spec fn hex_digit(d: int) -> char {
    if d == 0 { '0' }
    else if d == 1 { '1' }
    else if d == 2 { '2' }
    else if d == 3 { '3' }
    else if d == 4 { '4' }
    else if d == 5 { '5' }
    else if d == 6 { '6' }
    else if d == 7 { '7' }
    else if d == 8 { '8' }
    else if d == 9 { '9' }
    else if d == 10 { 'a' }
    else if d == 11 { 'b' }
    else if d == 12 { 'c' }
    else if d == 13 { 'd' }
    else if d == 14 { 'e' }
    else { 'f' }
}

pub open spec fn is_decimal_char(c: char) -> bool {
    '0' <= c && c <= '9'
}

pub open spec fn is_lower_hex_char(c: char) -> bool {
    ('0' <= c && c <= '9') || ('a' <= c && c <= 'f')
}

/// `n` written in base ten with exactly `width` digits: zero-padded on the
/// left, and keeping only the lowest `width` digits.
pub open spec fn decimal_digits(n: nat, width: nat) -> Seq<char>
    decreases width,
{
    if width == 0 {
        Seq::empty()
    } else {
        decimal_digits(n / 10, (width - 1) as nat).push(hex_digit((n % 10) as int))
    }
}

pub proof fn lemma_decimal_digits_shape(n: nat, width: nat)
    ensures
        decimal_digits(n, width).len() == width,
        forall|i: int| 0 <= i < width ==> is_decimal_char(#[trigger] decimal_digits(n, width)[i]),
    decreases width,
{
    if width > 0 {
        lemma_decimal_digits_shape(n / 10, (width - 1) as nat);
    }
}

pub fn hex_digit_char(d: u8) -> (c: char)
    requires
        d < 16,
    ensures
        c == hex_digit(d as int),
{
    if d == 0 { '0' }
    else if d == 1 { '1' }
    else if d == 2 { '2' }
    else if d == 3 { '3' }
    else if d == 4 { '4' }
    else if d == 5 { '5' }
    else if d == 6 { '6' }
    else if d == 7 { '7' }
    else if d == 8 { '8' }
    else if d == 9 { '9' }
    else if d == 10 { 'a' }
    else if d == 11 { 'b' }
    else if d == 12 { 'c' }
    else if d == 13 { 'd' }
    else if d == 14 { 'e' }
    else { 'f' }
}

/// Relies on String::push: the character is added at the end.
#[verifier::external_body]
pub(crate) fn push_char(s: &mut String, c: char)
    ensures
        final(s)@ == old(s)@.push(c),
{
    s.push(c);
}

/// Appends `n` as `width` decimal digits.
pub fn push_decimal(s: &mut String, n: u32, width: u32)
    ensures
        final(s)@ == old(s)@ + decimal_digits(n as nat, width as nat),
    decreases width,
{
    if width > 0 {
        push_decimal(s, n / 10, width - 1);
        push_char(s, hex_digit_char((n % 10) as u8));
        assert(final(s)@ =~= old(s)@ + decimal_digits(n as nat, width as nat));
    } else {
        assert(final(s)@ =~= old(s)@ + decimal_digits(n as nat, width as nat));
    }
}

} // verus!
