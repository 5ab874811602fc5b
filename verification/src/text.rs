//! Text building blocks shared by the renderers: decimal numerals and
//! character-wise appends to a `String`.

use vstd::prelude::*;

verus! {

/// `String::push` of the standard library: the string grows by exactly the
/// given character, at its end. Verus takes this on trust.
pub assume_specification[ std::string::String::push ](s: &mut std::string::String, ch: char)
    ensures
        final(s)@ == old(s)@.push(ch),
;

/// The character that writes the decimal digit `d` (`'0'` for 0 up to `'9'` for 9).
pub open spec fn digit_char(d: int) -> char
    recommends
        0 <= d <= 9,
{
    (0x30 + d) as char
}

/// The decimal numeral of `n`: most significant digit first, no sign,
/// no leading zeros, and `"0"` for zero.
pub open spec fn decimal_text(n: nat) -> Seq<char>
    decreases n,
{
    if n < 10 {
        seq![digit_char(n as int)]
    } else {
        decimal_text(n / 10).push(digit_char((n % 10) as int))
    }
}

/// Appends the decimal numeral of `n` to `out`.
pub fn push_decimal(out: &mut String, n: u64)
    ensures
        final(out)@ == old(out)@ + decimal_text(n as nat),
    decreases n,
{
    if n >= 10 {
        push_decimal(out, n / 10);
    }
    let d: u8 = (n % 10) as u8;
    out.push((0x30u8 + d) as char);
}

/// The decimal numeral of `n` as a fresh string.
pub fn decimal_string(n: u64) -> (s: String)
    ensures
        s@ == decimal_text(n as nat),
{
    let mut s = String::new();
    push_decimal(&mut s, n);
    s
}

} // verus!
