//! Text helpers: decimal rendering of numbers and the few `String`
//! operations of std that vstd leaves unspecified.

use vstd::prelude::*;

verus! {

/// The ASCII digit for `d`, which is below ten.
pub open spec fn digit_char(d: nat) -> char {
    (d + 48) as char
}

/// The decimal notation of `n`, without leading zeros (`0` is `"0"`).
pub open spec fn decimal(n: nat) -> Seq<char>
    decreases n,
{
    if n < 10 {
        seq![digit_char(n)]
    } else {
        decimal(n / 10).push(digit_char(n % 10))
    }
}

/// Appends `c` to `s` (std's `String::push`, which appends one character).
#[verifier::external_body]
pub(crate) fn push_char(s: &mut String, c: char)
    ensures
        final(s)@ == old(s)@.push(c),
{
    s.push(c)
}

/// Removes the last character of `s` and returns it, or returns `None` and
/// leaves `s` alone when it is empty (std's `String::pop`).
#[verifier::external_body]
pub(crate) fn pop_char(s: &mut String) -> (r: Option<char>)
    ensures
        old(s)@.len() == 0 ==> r is None && final(s)@ == old(s)@,
        old(s)@.len() > 0 ==> r == Some(old(s)@.last()) && final(s)@ == old(s)@.drop_last(),
{
    s.pop()
}

/// What `String::from_utf8_lossy` makes of `bytes`: the decoded text, with
/// each invalid sequence replaced by U+FFFD.
pub uninterp spec fn lossy_text(bytes: Seq<u8>) -> Seq<char>;

/// Decodes `bytes` as UTF-8, replacing invalid sequences (std's
/// `String::from_utf8_lossy`). Claimed: the result is `lossy_text` of the
/// bytes, and on valid UTF-8 it is the decoded text.
#[verifier::external_body]
pub(crate) fn utf8_lossy(bytes: &[u8]) -> (r: String)
    ensures
        r@ == lossy_text(bytes@),
        vstd::utf8::valid_utf8(bytes@) ==> r@ == vstd::utf8::decode_utf8(bytes@),
{
    String::from_utf8_lossy(bytes).into_owned()
}

/// Renders `n` in decimal.
pub fn decimal_string(n: usize) -> (r: String)
    ensures
        r@ == decimal(n as nat),
    decreases n,
{
    let d: u8 = (n % 10) as u8;
    let c: char = (d + 48u8) as char;
    if n < 10 {
        let mut s = String::new();
        push_char(&mut s, c);
        s
    } else {
        let mut s = decimal_string(n / 10);
        push_char(&mut s, c);
        s
    }
}

/// The number that a string of ASCII digits denotes in decimal.
pub open spec fn digits_value(digits: Seq<char>) -> nat
    decreases digits.len(),
{
    if digits.len() == 0 {
        0
    } else {
        10 * digits_value(digits.drop_last()) + (digits.last() as nat - 48) as nat
    }
}

/// The decimal notation of a number is a non-empty string of ASCII digits,
/// without a leading zero unless it is "0", that denotes the number again.
pub proof fn lemma_decimal_denotes(n: nat)
    ensures
        decimal(n).len() > 0,
        forall|i: int| 0 <= i < decimal(n).len() ==> '0' <= #[trigger] decimal(n)[i] <= '9',
        decimal(n).len() > 1 ==> decimal(n)[0] != '0',
        digits_value(decimal(n)) == n,
        n >= 10 <==> decimal(n).len() > 1,
    decreases n,
{
    if n < 10 {
        assert(decimal(n) == seq![digit_char(n)]);
        assert(decimal(n).drop_last() =~= Seq::<char>::empty());
        assert(digit_char(n) as nat == n + 48);
        assert(digits_value(decimal(n)) == 10 * digits_value(Seq::<char>::empty()) + (digit_char(n) as nat - 48) as nat);
    } else {
        let m = n / 10;
        lemma_decimal_denotes(m);
        let d = decimal(m);
        let c = digit_char(n % 10);
        assert(decimal(n) == d.push(c));
        assert(decimal(n).drop_last() =~= d);
        assert(decimal(n).last() == c);
        assert(c as nat == n % 10 + 48);
        assert(digits_value(decimal(n)) == 10 * digits_value(d) + (c as nat - 48) as nat);
        assert(n == 10 * m + n % 10);
        assert forall|i: int| 0 <= i < decimal(n).len() implies '0' <= #[trigger] decimal(n)[i] <= '9' by {
            if i < d.len() {
                assert(decimal(n)[i] == d[i]);
            }
        }
        assert(decimal(n)[0] == d[0]);
        if d.len() == 1 {
            assert(m < 10);
            assert(m >= 1);
            assert(d == seq![digit_char(m)]);
        }
    }
}

} // verus!
