//! Unsigned decimal numerals: the number that a text denotes, and the text
//! that denotes a number.

use vstd::prelude::*;

verus! {

/// Whether `c` is one of the ten ASCII digits.
pub open spec fn is_digit(c: char) -> bool {
    '0' <= c && c <= '9'
}

/// The number that the digit `c` stands for.
pub open spec fn digit_value(c: char) -> nat
    recommends
        is_digit(c),
{
    (c as int - '0' as int) as nat
}

/// The digit that stands for `d`.
pub open spec fn digit_char(d: nat) -> char
    recommends
        d <= 9,
{
    ('0' as int + d) as char
}

/// Whether `s` holds digits only.
pub open spec fn all_digits(s: Seq<char>) -> bool {
    forall|i: int| 0 <= i < s.len() ==> is_digit(#[trigger] s[i])
}

/// The number that a run of digits denotes, most significant digit first.
/// The empty run denotes zero.
pub open spec fn digits_value(s: Seq<char>) -> nat
    recommends
        all_digits(s),
    decreases s.len(),
{
    if s.len() == 0 {
        0
    } else {
        10 * digits_value(s.drop_last()) + digit_value(s.last())
    }
}

/// The digits of a numeral: the text itself, without the plus sign that may
/// stand in front of it.
pub open spec fn numeral_digits(s: Seq<char>) -> Seq<char> {
    if s.len() > 0 && s[0] == '+' {
        s.subrange(1, s.len() as int)
    } else {
        s
    }
}

/// The number that `s` denotes as an unsigned 32-bit numeral: one or more
/// digits, optionally after a single plus sign, whose value fits in 32 bits.
/// Any other text denotes nothing. This is the reading that the standard
/// library gives a `u32`.
pub open spec fn numeral_u32(s: Seq<char>) -> Option<u32> {
    let digits = numeral_digits(s);
    if digits.len() > 0 && all_digits(digits) && digits_value(digits) <= u32::MAX {
        Some(digits_value(digits) as u32)
    } else {
        None
    }
}

/// The shortest run of digits that denotes `n`.
pub open spec fn decimal_text(n: nat) -> Seq<char>
    decreases n,
{
    if n < 10 {
        seq![digit_char(n)]
    } else {
        decimal_text(n / 10).push(digit_char(n % 10))
    }
}

/// A run of digits denotes at least what any of its prefixes denotes.
pub proof fn lemma_prefix_value(s: Seq<char>, k: int)
    requires
        0 <= k <= s.len(),
    ensures
        digits_value(s.subrange(0, k)) <= digits_value(s),
    decreases s.len(),
{
    if k == s.len() {
        assert(s.subrange(0, k) =~= s);
    } else {
        lemma_prefix_value(s.drop_last(), k);
        assert(s.drop_last().subrange(0, k) =~= s.subrange(0, k));
    }
}

/// The text of a number holds digits only, and at least one.
pub proof fn lemma_decimal_text_digits(n: nat)
    ensures
        decimal_text(n).len() > 0,
        all_digits(decimal_text(n)),
    decreases n,
{
    if n >= 10 {
        lemma_decimal_text_digits(n / 10);
    }
}

/// The text of a number denotes that number.
pub proof fn lemma_decimal_text_value(n: nat)
    ensures
        digits_value(decimal_text(n)) == n,
    decreases n,
{
    if n < 10 {
        assert(digits_value(decimal_text(n).drop_last()) == 0);
    } else {
        lemma_decimal_text_value(n / 10);
        assert(decimal_text(n).drop_last() =~= decimal_text(n / 10));
    }
}

/// Writing a 32-bit number and reading the text back gives the number.
pub proof fn lemma_text_round_trip(n: u32)
    ensures
        numeral_u32(decimal_text(n as nat)) == Some(n),
{
    lemma_decimal_text_digits(n as nat);
    lemma_decimal_text_value(n as nat);
}

/// Reads one character as a decimal digit.
pub fn digit_of(c: char) -> (r: Option<u32>)
    ensures
        r is Some <==> is_digit(c),
        r matches Some(d) ==> d == digit_value(c) && d <= 9,
{
    if '0' <= c && c <= '9' {
        Some(c as u32 - '0' as u32)
    } else {
        None
    }
}

/// Reads `text` as an unsigned 32-bit numeral.
pub fn parse_u32(text: &str) -> (r: Option<u32>)
    ensures
        r == numeral_u32(text@),
{
    let mut value: u32 = 0;
    let mut first: bool = true;
    let mut signed: bool = false;
    let mut seen: bool = false;
    for c in it: text.chars()
        invariant
            it.seq() == text@,
            first <==> it.index() == 0,
            signed <==> it.index() > 0 && text@[0] == '+',
            seen <==> it.index() > if signed { 1int } else { 0int },
            all_digits(text@.subrange(if signed { 1int } else { 0int }, it.index() as int)),
            value == digits_value(
                text@.subrange(if signed { 1int } else { 0int }, it.index() as int),
            ),
    {
        let ghost start = if signed { 1int } else { 0int };
        let ghost here = it.index() as int;
        if first && c == '+' {
            signed = true;
        } else {
            let ghost read = text@.subrange(start, here);
            let ghost next = text@.subrange(start, here + 1);
            let ghost digits = numeral_digits(text@);
            assert(next.drop_last() =~= read);
            match digit_of(c) {
                None => {
                    return None;
                },
                Some(d) => {
                    if value > (u32::MAX - d) / 10 {
                        proof {
                            lemma_prefix_value(digits, here + 1 - start);
                            assert(digits.subrange(0, here + 1 - start) =~= next);
                        }
                        return None;
                    }
                    value = value * 10 + d;
                    seen = true;
                },
            }
        }
        first = false;
    }
    assert(numeral_digits(text@) =~= text@.subrange(
        if signed { 1int } else { 0int },
        text@.len() as int,
    ));
    if seen {
        Some(value)
    } else {
        None
    }
}

/// The one-character text of the digit that stands for `d`.
fn digit_str(d: u32) -> (r: &'static str)
    requires
        d <= 9,
    ensures
        r@ == seq![digit_char(d as nat)],
{
    proof {
        reveal_strlit("0");
        reveal_strlit("1");
        reveal_strlit("2");
        reveal_strlit("3");
        reveal_strlit("4");
        reveal_strlit("5");
        reveal_strlit("6");
        reveal_strlit("7");
        reveal_strlit("8");
        reveal_strlit("9");
    }
    let r = match d {
        0 => "0",
        1 => "1",
        2 => "2",
        3 => "3",
        4 => "4",
        5 => "5",
        6 => "6",
        7 => "7",
        8 => "8",
        _ => "9",
    };
    r
}

/// Appends the decimal text of `n` to `out`.
pub fn push_decimal(out: &mut String, n: u32)
    ensures
        final(out)@ == old(out)@ + decimal_text(n as nat),
    decreases n,
{
    if n >= 10 {
        push_decimal(out, n / 10);
    }
    out.append(digit_str(n % 10));
}

/// The decimal text of `n`.
pub fn decimal_string(n: u32) -> (r: String)
    ensures
        r@ == decimal_text(n as nat),
{
    let mut out = String::new();
    push_decimal(&mut out, n);
    out
}

} // verus!
