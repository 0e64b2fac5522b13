//! Numbers as decimal text, in both directions.

use vstd::prelude::*;
use vstd::string::*;

verus! {

/// The character that stands for the digit `d`.
pub open spec fn digit(d: int) -> char {
    if d == 0 {
        '0'
    } else if d == 1 {
        '1'
    } else if d == 2 {
        '2'
    } else if d == 3 {
        '3'
    } else if d == 4 {
        '4'
    } else if d == 5 {
        '5'
    } else if d == 6 {
        '6'
    } else if d == 7 {
        '7'
    } else if d == 8 {
        '8'
    } else {
        '9'
    }
}

/// Decimal text of `n`: no sign, no leading zero but for zero itself.
pub open spec fn decimal(n: nat) -> Seq<char>
    decreases n,
{
    if n < 10 {
        seq![digit(n as int)]
    } else {
        decimal(n / 10).push(digit((n % 10) as int))
    }
}

/// Decimal text of `n`, with a leading minus sign when it is negative.
pub open spec fn signed_decimal(n: int) -> Seq<char> {
    if n < 0 {
        seq!['-'] + decimal((-n) as nat)
    } else {
        decimal(n as nat)
    }
}

/// Whether `c` is one of the ten decimal digits.
pub open spec fn is_digit(c: char) -> bool {
    exists|d: int| 0 <= d < 10 && c == digit(d)
}

/// The number that the digit `c` stands for.
pub open spec fn digit_value(c: char) -> int {
    choose|d: int| 0 <= d < 10 && c == digit(d)
}

/// The number that a run of digits stands for; leading zeros count for nothing.
pub open spec fn digits_value(s: Seq<char>) -> nat
    decreases s.len(),
{
    if s.len() == 0 {
        0
    } else {
        (digits_value(s.drop_last()) * 10 + digit_value(s.last())) as nat
    }
}

/// Whether `s` is made of decimal digits only.
pub open spec fn all_digits(s: Seq<char>) -> bool {
    forall|i: int| 0 <= i < s.len() ==> is_digit(#[trigger] s[i])
}

/// What is left of `s` once one leading plus sign, if there is one, is taken off.
pub open spec fn unsigned_part(s: Seq<char>) -> Seq<char> {
    if s.len() > 0 && s[0] == '+' {
        s.subrange(1, s.len() as int)
    } else {
        s
    }
}

/// The number that `s` denotes: an optional plus sign, then at least one digit,
/// the whole no larger than `u32::MAX`. Anything else denotes no number.
pub open spec fn parsed_u32(s: Seq<char>) -> Option<u32> {
    let body = unsigned_part(s);
    if body.len() > 0 && all_digits(body) && digits_value(body) <= u32::MAX {
        Some(digits_value(body) as u32)
    } else {
        None
    }
}

/// The one-character text of the digit `d`.
fn digit_text(d: u32) -> (r: &'static str)
    requires
        d < 10,
    ensures
        r@ == seq![digit(d as int)],
{
    proof {
        reveal_strlit("0");
        reveal_strlit("1");
        reveal_strlit("2");
        reveal_strlit("3");
        reveal_strlit("4");
        reveal_strlit("5");
        reveal_strlit("6");
        reveal_strlit("7");
        reveal_strlit("8");
        reveal_strlit("9");
    }
    let r = if d == 0 {
        "0"
    } else if d == 1 {
        "1"
    } else if d == 2 {
        "2"
    } else if d == 3 {
        "3"
    } else if d == 4 {
        "4"
    } else if d == 5 {
        "5"
    } else if d == 6 {
        "6"
    } else if d == 7 {
        "7"
    } else if d == 8 {
        "8"
    } else {
        "9"
    };
    assert(r@ =~= seq![digit(d as int)]);
    r
}

/// Appends the decimal text of `n` to `out`.
pub fn append_decimal(out: &mut String, n: u32)
    ensures
        final(out)@ == old(out)@ + decimal(n as nat),
    decreases n,
{
    if n >= 10 {
        append_decimal(out, n / 10);
    }
    out.append(digit_text(n % 10));
    assert(final(out)@ =~= old(out)@ + decimal(n as nat));
}

/// Appends the decimal text of `n` to `out`, with a minus sign first when `n` is
/// negative.
pub fn append_signed_decimal(out: &mut String, n: i32)
    ensures
        final(out)@ == old(out)@ + signed_decimal(n as int),
{
    if n < 0 {
        proof {
            reveal_strlit("-");
        }
        out.append("-");
        let magnitude: u32 = (-(n as i64)) as u32;
        append_decimal(out, magnitude);
        assert(final(out)@ =~= old(out)@ + signed_decimal(n as int));
    } else {
        append_decimal(out, n as u32);
    }
}

/// The decimal text of `n`.
pub fn decimal_text(n: u32) -> (r: String)
    ensures
        r@ == decimal(n as nat),
{
    let mut out = String::new();
    append_decimal(&mut out, n);
    assert(out@ =~= decimal(n as nat));
    out
}

/// The digit that `c` stands for, if it is one.
fn digit_of(c: char) -> (r: Option<u32>)
    ensures
        match r {
            Some(d) => d < 10 && is_digit(c) && digit_value(c) == d,
            None => !is_digit(c),
        },
{
    let r: Option<u32> = if c == '0' {
        Some(0)
    } else if c == '1' {
        Some(1)
    } else if c == '2' {
        Some(2)
    } else if c == '3' {
        Some(3)
    } else if c == '4' {
        Some(4)
    } else if c == '5' {
        Some(5)
    } else if c == '6' {
        Some(6)
    } else if c == '7' {
        Some(7)
    } else if c == '8' {
        Some(8)
    } else if c == '9' {
        Some(9)
    } else {
        None
    };
    proof {
        match r {
            Some(d) => {
                assert(0 <= d < 10 && c == digit(d as int));
            },
            None => {},
        }
    }
    r
}

/// A run of digits is worth at least as much as any of its prefixes.
proof fn lemma_prefix_value(s: Seq<char>, n: int)
    requires
        0 <= n <= s.len(),
        all_digits(s),
    ensures
        digits_value(s.take(n)) <= digits_value(s),
    decreases s.len(),
{
    if n == s.len() {
        assert(s.take(n) =~= s);
    } else {
        let front = s.drop_last();
        assert(all_digits(front)) by {
            assert forall|i: int| 0 <= i < front.len() implies is_digit(#[trigger] front[i]) by {
                assert(front[i] == s[i]);
            }
        }
        lemma_prefix_value(front, n);
        assert(front.take(n) =~= s.take(n));
        assert(is_digit(s.last()));
    }
}

/// The decimal text of a number is made of digits, at least one, and stands for
/// the number.
pub proof fn lemma_decimal_digits(n: nat)
    ensures
        decimal(n).len() > 0,
        all_digits(decimal(n)),
        digits_value(decimal(n)) == n,
    decreases n,
{
    let text = decimal(n);
    if n < 10 {
        assert(text.drop_last() =~= Seq::<char>::empty());
        assert(is_digit(text[0])) by {
            assert(0 <= n < 10 && text[0] == digit(n as int));
        }
        assert(digit_value(text.last()) == n);
        assert(digits_value(text.drop_last()) == 0);
    } else {
        let front = decimal(n / 10);
        let last = digit((n % 10) as int);
        lemma_decimal_digits(n / 10);
        assert(text.drop_last() =~= front);
        assert(text.last() == last);
        assert(is_digit(last)) by {
            assert(0 <= n % 10 < 10 && last == digit((n % 10) as int));
        }
        assert(digit_value(last) == n % 10);
        assert forall|i: int| 0 <= i < text.len() implies is_digit(#[trigger] text[i]) by {
            if i < front.len() {
                assert(text[i] == front[i]);
            }
        }
    }
}

/// The decimal text of a number denotes that number.
pub proof fn lemma_decimal_parses_back(n: u32)
    ensures
        parsed_u32(decimal(n as nat)) == Some(n),
{
    let text = decimal(n as nat);
    lemma_decimal_digits(n as nat);
    assert(is_digit(text[0]));
    assert(unsigned_part(text) == text);
}

/// Reads `text` as a number: an optional plus sign, then at least one digit.
/// `None` when `text` is anything else, or denotes more than `u32::MAX`.
pub fn parse_u32(text: &str) -> (r: Option<u32>)
    ensures
        r == parsed_u32(text@),
{
    let len = text.unicode_len();
    let mut i: usize = 0;
    if len > 0 && text.get_char(0) == '+' {
        i = 1;
    }
    let start = i;
    let ghost body = unsigned_part(text@);
    assert(body =~= text@.subrange(start as int, len as int));
    if i == len {
        return None;
    }
    let mut value: u32 = 0;
    while i < len
        invariant
            start <= i <= len,
            len == text@.len(),
            body == unsigned_part(text@),
            body == text@.subrange(start as int, len as int),
            all_digits(body.take(i - start)),
            value == digits_value(body.take(i - start)),
        decreases len - i,
    {
        let c = text.get_char(i);
        let ghost seen = body.take(i - start);
        let ghost next = body.take(i + 1 - start);
        proof {
            assert(next.drop_last() =~= seen);
            assert(next.last() == c);
        }
        match digit_of(c) {
            None => {
                proof {
                    assert(body[i - start] == c);
                }
                return None;
            },
            Some(d) => {
                proof {
                    assert forall|k: int| 0 <= k < next.len() implies is_digit(#[trigger] next[k]) by {
                        if k < seen.len() {
                            assert(next[k] == seen[k]);
                        }
                    }
                }
                if value > (u32::MAX - d) / 10 {
                    proof {
                        assert(digits_value(next) > u32::MAX);
                        if all_digits(body) {
                            lemma_prefix_value(body, i + 1 - start);
                        }
                    }
                    return None;
                }
                value = value * 10 + d;
            },
        }
        i += 1;
    }
    proof {
        assert(body.take(i - start) =~= body);
    }
    Some(value)
}

} // verus!
