use vstd::prelude::*;
use vstd::string::*;

verus! {

/// The text that a lossy UTF-8 reading gives for a byte string: the decoded
/// characters, with U+FFFD in place of each part that is not UTF-8.
pub uninterp spec fn lossy_text(bytes: Seq<u8>) -> Seq<char>;

/// The value of a decimal digit; `None` for any other character.
pub open spec fn digit_of(c: char) -> Option<nat> {
    if '0' <= c && c <= '9' {
        Some((c as nat - '0' as nat) as nat)
    } else {
        None
    }
}

/// The value of a row of decimal digits, the first one weighing most; `None`
/// where a character is no digit. The empty row has the value 0.
pub open spec fn digits_value(s: Seq<char>) -> Option<nat>
    decreases s.len(),
{
    if s.len() == 0 {
        Some(0)
    } else {
        match (digits_value(s.drop_last()), digit_of(s.last())) {
            (Some(v), Some(d)) => Some(v * 10 + d),
            _ => None,
        }
    }
}

/// A text without the plus sign that may stand before a number.
pub open spec fn unsigned_part(text: Seq<char>) -> Seq<char> {
    if text.len() > 0 && text[0] == '+' {
        text.subrange(1, text.len() as int)
    } else {
        text
    }
}

/// The number that a text stands for: one digit or more, with or without a
/// plus sign before them, and a value that fits in 64 bits. `None` for any
/// other text.
pub open spec fn parsed_u64(text: Seq<char>) -> Option<u64> {
    let digits = unsigned_part(text);
    if digits.len() == 0 {
        None
    } else {
        match digits_value(digits) {
            Some(v) => if v <= u64::MAX {
                Some(v as u64)
            } else {
                None
            },
            None => None,
        }
    }
}

/// A row of digits has a value only where each of its beginnings has one,
/// and the value of a beginning is no greater.
proof fn lemma_digits_prefix(s: Seq<char>, k: int)
    requires
        0 <= k <= s.len(),
        digits_value(s) is Some,
    ensures
        digits_value(s.subrange(0, k)) is Some,
        digits_value(s.subrange(0, k))->0 <= digits_value(s)->0,
    decreases s.len() - k,
{
    if k == s.len() {
        assert(s.subrange(0, k) =~= s);
    } else {
        lemma_digits_prefix(s.drop_last(), k);
        assert(s.drop_last().subrange(0, k) =~= s.subrange(0, k));
    }
}

/// In a row of digits that has a value every character is a digit.
proof fn lemma_digits_all(s: Seq<char>, j: int)
    requires
        0 <= j < s.len(),
        digits_value(s) is Some,
    ensures
        digit_of(s[j]) is Some,
    decreases s.len(),
{
    if j < s.len() - 1 {
        lemma_digits_all(s.drop_last(), j);
    }
}

/// Reads a number from a text.
pub fn parse_u64(text: &str) -> (r: Option<u64>)
    ensures
        r == parsed_u64(text@),
{
    let ghost digits = unsigned_part(text@);
    if !text.is_ascii() {
        proof {
            let j = choose|j: int|
                0 <= j < text@.len() && !('\0' <= #[trigger] text@[j] <= '\u{7f}');
            if digits.len() > 0 && digits_value(digits) is Some {
                if text@[0] == '+' {
                    lemma_digits_all(digits, j - 1);
                } else {
                    lemma_digits_all(digits, j);
                }
            }
        }
        return None;
    }
    let bytes = text.as_bytes();
    proof {
        is_ascii_spec_bytes(text);
    }
    let n = bytes.len();
    let start: usize = if n > 0 && bytes[0] == 43 {
        1
    } else {
        0
    };
    if start == n {
        return None;
    }
    assert(digits =~= text@.subrange(start as int, n as int));
    let mut value: u64 = 0;
    let mut i: usize = start;
    assert(digits.subrange(0, 0).len() == 0);
    while i < n
        invariant
            start <= i <= n,
            n == text@.len(),
            is_ascii(text),
            bytes@ == Seq::new(text@.len(), |k: int| text@[k] as u8),
            digits == unsigned_part(text@),
            digits == text@.subrange(start as int, n as int),
            digits_value(digits.subrange(0, i - start)) == Some(value as nat),
        decreases n - i,
    {
        let b = bytes[i];
        let ghost c = text@[i as int];
        let ghost done = digits.subrange(0, i - start);
        let ghost next = digits.subrange(0, i - start + 1);
        assert(next.drop_last() =~= done);
        assert(next.last() == c);
        assert(digits[i - start] == c);
        assert(c as u8 == b);
        assert('\0' <= c <= '\u{7f}');
        if b < 48 || b > 57 {
            proof {
                assert(digit_of(c) is None);
                if digits_value(digits) is Some {
                    lemma_digits_all(digits, i - start);
                }
            }
            return None;
        }
        let d: u64 = (b - 48) as u64;
        assert(digit_of(c) == Some(d as nat));
        if value > (u64::MAX - d) / 10 {
            proof {
                assert(value * 10 + d > u64::MAX);
                assert(digits_value(next) == Some((value * 10 + d) as nat));
                if digits_value(digits) is Some {
                    lemma_digits_prefix(digits, i - start + 1);
                }
            }
            return None;
        }
        value = value * 10 + d;
        i = i + 1;
    }
    assert(digits.subrange(0, i - start) =~= digits);
    Some(value)
}

/// Compares two string slices with `str::eq`: the result is `true` exactly
/// when both hold the same characters.
#[verifier::external_body]
pub(crate) fn str_eq(a: &str, b: &str) -> (r: bool)
    ensures
        r == (a@ == b@),
{
    a == b
}

/// Calls `String::from_utf8_lossy`. The result is the text named by
/// `lossy_text`.
#[verifier::external_body]
pub(crate) fn lossy(bytes: &[u8]) -> (r: String)
    ensures
        r@ == lossy_text(bytes@),
{
    String::from_utf8_lossy(bytes).into_owned()
}

/// The character that writes a digit below ten.
pub open spec fn digit_char(d: nat) -> char {
    if d == 0 {
        '0'
    } else if d == 1 {
        '1'
    } else if d == 2 {
        '2'
    } else if d == 3 {
        '3'
    } else if d == 4 {
        '4'
    } else if d == 5 {
        '5'
    } else if d == 6 {
        '6'
    } else if d == 7 {
        '7'
    } else if d == 8 {
        '8'
    } else {
        '9'
    }
}

/// The decimal numeral of a natural number, without leading zeros.
pub open spec fn decimal(n: nat) -> Seq<char>
    decreases n,
{
    if n < 10 {
        seq![digit_char(n)]
    } else {
        decimal(n / 10).push(digit_char(n % 10))
    }
}

fn digit_str(d: u64) -> (r: &'static str)
    requires
        d < 10,
    ensures
        r@ == seq![digit_char(d as nat)],
{
    proof {
        reveal_strlit("0");
        reveal_strlit("1");
        reveal_strlit("2");
        reveal_strlit("3");
        reveal_strlit("4");
        reveal_strlit("5");
        reveal_strlit("6");
        reveal_strlit("7");
        reveal_strlit("8");
        reveal_strlit("9");
    }
    let r = if d == 0 {
        "0"
    } else if d == 1 {
        "1"
    } else if d == 2 {
        "2"
    } else if d == 3 {
        "3"
    } else if d == 4 {
        "4"
    } else if d == 5 {
        "5"
    } else if d == 6 {
        "6"
    } else if d == 7 {
        "7"
    } else if d == 8 {
        "8"
    } else {
        "9"
    };
    assert(r@ =~= seq![digit_char(d as nat)]);
    r
}

/// Writes an unsigned number in decimal.
pub fn decimal_string(n: u64) -> (r: String)
    ensures
        r@ == decimal(n as nat),
    decreases n,
{
    if n < 10 {
        String::from_str(digit_str(n))
    } else {
        let mut s = decimal_string(n / 10);
        let d = digit_str(n % 10);
        s.append(d);
        assert(s@ =~= decimal((n / 10) as nat).push(digit_char((n % 10) as nat)));
        s
    }
}

/// Appends the decimal numeral of `n` to `out`.
pub fn push_decimal(out: &mut String, n: u64)
    ensures
        final(out)@ == old(out)@ + decimal(n as nat),
{
    let s = decimal_string(n);
    out.append(s.as_str());
}

} // verus!
