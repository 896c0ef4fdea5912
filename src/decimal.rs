//! Unsigned decimal integers as they are written in a setting.
use vstd::prelude::*;
use vstd::utf8::{encode_utf8, is_ascii_chars};

verus! {

/// An ASCII decimal digit.
pub open spec fn is_digit(c: char) -> bool {
    '0' <= c && c <= '9'
}

/// The value of a decimal digit.
pub open spec fn digit_value(c: char) -> nat {
    (c as int - '0' as int) as nat
}

/// The value of a sequence of decimal digits, most significant first.
pub open spec fn digits_value(d: Seq<char>) -> nat
    decreases d.len(),
{
    if d.len() == 0 {
        0
    } else {
        digits_value(d.drop_last()) * 10 + digit_value(d.last())
    }
}

/// A non-empty sequence made only of decimal digits.
pub open spec fn is_digit_string(d: Seq<char>) -> bool {
    d.len() > 0 && forall|i: int| 0 <= i < d.len() ==> is_digit(#[trigger] d[i])
}

/// The text without one leading plus sign, if it has one.
pub open spec fn unsigned_part(text: Seq<char>) -> Seq<char> {
    if text.len() > 0 && text[0] == '+' {
        text.drop_first()
    } else {
        text
    }
}

/// The unsigned 64-bit integer that `text` denotes: an optional `+` followed
/// by at least one decimal digit, with a value that fits in 64 bits. Any
/// other text, including surrounding whitespace or a minus sign, denotes none.
pub open spec fn parsed_u64(text: Seq<char>) -> Option<u64> {
    let d = unsigned_part(text);
    if is_digit_string(d) && digits_value(d) <= u64::MAX {
        Some(digits_value(d) as u64)
    } else {
        None
    }
}

/// A prefix of a digit sequence never has a larger value than the whole.
proof fn lemma_prefix_value_le(d: Seq<char>, k: int)
    requires
        0 <= k <= d.len(),
        forall|i: int| 0 <= i < d.len() ==> is_digit(#[trigger] d[i]),
    ensures
        digits_value(d.subrange(0, k)) <= digits_value(d),
    decreases d.len() - k,
{
    if k < d.len() {
        lemma_prefix_value_le(d, k + 1);
        assert(d.subrange(0, k + 1).drop_last() =~= d.subrange(0, k));
    } else {
        assert(d.subrange(0, k) =~= d);
    }
}

/// Reads `text` as an unsigned decimal integer.
pub fn parse_u64(text: &str) -> (r: Option<u64>)
    ensures
        r == parsed_u64(text@),
{
    let ghost t = text@;
    if !text.is_ascii() {
        proof {
            let k = choose|k: int| 0 <= k < t.len() && !('\0' <= t[k] && t[k] <= '\u{7f}');
            let d = unsigned_part(t);
            let j = if t.len() > 0 && t[0] == '+' { k - 1 } else { k };
            assert(d[j] == t[k]);
            assert(!is_digit(d[j]));
        }
        return None;
    }
    let bytes = text.as_bytes();
    proof {
        vstd::utf8::is_ascii_chars_encode_utf8(t);
    }
    let n = bytes.len();
    let mut start: usize = 0;
    if n > 0 && bytes[0] == 43u8 {
        start = 1;
    }
    let ghost d = unsigned_part(t);
    assert(d =~= t.subrange(start as int, n as int));
    if start == n {
        return None;
    }
    let mut i: usize = start;
    let mut acc: u64 = 0;
    while i < n
        invariant
            start <= i <= n,
            n == t.len(),
            bytes@ == encode_utf8(t),
            bytes@.len() == n,
            forall|j: int| 0 <= j < t.len() ==> t[j] as u8 == #[trigger] encode_utf8(t)[j],
            is_ascii_chars(t),
            t == text@,
            d == unsigned_part(t),
            d =~= t.subrange(start as int, n as int),
            forall|j: int| 0 <= j < i - start ==> is_digit(#[trigger] d[j]),
            acc as nat == digits_value(d.subrange(0, i - start)),
        decreases n - i,
    {
        let b = bytes[i];
        let ghost c = t[i as int];
        assert(c as u8 == b);
        assert('\0' <= c && c <= '\u{7f}');
        assert(c as int == b as int);
        assert(d[i - start] == c);
        if b < 48u8 || b > 57u8 {
            assert(!is_digit(d[i - start]));
            return None;
        }
        assert(is_digit(c));
        let dv: u64 = (b - 48u8) as u64;
        assert(dv as nat == digit_value(c));
        assert(d.subrange(0, i + 1 - start).drop_last() =~= d.subrange(0, i - start));
        assert(digits_value(d.subrange(0, i + 1 - start)) == acc * 10 + dv);
        let next = match acc.checked_mul(10) {
            Some(m) => m.checked_add(dv),
            None => None,
        };
        match next {
            Some(v) => {
                acc = v;
            },
            None => {
                proof {
                    if is_digit_string(d) {
                        lemma_prefix_value_le(d, i + 1 - start);
                    }
                }
                return None;
            },
        }
        i = i + 1;
    }
    assert(d.subrange(0, n - start) =~= d);
    Some(acc)
}

} // verus!
