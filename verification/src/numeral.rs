//! Decimal text of integers: a specification of what a numeral means, a
//! verified parser for guesses typed by the player, and a verified formatter
//! for showing range bounds.

use vstd::prelude::*;

verus! {

/// A decimal digit character, `'0'` through `'9'`.
pub open spec fn is_digit_char(c: char) -> bool {
    48 <= c as int && c as int <= 57
}

/// The value of one digit character.
pub open spec fn digit_value(c: char) -> int {
    c as int - 48
}

/// The digit character for a value in `0..10`.
pub open spec fn digit_glyph(d: int) -> char {
    (48 + d) as char
}

/// Every character of `s` is a decimal digit.
pub open spec fn all_digits(s: Seq<char>) -> bool {
    forall|i: int| 0 <= i < s.len() ==> is_digit_char(#[trigger] s[i])
}

/// The value of a digit string, most significant digit first.
/// The empty string counts as 0.
pub open spec fn digits_value(s: Seq<char>) -> int
    decreases s.len(),
{
    if s.len() == 0 {
        0
    } else {
        digits_value(s.drop_last()) * 10 + digit_value(s.last())
    }
}

/// The decimal text of a nonnegative integer, without sign or leading zeros.
pub open spec fn digit_text(n: int) -> Seq<char>
    decreases n,
{
    if n < 10 {
        seq![digit_glyph(n)]
    } else {
        digit_text(n / 10) + seq![digit_glyph(n % 10)]
    }
}

/// The decimal text of an integer, with a leading `-` when negative.
pub open spec fn int_text(n: int) -> Seq<char> {
    if n < 0 {
        seq!['-'] + digit_text(-n)
    } else {
        digit_text(n)
    }
}

/// The integer denoted by a sign and a digit string, when it is a valid
/// numeral whose value fits in `i32`.
pub open spec fn signed_value(neg: bool, ds: Seq<char>) -> Option<int> {
    if ds.len() == 0 || !all_digits(ds) {
        None
    } else {
        let v: int = if neg {
            -digits_value(ds)
        } else {
            digits_value(ds)
        };
        if -2147483648 <= v && v <= 2147483647 {
            Some(v)
        } else {
            None
        }
    }
}

/// What `s` denotes as an `i32` numeral: an optional `+` or `-` sign followed
/// by at least one decimal digit, with a value that fits in `i32`; `None` for
/// any other text.
pub open spec fn parsed_int(s: Seq<char>) -> Option<int> {
    if s.len() > 0 && (s[0] == '-' || s[0] == '+') {
        signed_value(s[0] == '-', s.subrange(1, s.len() as int))
    } else {
        signed_value(false, s)
    }
}

/// Parses `s` as an `i32` numeral: an optional `+` or `-` sign followed by
/// at least one decimal digit. Returns `None` when the text is not such a
/// numeral or its value does not fit in `i32`.
pub fn parse_int(s: &str) -> (r: Option<i32>)
    ensures
        ({
            match r {
                Some(v) => parsed_int(s@) == Some(v as int),
                None => parsed_int(s@) is None,
            }
        }),
{
    let len: usize = s.unicode_len();
    let mut start: usize = 0;
    let mut neg = false;
    if len > 0 {
        let c0 = s.get_char(0);
        if c0 == '-' {
            neg = true;
            start = 1;
        } else if c0 == '+' {
            start = 1;
        }
    }
    proof {
        if start == 0 {
            assert(s@.subrange(0, len as int) =~= s@);
        }
        assert(parsed_int(s@) == signed_value(neg, s@.subrange(start as int, len as int)));
    }
    if start >= len {
        return None;
    }
    let ghost ds = s@.subrange(start as int, len as int);
    let mut j: usize = start;
    let mut mag: u64 = 0;
    let mut over_limit = false;
    while j < len
        invariant
            start <= j <= len,
            len == s@.len(),
            ds == s@.subrange(start as int, len as int),
            parsed_int(s@) == signed_value(neg, ds),
            forall|k: int| start <= k < j ==> is_digit_char(#[trigger] s@[k]),
            !over_limit ==> mag == digits_value(s@.subrange(start as int, j as int))
                && mag <= 2147483648,
            over_limit ==> digits_value(s@.subrange(start as int, j as int)) > 2147483648,
        decreases len - j,
    {
        let c = s.get_char(j);
        let cv = c as u32;
        if cv < 48 || cv > 57 {
            proof {
                assert(ds[j - start] == s@[j as int]);
                assert(!all_digits(ds));
            }
            return None;
        }
        let d: u64 = (cv - 48) as u64;
        proof {
            assert(s@.subrange(start as int, j + 1).drop_last() =~= s@.subrange(
                start as int,
                j as int,
            ));
            assert(s@.subrange(start as int, j + 1).last() == s@[j as int]);
        }
        if !over_limit {
            mag = mag * 10 + d;
            if mag > 2147483648 {
                over_limit = true;
            }
        }
        j = j + 1;
    }
    proof {
        assert(forall|i: int| 0 <= i < ds.len() ==> ds[i] == s@[start + i]);
        assert(all_digits(ds));
        assert(ds.len() > 0);
    }
    if over_limit {
        return None;
    }
    if neg {
        if mag == 2147483648 {
            Some(i32::MIN)
        } else {
            Some(-(mag as i32))
        }
    } else {
        if mag <= 2147483647 {
            Some(mag as i32)
        } else {
            None
        }
    }
}

/// The one-character text of a digit value.
fn digit_str(d: u32) -> (r: &'static str)
    requires
        d < 10,
    ensures
        r@ == seq![digit_glyph(d as int)],
{
    proof {
        reveal_strlit("0");
        reveal_strlit("1");
        reveal_strlit("2");
        reveal_strlit("3");
        reveal_strlit("4");
        reveal_strlit("5");
        reveal_strlit("6");
        reveal_strlit("7");
        reveal_strlit("8");
        reveal_strlit("9");
    }
    let r = if d == 0 {
        "0"
    } else if d == 1 {
        "1"
    } else if d == 2 {
        "2"
    } else if d == 3 {
        "3"
    } else if d == 4 {
        "4"
    } else if d == 5 {
        "5"
    } else if d == 6 {
        "6"
    } else if d == 7 {
        "7"
    } else if d == 8 {
        "8"
    } else {
        "9"
    };
    proof {
        assert(r@ =~= seq![digit_glyph(d as int)]);
    }
    r
}

/// The decimal text of a nonnegative value, most significant digit first.
fn format_magnitude(n: u32) -> (s: String)
    ensures
        s@ == digit_text(n as int),
    decreases n,
{
    let d: u32 = n % 10;
    let q: u32 = n / 10;
    if q == 0 {
        String::from_str(digit_str(n))
    } else {
        let mut front = format_magnitude(q);
        front.append(digit_str(d));
        front
    }
}

/// The decimal text of `n`, with a leading `-` when it is negative.
pub fn format_int(n: i32) -> (s: String)
    ensures
        s@ == int_text(n as int),
{
    if n >= 0 {
        format_magnitude(n as u32)
    } else {
        let mag: u32 = (-(n as i64)) as u32;
        let mut s = String::from_str("-");
        let tail = format_magnitude(mag);
        s.append(tail.as_str());
        proof {
            reveal_strlit("-");
            assert("-"@ =~= seq!['-']);
        }
        s
    }
}

} // verus!
