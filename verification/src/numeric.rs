//! Decimal rendering and parsing of integers, specified exactly.
//!
//! Rendering backs the response messages that embed a record identifier;
//! parsing backs the configuration loader, which must reject a malformed
//! port value.

use vstd::prelude::*;

verus! {

use vstd::string::StrSliceExecFns;
use vstd::string::StringExecFns;

/// The character for a single decimal digit value.
pub open spec fn spec_digit_char(d: int) -> char {
    if d == 0 {
        '0'
    } else if d == 1 {
        '1'
    } else if d == 2 {
        '2'
    } else if d == 3 {
        '3'
    } else if d == 4 {
        '4'
    } else if d == 5 {
        '5'
    } else if d == 6 {
        '6'
    } else if d == 7 {
        '7'
    } else if d == 8 {
        '8'
    } else {
        '9'
    }
}

/// The decimal digit sequence of a nonnegative integer, most significant
/// digit first, with no leading zeros (a lone zero for 0).
pub open spec fn spec_nat_digits(n: int) -> Seq<char>
    recommends
        n >= 0,
    decreases n,
{
    if n < 10 {
        seq![spec_digit_char(n)]
    } else {
        spec_nat_digits(n / 10).push(spec_digit_char(n % 10))
    }
}

/// The decimal rendering of a (possibly negative) integer.
pub open spec fn spec_int_chars(n: int) -> Seq<char> {
    if n < 0 {
        seq!['-'] + spec_nat_digits(-n)
    } else {
        spec_nat_digits(n)
    }
}

fn digit_str(d: u32) -> (r: &'static str)
    requires
        d < 10,
    ensures
        r@ == seq![spec_digit_char(d as int)],
{
    let r: &'static str = if d == 0 {
        "0"
    } else if d == 1 {
        "1"
    } else if d == 2 {
        "2"
    } else if d == 3 {
        "3"
    } else if d == 4 {
        "4"
    } else if d == 5 {
        "5"
    } else if d == 6 {
        "6"
    } else if d == 7 {
        "7"
    } else if d == 8 {
        "8"
    } else {
        "9"
    };
    proof {
        reveal_strlit("0");
        reveal_strlit("1");
        reveal_strlit("2");
        reveal_strlit("3");
        reveal_strlit("4");
        reveal_strlit("5");
        reveal_strlit("6");
        reveal_strlit("7");
        reveal_strlit("8");
        reveal_strlit("9");
        assert(r@ =~= seq![spec_digit_char(d as int)]);
    }
    r
}

fn nat_digits_string(n: u32) -> (r: String)
    ensures
        r@ == spec_nat_digits(n as int),
    decreases n,
{
    if n < 10 {
        let r = digit_str(n).to_owned();
        proof {
            assert(r@ =~= spec_nat_digits(n as int));
        }
        r
    } else {
        let mut s = nat_digits_string(n / 10);
        let d = digit_str(n % 10);
        s.append(d);
        proof {
            assert(s@ =~= spec_nat_digits(n as int));
        }
        s
    }
}

/// The decimal rendering of an `i32`, as `format!("{}", n)` would produce it.
pub fn i32_to_string(n: i32) -> (r: String)
    ensures
        r@ == spec_int_chars(n as int),
{
    if n >= 0 {
        nat_digits_string(n as u32)
    } else {
        let mag: u32 = (-(n as i64)) as u32;
        assert(mag as int == -(n as int));
        let mut s = "-".to_owned();
        let digits = nat_digits_string(mag);
        s.append(digits.as_str());
        proof {
            reveal_strlit("-");
            assert(s@ =~= spec_int_chars(n as int));
        }
        s
    }
}

/// Whether a character is an ASCII decimal digit.
pub open spec fn spec_is_digit(c: char) -> bool {
    48 <= c as int && c as int <= 57
}

/// Whether every character of the sequence is an ASCII decimal digit.
pub open spec fn spec_all_digits(s: Seq<char>) -> bool {
    forall|i: int| 0 <= i < s.len() ==> spec_is_digit(s[i])
}

/// The integer value of a sequence of ASCII decimal digits, most
/// significant first.
pub open spec fn spec_digits_value(s: Seq<char>) -> int
    recommends
        spec_all_digits(s),
    decreases s.len(),
{
    if s.len() == 0 {
        0
    } else {
        spec_digits_value(s.drop_last()) * 10 + (s.last() as int - 48)
    }
}

/// The value an `i32` decimal parse accepts: an optional leading minus
/// sign, then one or more digits, with the value in the `i32` range.
/// Anything else is rejected.
pub open spec fn spec_parse_i32(b: Seq<char>) -> Option<int> {
    if b.len() > 0 && b[0] == '-' {
        let d = b.subrange(1, b.len() as int);
        if d.len() > 0 && spec_all_digits(d) && -spec_digits_value(d) >= i32::MIN {
            Some(-spec_digits_value(d))
        } else {
            None
        }
    } else {
        if b.len() > 0 && spec_all_digits(b) && spec_digits_value(b) <= i32::MAX {
            Some(spec_digits_value(b))
        } else {
            None
        }
    }
}

proof fn lemma_digits_value_nonneg(s: Seq<char>)
    requires
        spec_all_digits(s),
    ensures
        spec_digits_value(s) >= 0,
    decreases s.len(),
{
    if s.len() > 0 {
        assert(spec_all_digits(s.drop_last()));
        lemma_digits_value_nonneg(s.drop_last());
    }
}

proof fn lemma_digits_value_prefix_le(s: Seq<char>, i: int)
    requires
        spec_all_digits(s),
        0 <= i <= s.len(),
    ensures
        spec_digits_value(s.take(i)) <= spec_digits_value(s),
    decreases s.len() - i,
{
    if i < s.len() {
        lemma_digits_value_prefix_le(s, i + 1);
        assert(s.take(i + 1).drop_last() =~= s.take(i));
        assert(spec_all_digits(s.take(i)));
        lemma_digits_value_nonneg(s.take(i));
        assert(spec_digits_value(s.take(i + 1)) == spec_digits_value(s.take(i)) * 10 + (s[i] as int
            - 48));
    } else {
        assert(s.take(i) =~= s);
    }
}

/// Parses a decimal `i32`, accepting exactly what `spec_parse_i32` accepts.
pub fn parse_i32(s: &str) -> (r: Option<i32>)
    ensures
        r is Some <==> spec_parse_i32(s@) is Some,
        r matches Some(x) ==> spec_parse_i32(s@) == Some(x as int),
{
    let len = s.unicode_len();
    if len == 0 {
        return None;
    }
    let neg = s.get_char(0) == '-';
    let start: usize = if neg {
        1
    } else {
        0
    };
    if start >= len {
        return None;
    }
    let ghost d = if neg {
        s@.subrange(1, s@.len() as int)
    } else {
        s@
    };
    let limit: u64 = if neg {
        2147483648
    } else {
        2147483647
    };
    let mut acc: u64 = 0;
    let mut i: usize = start;
    while i < len
        invariant
            start <= i <= len,
            0 < len == s@.len(),
            neg == (s@[0] == '-'),
            start == if neg { 1int } else { 0int },
            d == if neg { s@.subrange(1, len as int) } else { s@ },
            limit == if neg { 2147483648u64 } else { 2147483647u64 },
            spec_all_digits(d.take(i - start)),
            acc == spec_digits_value(d.take(i - start)),
            acc <= limit,
        decreases len - i,
    {
        let c = s.get_char(i);
        let v = c as u32;
        if v < 48 || v > 57 {
            assert(d[i - start] == c);
            assert(!spec_all_digits(d));
            return None;
        }
        let digit: u64 = (v - 48) as u64;
        let next: u64 = acc * 10 + digit;
        proof {
            assert(d.take(i + 1 - start).drop_last() =~= d.take(i - start));
            assert(d.take(i + 1 - start).last() == d[i - start]);
        }
        if next > limit {
            proof {
                assert(spec_all_digits(d.take(i + 1 - start)));
                if spec_all_digits(d) {
                    lemma_digits_value_prefix_le(d, i + 1 - start);
                    assert(spec_digits_value(d) >= next);
                }
            }
            return None;
        }
        acc = next;
        i = i + 1;
    }
    proof {
        assert(d.take(i - start) =~= d);
    }
    if neg {
        Some((-(acc as i64)) as i32)
    } else {
        Some(acc as i32)
    }
}

} // verus!
