//! Decimal rendering and parsing for unsigned integers.
//!
//! The risk governor embeds counters in its block messages and reads its
//! configuration from textual environment values, so the library needs an
//! exact account of both directions: `u64_to_string` renders a number the way
//! `Display` would, and `parse_u64` / `parse_u32` accept exactly the strings
//! that Rust's integer parsing accepts (an optional leading `+`, then one or
//! more ASCII digits, value in range).

use vstd::prelude::*;

verus! {

/// The digit character for a value in `0 ..= 9`.
pub open spec fn spec_digit(d: int) -> char {
    if d == 0 {
        '0'
    } else if d == 1 {
        '1'
    } else if d == 2 {
        '2'
    } else if d == 3 {
        '3'
    } else if d == 4 {
        '4'
    } else if d == 5 {
        '5'
    } else if d == 6 {
        '6'
    } else if d == 7 {
        '7'
    } else if d == 8 {
        '8'
    } else {
        '9'
    }
}

/// Decimal rendering of a nonnegative integer, most significant digit first.
pub open spec fn spec_udec(n: int) -> Seq<char>
    decreases n,
{
    if n < 10 {
        seq![spec_digit(n)]
    } else {
        spec_udec(n / 10).push(spec_digit(n % 10))
    }
}

/// Whether `c` is an ASCII decimal digit.
pub open spec fn is_digit_char(c: char) -> bool {
    '0' <= c && c <= '9'
}

/// Numeric value of a digit character.
pub open spec fn digit_val(c: char) -> int {
    c as int - '0' as int
}

/// Every character of `s` is an ASCII decimal digit.
pub open spec fn all_digits(s: Seq<char>) -> bool {
    forall|i: int| 0 <= i < s.len() ==> is_digit_char(#[trigger] s[i])
}

/// Value of a digit string, most significant digit first.
pub open spec fn digits_val(s: Seq<char>) -> int
    decreases s.len(),
{
    if s.len() == 0 {
        0
    } else {
        digits_val(s.drop_last()) * 10 + digit_val(s.last())
    }
}

/// The digit sequence a string must hold for unsigned parsing: everything
/// after an optional leading `+`.
pub open spec fn spec_unsigned_body(s: Seq<char>) -> Seq<char> {
    if s.len() > 0 && s[0] == '+' {
        s.subrange(1, s.len() as int)
    } else {
        s
    }
}

/// What `str::parse::<u64>` returns on `s`.
pub open spec fn spec_parse_u64(s: Seq<char>) -> Option<u64> {
    let t = spec_unsigned_body(s);
    if t.len() > 0 && all_digits(t) && digits_val(t) <= u64::MAX {
        Some(digits_val(t) as u64)
    } else {
        None
    }
}

/// What `str::parse::<u32>` returns on `s`.
pub open spec fn spec_parse_u32(s: Seq<char>) -> Option<u32> {
    let t = spec_unsigned_body(s);
    if t.len() > 0 && all_digits(t) && digits_val(t) <= u32::MAX {
        Some(digits_val(t) as u32)
    } else {
        None
    }
}

/// A digit string never has a negative value.
pub proof fn lemma_digits_val_nonneg(s: Seq<char>)
    requires
        all_digits(s),
    ensures
        digits_val(s) >= 0,
    decreases s.len(),
{
    if s.len() > 0 {
        assert(all_digits(s.drop_last())) by {
            assert(forall|i: int|
                0 <= i < s.len() - 1 ==> #[trigger] s.drop_last()[i] == s[i]);
        }
        lemma_digits_val_nonneg(s.drop_last());
    }
}

/// Extending a digit string on the right can only grow its value.
pub proof fn lemma_digits_val_prefix(s: Seq<char>, j: int)
    requires
        all_digits(s),
        0 <= j <= s.len(),
    ensures
        digits_val(s) >= digits_val(s.take(j)),
    decreases s.len() - j,
{
    if j == s.len() {
        assert(s.take(j) =~= s);
    } else {
        lemma_digits_val_prefix(s, j + 1);
        let t = s.take(j + 1);
        assert(t.drop_last() =~= s.take(j));
        assert(all_digits(s.take(j))) by {
            assert(forall|i: int|
                0 <= i < j ==> #[trigger] s.take(j)[i] == s[i]);
        }
        lemma_digits_val_nonneg(s.take(j));
        assert(digits_val(t) == digits_val(s.take(j)) * 10 + digit_val(s[j]));
        assert(digit_val(s[j]) >= 0);
    }
}

/// The one-character string for a digit value.
fn digit_str(d: u64) -> (r: &'static str)
    requires
        d < 10,
    ensures
        r@ == seq![spec_digit(d as int)],
{
    if d == 0 {
        proof {
            reveal_strlit("0");
            assert("0"@ =~= seq![spec_digit(0)]);
        }
        "0"
    } else if d == 1 {
        proof {
            reveal_strlit("1");
            assert("1"@ =~= seq![spec_digit(1)]);
        }
        "1"
    } else if d == 2 {
        proof {
            reveal_strlit("2");
            assert("2"@ =~= seq![spec_digit(2)]);
        }
        "2"
    } else if d == 3 {
        proof {
            reveal_strlit("3");
            assert("3"@ =~= seq![spec_digit(3)]);
        }
        "3"
    } else if d == 4 {
        proof {
            reveal_strlit("4");
            assert("4"@ =~= seq![spec_digit(4)]);
        }
        "4"
    } else if d == 5 {
        proof {
            reveal_strlit("5");
            assert("5"@ =~= seq![spec_digit(5)]);
        }
        "5"
    } else if d == 6 {
        proof {
            reveal_strlit("6");
            assert("6"@ =~= seq![spec_digit(6)]);
        }
        "6"
    } else if d == 7 {
        proof {
            reveal_strlit("7");
            assert("7"@ =~= seq![spec_digit(7)]);
        }
        "7"
    } else if d == 8 {
        proof {
            reveal_strlit("8");
            assert("8"@ =~= seq![spec_digit(8)]);
        }
        "8"
    } else {
        proof {
            reveal_strlit("9");
            assert("9"@ =~= seq![spec_digit(9)]);
        }
        "9"
    }
}

/// Renders `n` in decimal, as `Display` would.
pub fn u64_to_string(n: u64) -> (r: String)
    ensures
        r@ == spec_udec(n as int),
    decreases n,
{
    if n < 10 {
        String::from_str(digit_str(n))
    } else {
        let mut s = u64_to_string(n / 10);
        s.append(digit_str(n % 10));
        proof {
            assert(spec_udec((n / 10) as int) + seq![spec_digit((n % 10) as int)]
                =~= spec_udec(n as int));
        }
        s
    }
}

/// Parses an unsigned 64-bit integer exactly as `str::parse::<u64>` does.
pub fn parse_u64(s: &str) -> (r: Option<u64>)
    ensures
        r == spec_parse_u64(s@),
{
    let len = s.unicode_len();
    let ghost t = spec_unsigned_body(s@);
    let start: usize = if len > 0 && s.get_char(0) == '+' {
        1
    } else {
        0
    };
    proof {
        assert(t =~= s@.subrange(start as int, s@.len() as int));
    }
    if len == start {
        return None;
    }
    let mut acc: u64 = 0;
    let mut i: usize = start;
    while i < len
        invariant
            start <= i <= len,
            len == s@.len(),
            t == s@.subrange(start as int, s@.len() as int),
            t == spec_unsigned_body(s@),
            t.len() > 0,
            all_digits(t.take(i - start)),
            acc == digits_val(t.take(i - start)),
        decreases len - i,
    {
        let c = s.get_char(i);
        if c < '0' || c > '9' {
            proof {
                assert(t[i - start] == c);
                assert(!all_digits(t));
            }
            return None;
        }
        let d: u64 = (c as u32 as u64) - 48;
        proof {
            assert(d == digit_val(c));
            assert(t.take(i - start + 1).drop_last() =~= t.take(i - start));
            assert(t.take(i - start + 1).last() == c);
        }
        if acc > (u64::MAX - d) / 10 {
            // The next digit pushes the value past `u64::MAX`, so the whole
            // string is out of range.
            proof {
                assert(digits_val(t.take(i - start + 1)) > u64::MAX);
                assert(all_digits(t.take(i - start + 1))) by {
                    assert(forall|k: int| 0 <= k < i - start + 1
                        ==> #[trigger] t.take(i - start + 1)[k] == t[k]);
                    assert(forall|k: int| 0 <= k < i - start
                        ==> t.take(i - start)[k] == t[k]);
                }
                if all_digits(t) {
                    lemma_digits_val_prefix(t, i - start + 1);
                }
            }
            return None;
        }
        acc = acc * 10 + d;
        i = i + 1;
    }
    proof {
        assert(t.take(i - start) =~= t);
    }
    Some(acc)
}

/// Parses an unsigned 32-bit integer exactly as `str::parse::<u32>` does.
pub fn parse_u32(s: &str) -> (r: Option<u32>)
    ensures
        r == spec_parse_u32(s@),
{
    proof {
        let t = spec_unsigned_body(s@);
        if all_digits(t) {
            lemma_digits_val_nonneg(t);
        }
    }
    match parse_u64(s) {
        Some(v) if v <= u32::MAX as u64 => Some(v as u32),
        _ => {
            proof {
                let t = spec_unsigned_body(s@);
                if t.len() > 0 && all_digits(t) && digits_val(t) <= u32::MAX {
                    assert(digits_val(t) <= u64::MAX);
                }
            }
            None
        },
    }
}

} // verus!
