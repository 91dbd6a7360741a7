//! Rendering of integers and booleans as the decimal / lowercase text the
//! HTTP API expects, together with the matching parse direction used when
//! reading numeric fields out of response bodies.

use vstd::prelude::*;

verus! {

/// The decimal digit character for a value below ten.
pub open spec fn spec_digit_char(d: int) -> char {
    if d == 0 {
        '0'
    } else if d == 1 {
        '1'
    } else if d == 2 {
        '2'
    } else if d == 3 {
        '3'
    } else if d == 4 {
        '4'
    } else if d == 5 {
        '5'
    } else if d == 6 {
        '6'
    } else if d == 7 {
        '7'
    } else if d == 8 {
        '8'
    } else {
        '9'
    }
}

/// The canonical decimal rendering of a non-negative integer: no sign, no
/// leading zeros (except for the single digit of zero itself).
pub open spec fn spec_nat_dec(n: int) -> Seq<char>
    decreases n,
{
    if n < 10 {
        seq![spec_digit_char(n)]
    } else {
        spec_nat_dec(n / 10).push(spec_digit_char(n % 10))
    }
}

/// The canonical decimal rendering of a signed integer: a leading minus sign
/// for negative values, then the magnitude.
pub open spec fn spec_int_dec(n: int) -> Seq<char> {
    if n < 0 {
        seq!['-'] + spec_nat_dec(-n)
    } else {
        spec_nat_dec(n)
    }
}

/// The lowercase rendering of a boolean.
pub open spec fn spec_bool_text(b: bool) -> Seq<char> {
    if b {
        "true"@
    } else {
        "false"@
    }
}

/// A one-character string slice holding the decimal digit for `d`.
fn digit_str(d: u64) -> (r: &'static str)
    requires
        d < 10,
    ensures
        r@ == seq![spec_digit_char(d as int)],
{
    let r = match d {
        0 => "0",
        1 => "1",
        2 => "2",
        3 => "3",
        4 => "4",
        5 => "5",
        6 => "6",
        7 => "7",
        8 => "8",
        _ => "9",
    };
    proof {
        reveal_strlit("0");
        reveal_strlit("1");
        reveal_strlit("2");
        reveal_strlit("3");
        reveal_strlit("4");
        reveal_strlit("5");
        reveal_strlit("6");
        reveal_strlit("7");
        reveal_strlit("8");
        reveal_strlit("9");
        assert(r@ =~= seq![spec_digit_char(d as int)]);
    }
    r
}

/// Appends the decimal rendering of `n` to `out`.
fn push_u64_dec(n: u64, out: &mut String)
    ensures
        final(out)@ == old(out)@ + spec_nat_dec(n as int),
    decreases n,
{
    if n < 10 {
        out.append(digit_str(n));
    } else {
        push_u64_dec(n / 10, out);
        out.append(digit_str(n % 10));
        proof {
            assert(final(out)@ =~= old(out)@ + spec_nat_dec(n as int));
        }
    }
}

/// The decimal rendering of an unsigned integer.
pub fn u64_to_string(n: u64) -> (r: String)
    ensures
        r@ == spec_nat_dec(n as int),
{
    let mut s = String::new();
    push_u64_dec(n, &mut s);
    proof {
        assert(s@ =~= spec_nat_dec(n as int));
    }
    s
}

/// The decimal rendering of a signed integer, with a leading minus sign for
/// negative values.
pub fn i64_to_string(n: i64) -> (r: String)
    ensures
        r@ == spec_int_dec(n as int),
{
    if n >= 0 {
        u64_to_string(n as u64)
    } else {
        let mag: u64 = if n == i64::MIN {
            9223372036854775808
        } else {
            (-n) as u64
        };
        assert(mag == -(n as int));
        let mut s = String::new();
        s.append("-");
        proof {
            reveal_strlit("-");
        }
        push_u64_dec(mag, &mut s);
        proof {
            assert(s@ =~= spec_int_dec(n as int));
        }
        s
    }
}

/// Whether the character is a decimal digit.
pub open spec fn is_dec_digit(c: char) -> bool {
    '0' as u32 <= c as u32 && c as u32 <= '9' as u32
}

/// The numeric value of a digit character.
pub open spec fn spec_digit_of(c: char) -> int {
    c as u32 - '0' as u32
}

/// Whether every character of the text is a decimal digit.
pub open spec fn spec_all_digits(s: Seq<char>) -> bool {
    forall|k: int| 0 <= k < s.len() ==> is_dec_digit(#[trigger] s[k])
}

/// The value of a run of decimal digits, most significant first.
pub open spec fn spec_digits_val(s: Seq<char>) -> int
    decreases s.len(),
{
    if s.len() == 0 {
        0
    } else {
        spec_digits_val(s.drop_last()) * 10 + spec_digit_of(s.last())
    }
}

/// The signed integer a decimal text denotes, if it is nothing but an
/// optional minus sign and digits and its value fits in the type; leading
/// zeros are accepted.
pub open spec fn spec_dec_i64(s: Seq<char>) -> Option<i64> {
    if s.len() >= 2 && s[0] == '-' {
        let mag = s.subrange(1, s.len() as int);
        if spec_all_digits(mag) && -spec_digits_val(mag) >= i64::MIN {
            Some((-spec_digits_val(mag)) as i64)
        } else {
            None
        }
    } else if s.len() >= 1 && spec_all_digits(s) {
        if spec_digits_val(s) <= i64::MAX {
            Some(spec_digits_val(s) as i64)
        } else {
            None
        }
    } else {
        None
    }
}

/// The value of a digit run never goes down as the run grows.
proof fn lemma_digits_val_nonneg(s: Seq<char>)
    requires
        spec_all_digits(s),
    ensures
        spec_digits_val(s) >= 0,
    decreases s.len(),
{
    if s.len() > 0 {
        assert(spec_all_digits(s.drop_last()));
        lemma_digits_val_nonneg(s.drop_last());
    }
}

/// Extending a digit run keeps its value at least as large.
proof fn lemma_digits_val_grows(s: Seq<char>, n: int)
    requires
        spec_all_digits(s),
        0 <= n <= s.len(),
    ensures
        spec_digits_val(s) >= spec_digits_val(s.subrange(0, n)),
    decreases s.len() - n,
{
    lemma_digits_val_nonneg(s.subrange(0, n));
    if n < s.len() {
        lemma_digits_val_grows(s, n + 1);
        assert(s.subrange(0, n + 1).drop_last() =~= s.subrange(0, n));
        assert(spec_all_digits(s.subrange(0, n + 1)));
        lemma_digits_val_nonneg(s.subrange(0, n + 1));
    } else {
        assert(s.subrange(0, n) =~= s);
    }
}

/// Reads a run of digits as an unsigned value, refusing anything above the
/// given bound.
fn parse_digits_u64(s: &Vec<char>, from: usize, limit: u64) -> (r: Option<u64>)
    requires
        from <= s.len(),
        spec_all_digits(s@.subrange(from as int, s@.len() as int)),
        s@.len() > from,
        limit >= 10,
    ensures
        match r {
            Some(v) => v as int == spec_digits_val(s@.subrange(from as int, s@.len() as int)) && v
                <= limit,
            None => spec_digits_val(s@.subrange(from as int, s@.len() as int)) > limit,
        },
{
    let ghost whole = s@.subrange(from as int, s@.len() as int);
    let mut acc: u64 = 0;
    let mut i: usize = from;
    while i < s.len()
        invariant
            from <= i <= s@.len(),
            whole == s@.subrange(from as int, s@.len() as int),
            spec_all_digits(whole),
            acc as int == spec_digits_val(s@.subrange(from as int, i as int)),
            acc <= limit,
            10 <= limit <= u64::MAX,
        decreases s@.len() - i,
    {
        let c = s[i];
        proof {
            assert(whole[i - from] == s@[i as int]);
            assert(is_dec_digit(c));
        }
        proof {
            assert('0' as u32 == 48 && '9' as u32 == 57);
        }
        let d: u64 = (c as u32 - '0' as u32) as u64;
        proof {
            assert(d < 10);
            assert(s@.subrange(from as int, i + 1 as int).drop_last() =~= s@.subrange(
                from as int,
                i as int,
            ));
        }
        if acc > (limit - d) / 10 {
            proof {
                assert(spec_digits_val(s@.subrange(from as int, i + 1 as int)) == acc * 10 + d);
                assert(acc * 10 + d > limit) by (nonlinear_arith)
                    requires
                        acc > (limit - d) / 10,
                        d < 10,
                        acc <= u64::MAX,
                        limit <= u64::MAX,
                        d <= limit || acc > 0,
                ;
                assert(forall|k: int| 0 <= k < whole.len() ==> whole[k] == s@[from + k]);
                assert(spec_all_digits(s@.subrange(from as int, s@.len() as int)));
                lemma_digits_val_grows(s@.subrange(from as int, s@.len() as int), i + 1 - from);
                assert(s@.subrange(from as int, s@.len() as int).subrange(0, i + 1 - from)
                    =~= s@.subrange(from as int, i + 1 as int));
            }
            return None;
        }
        acc = acc * 10 + d;
        i += 1;
        proof {
            assert(acc as int == spec_digits_val(s@.subrange(from as int, i as int)));
        }
    }
    proof {
        assert(s@.subrange(from as int, i as int) =~= whole);
    }
    Some(acc)
}

/// Reads a decimal text as a signed integer, exactly as [`spec_dec_i64`]
/// describes: an optional minus sign, digits, and a value that fits.
pub fn parse_i64(s: &str) -> (r: Option<i64>)
    ensures
        r == spec_dec_i64(s@),
{
    let chars = crate::json::chars_of(s);
    let neg = chars.len() >= 2 && chars[0] == '-';
    let from: usize = if neg {
        1
    } else {
        0
    };
    if chars.len() <= from {
        return None;
    }
    let mut k: usize = from;
    while k < chars.len()
        invariant
            chars@ == s@,
            from <= k <= chars@.len(),
            neg == (chars@.len() >= 2 && chars@[0] == '-'),
            neg ==> from == 1,
            !neg ==> from == 0,
            forall|m: int| from <= m < k ==> is_dec_digit(#[trigger] chars@[m]),
        decreases chars@.len() - k,
    {
        let c = chars[k];
        if !(c as u32 >= '0' as u32 && c as u32 <= '9' as u32) {
            proof {
                assert(!is_dec_digit(chars@[k as int]));
                assert(chars@.subrange(from as int, chars@.len() as int)[k - from] == chars@[k as int]);
                assert(!spec_all_digits(chars@.subrange(from as int, chars@.len() as int)));
                if neg {
                    assert(chars@.subrange(1, chars@.len() as int) =~= chars@.subrange(
                        from as int,
                        chars@.len() as int,
                    ));
                } else {
                    assert(chars@.subrange(0, chars@.len() as int) =~= chars@);
                    assert(!spec_all_digits(chars@));
                }
            }
            return None;
        }
        k += 1;
    }
    proof {
        assert(forall|m: int| 0 <= m < chars@.len() - from ==> chars@.subrange(
            from as int,
            chars@.len() as int,
        )[m] == chars@[m + from]);
        assert(spec_all_digits(chars@.subrange(from as int, chars@.len() as int)));
    }
    let limit: u64 = if neg {
        9223372036854775808
    } else {
        9223372036854775807
    };
    proof {
        if neg {
            assert(chars@.subrange(1, chars@.len() as int) =~= chars@.subrange(
                from as int,
                chars@.len() as int,
            ));
        } else {
            assert(chars@.subrange(from as int, chars@.len() as int) =~= chars@);
        }
    }
    match parse_digits_u64(&chars, from, limit) {
        None => None,
        Some(mag) => {
            if neg {
                let v: i64 = if mag == 9223372036854775808 {
                    i64::MIN
                } else {
                    -(mag as i64)
                };
                proof {
                    assert(chars@.subrange(1, chars@.len() as int) =~= chars@.subrange(
                        from as int,
                        chars@.len() as int,
                    ));
                }
                Some(v)
            } else {
                Some(mag as i64)
            }
        },
    }
}

/// The lowercase text of a boolean, `true` or `false`.
pub fn bool_to_string(b: bool) -> (r: String)
    ensures
        r@ == spec_bool_text(b),
{
    if b {
        String::from_str("true")
    } else {
        String::from_str("false")
    }
}

} // verus!
