//! A small JSON reader and the writer used for the bulk-write body.
//!
//! Response bodies from the service are JSON documents; this module parses
//! them into a tree of [`JsonValue`] nodes against the grammar written out
//! by the specification functions below. Numbers are kept as their raw
//! numeral text, which callers either pass through or read as integers.

use vstd::prelude::*;

verus! {

/// A parsed JSON document at the specification level. Numbers carry their
/// raw numeral text; strings carry their decoded characters.
#[verifier::ext_equal]
pub enum JsonData {
    Null,
    Bool(bool),
    Num(Seq<char>),
    Str(Seq<char>),
    Arr(Seq<JsonData>),
    Obj(Seq<(Seq<char>, JsonData)>),
}

/// A parsed JSON document. The mirror of [`JsonData`] with owned values.
pub enum JsonValue {
    Null,
    Bool(bool),
    Num(String),
    Str(String),
    Arr(Vec<JsonValue>),
    Obj(Vec<(String, JsonValue)>),
}

/// The specification-level tree of a parsed value.
pub open spec fn json_data_of(j: JsonValue) -> JsonData
    decreases j,
{
    match j {
        JsonValue::Null => JsonData::Null,
        JsonValue::Bool(b) => JsonData::Bool(b),
        JsonValue::Num(t) => JsonData::Num(t@),
        JsonValue::Str(t) => JsonData::Str(t@),
        JsonValue::Arr(v) => JsonData::Arr(
            Seq::new(
                v@.len(),
                |i: int|
                    if 0 <= i < v@.len() {
                        json_data_of(v@[i])
                    } else {
                        JsonData::Null
                    },
            ),
        ),
        JsonValue::Obj(v) => JsonData::Obj(
            Seq::new(
                v@.len(),
                |i: int|
                    if 0 <= i < v@.len() {
                        (v@[i].0@, json_data_of(v@[i].1))
                    } else {
                        (Seq::empty(), JsonData::Null)
                    },
            ),
        ),
    }
}

impl View for JsonValue {
    type V = JsonData;

    open spec fn view(&self) -> JsonData {
        json_data_of(*self)
    }
}

impl DeepView for JsonValue {
    type V = JsonData;

    open spec fn deep_view(&self) -> JsonData {
        json_data_of(*self)
    }
}

/// The four whitespace characters JSON allows between tokens.
pub open spec fn is_ws_char(c: char) -> bool {
    c == ' ' || c == '\t' || c == '\n' || c == '\r'
}

/// A decimal digit.
pub open spec fn is_digit_char(c: char) -> bool {
    '0' as u32 <= c as u32 && c as u32 <= '9' as u32
}

/// The value of a hexadecimal digit, or nothing for any other character.
pub open spec fn spec_hex_val(c: char) -> Option<int> {
    if '0' as u32 <= c as u32 && c as u32 <= '9' as u32 {
        Some(c as u32 - '0' as u32)
    } else if 'a' as u32 <= c as u32 && c as u32 <= 'f' as u32 {
        Some(c as u32 - 'a' as u32 + 10)
    } else if 'A' as u32 <= c as u32 && c as u32 <= 'F' as u32 {
        Some(c as u32 - 'A' as u32 + 10)
    } else {
        None
    }
}

/// The value of the four hexadecimal digits at `i`, if they are there.
pub open spec fn spec_hex4(s: Seq<char>, i: int) -> Option<int> {
    if i + 4 <= s.len() {
        match (spec_hex_val(s[i]), spec_hex_val(s[i + 1]), spec_hex_val(s[i + 2]), spec_hex_val(
            s[i + 3],
        )) {
            (Some(a), Some(b), Some(c), Some(d)) => Some(a * 4096 + b * 256 + c * 16 + d),
            _ => None,
        }
    } else {
        None
    }
}

/// The character with scalar value `v`; meaningful only for valid scalars.
pub open spec fn spec_scalar_char(v: int) -> char {
    (v as u32) as char
}

/// The first position at or after `i` holding no whitespace.
pub open spec fn spec_skip_ws(s: Seq<char>, i: int) -> int
    decreases s.len() - i
        when 0 <= i <= s.len()
{
    if i < s.len() && is_ws_char(s[i]) {
        spec_skip_ws(s, i + 1)
    } else {
        i
    }
}

/// The first position at or after `i` holding no decimal digit.
pub open spec fn spec_skip_digits(s: Seq<char>, i: int) -> int
    decreases s.len() - i
        when 0 <= i <= s.len()
{
    if i < s.len() && is_digit_char(s[i]) {
        spec_skip_digits(s, i + 1)
    } else {
        i
    }
}

/// Prepends a decoded character to the result of parsing the rest of a
/// string body.
pub open spec fn spec_str_cons(c: char, rest: Option<(Seq<char>, int)>) -> Option<
    (Seq<char>, int),
> {
    match rest {
        Some((cs, j)) => Some((seq![c] + cs, j)),
        None => None,
    }
}

/// Parses the body of a JSON string starting just after the opening quote:
/// the decoded characters and the position just after the closing quote.
/// Escapes follow the JSON grammar, including `\uXXXX` with surrogate
/// pairs; unescaped control characters are refused.
pub open spec fn spec_str_chars(s: Seq<char>, i: int) -> Option<(Seq<char>, int)>
    decreases s.len() - i
        when 0 <= i <= s.len()
{
    if i >= s.len() {
        None
    } else if s[i] == '"' {
        Some((Seq::empty(), i + 1))
    } else if s[i] == '\\' {
        if i + 2 > s.len() {
            None
        } else {
            let e = s[i + 1];
            if e == '"' {
                spec_str_cons('"', spec_str_chars(s, i + 2))
            } else if e == '\\' {
                spec_str_cons('\\', spec_str_chars(s, i + 2))
            } else if e == '/' {
                spec_str_cons('/', spec_str_chars(s, i + 2))
            } else if e == 'b' {
                spec_str_cons('\u{0008}', spec_str_chars(s, i + 2))
            } else if e == 'f' {
                spec_str_cons('\u{000C}', spec_str_chars(s, i + 2))
            } else if e == 'n' {
                spec_str_cons('\n', spec_str_chars(s, i + 2))
            } else if e == 'r' {
                spec_str_cons('\r', spec_str_chars(s, i + 2))
            } else if e == 't' {
                spec_str_cons('\t', spec_str_chars(s, i + 2))
            } else if e == 'u' {
                match spec_hex4(s, i + 2) {
                    None => None,
                    Some(v) => if 0xD800 <= v < 0xDC00 {
                        if i + 12 <= s.len() && s[i + 6] == '\\' && s[i + 7] == 'u' {
                            match spec_hex4(s, i + 8) {
                                None => None,
                                Some(lo) => if 0xDC00 <= lo < 0xE000 {
                                    spec_str_cons(
                                        spec_scalar_char(
                                            0x10000 + (v - 0xD800) * 0x400 + (lo - 0xDC00),
                                        ),
                                        spec_str_chars(s, i + 12),
                                    )
                                } else {
                                    None
                                },
                            }
                        } else {
                            None
                        }
                    } else if 0xDC00 <= v < 0xE000 {
                        None
                    } else {
                        spec_str_cons(spec_scalar_char(v), spec_str_chars(s, i + 6))
                    },
                }
            } else {
                None
            }
        }
    } else if (s[i] as u32) < 0x20 {
        None
    } else {
        spec_str_cons(s[i], spec_str_chars(s, i + 1))
    }
}

/// The position just after an optional exponent part starting at `j`.
pub open spec fn spec_num_exp(s: Seq<char>, j: int) -> Option<int> {
    if j < s.len() && (s[j] == 'e' || s[j] == 'E') {
        let k = if j + 1 < s.len() && (s[j + 1] == '+' || s[j + 1] == '-') {
            j + 2
        } else {
            j + 1
        };
        let e = spec_skip_digits(s, k);
        if e == k {
            None
        } else {
            Some(e)
        }
    } else {
        Some(j)
    }
}

/// The position just after the JSON number starting at `i`, per the JSON
/// grammar: an optional minus sign, an integer part without leading zeros,
/// an optional fraction, an optional exponent.
pub open spec fn spec_num_end(s: Seq<char>, i: int) -> Option<int> {
    let j0 = if i < s.len() && s[i] == '-' {
        i + 1
    } else {
        i
    };
    if !(j0 < s.len() && is_digit_char(s[j0])) {
        None
    } else {
        let j1 = if s[j0] == '0' {
            j0 + 1
        } else {
            spec_skip_digits(s, j0)
        };
        if j1 < s.len() && s[j1] == '.' {
            let f = spec_skip_digits(s, j1 + 1);
            if f == j1 + 1 {
                None
            } else {
                spec_num_exp(s, f)
            }
        } else {
            spec_num_exp(s, j1)
        }
    }
}

/// Parses the JSON value starting at `i` (no leading whitespace): the value
/// and the position just after it.
pub open spec fn spec_parse_value(s: Seq<char>, i: int) -> Option<(JsonData, int)>
    decreases s.len() - i, 0int
        when 0 <= i <= s.len()
{
    if i >= s.len() {
        None
    } else {
        let c = s[i];
        if c == 'n' {
            if i + 4 <= s.len() && s[i + 1] == 'u' && s[i + 2] == 'l' && s[i + 3] == 'l' {
                Some((JsonData::Null, i + 4))
            } else {
                None
            }
        } else if c == 't' {
            if i + 4 <= s.len() && s[i + 1] == 'r' && s[i + 2] == 'u' && s[i + 3] == 'e' {
                Some((JsonData::Bool(true), i + 4))
            } else {
                None
            }
        } else if c == 'f' {
            if i + 5 <= s.len() && s[i + 1] == 'a' && s[i + 2] == 'l' && s[i + 3] == 's' && s[i + 4]
                == 'e' {
                Some((JsonData::Bool(false), i + 5))
            } else {
                None
            }
        } else if c == '"' {
            match spec_str_chars(s, i + 1) {
                Some((cs, j)) => Some((JsonData::Str(cs), j)),
                None => None,
            }
        } else if c == '-' || is_digit_char(c) {
            match spec_num_end(s, i) {
                Some(j) => Some((JsonData::Num(s.subrange(i, j)), j)),
                None => None,
            }
        } else if c == '[' {
            let j0 = spec_skip_ws(s, i + 1);
            let j = if i + 1 <= j0 && j0 <= s.len() {
                j0
            } else {
                i + 1
            };
            if j < s.len() && s[j] == ']' {
                Some((JsonData::Arr(Seq::empty()), j + 1))
            } else {
                match spec_parse_items(s, j) {
                    Some((items, end)) => Some((JsonData::Arr(items), end)),
                    None => None,
                }
            }
        } else if c == '{' {
            let j0 = spec_skip_ws(s, i + 1);
            let j = if i + 1 <= j0 && j0 <= s.len() {
                j0
            } else {
                i + 1
            };
            if j < s.len() && s[j] == '}' {
                Some((JsonData::Obj(Seq::empty()), j + 1))
            } else {
                match spec_parse_members(s, j) {
                    Some((members, end)) => Some((JsonData::Obj(members), end)),
                    None => None,
                }
            }
        } else {
            None
        }
    }
}

/// Parses the elements of a non-empty array starting at the first element
/// (whitespace allowed): the elements and the position just after the
/// closing bracket.
pub open spec fn spec_parse_items(s: Seq<char>, i: int) -> Option<(Seq<JsonData>, int)>
    decreases s.len() - i, 1int
        when 0 <= i <= s.len()
{
    let j0 = spec_skip_ws(s, i);
    let j = if i <= j0 && j0 <= s.len() {
        j0
    } else {
        i
    };
    match spec_parse_value(s, j) {
        None => None,
        Some((v, k0)) => {
            let k = spec_skip_ws(s, k0);
            if k < s.len() && s[k] == ',' {
                if i < k + 1 && k + 1 <= s.len() {
                    match spec_parse_items(s, k + 1) {
                        Some((rest, end)) => Some((seq![v] + rest, end)),
                        None => None,
                    }
                } else {
                    None
                }
            } else if k < s.len() && s[k] == ']' {
                Some((seq![v], k + 1))
            } else {
                None
            }
        },
    }
}

/// Parses the members of a non-empty object starting at the first key
/// (whitespace allowed): the key/value pairs and the position just after
/// the closing brace.
pub open spec fn spec_parse_members(s: Seq<char>, i: int) -> Option<
    (Seq<(Seq<char>, JsonData)>, int),
>
    decreases s.len() - i, 1int
        when 0 <= i <= s.len()
{
    let j0 = spec_skip_ws(s, i);
    let j = if i <= j0 && j0 <= s.len() {
        j0
    } else {
        i
    };
    if j < s.len() && s[j] == '"' {
        match spec_str_chars(s, j + 1) {
            None => None,
            Some((key, k0)) => {
                let k = spec_skip_ws(s, k0);
                if k < s.len() && s[k] == ':' {
                    let m0 = spec_skip_ws(s, k + 1);
                    let m = if i <= m0 && m0 <= s.len() {
                        m0
                    } else {
                        i
                    };
                    match spec_parse_value(s, m) {
                        None => None,
                        Some((v, p0)) => {
                            let p = spec_skip_ws(s, p0);
                            if p < s.len() && s[p] == ',' {
                                if i < p + 1 && p + 1 <= s.len() {
                                    match spec_parse_members(s, p + 1) {
                                        Some((rest, end)) => Some((seq![(key, v)] + rest, end)),
                                        None => None,
                                    }
                                } else {
                                    None
                                }
                            } else if p < s.len() && s[p] == '}' {
                                Some((seq![(key, v)], p + 1))
                            } else {
                                None
                            }
                        },
                    }
                } else {
                    None
                }
            },
        }
    } else {
        None
    }
}

/// Parses a whole JSON document: one value, with whitespace allowed on
/// either side, covering the entire text.
pub open spec fn spec_parse_json(s: Seq<char>) -> Option<JsonData> {
    let i = spec_skip_ws(s, 0);
    match spec_parse_value(s, i) {
        Some((v, j)) => {
            if spec_skip_ws(s, j) == s.len() {
                Some(v)
            } else {
                None
            }
        },
        None => None,
    }
}

/// Whitespace skipping stays between its start and the end of the text.
pub proof fn lemma_skip_ws_bounds(s: Seq<char>, i: int)
    requires
        0 <= i <= s.len(),
    ensures
        i <= spec_skip_ws(s, i) <= s.len(),
    decreases s.len() - i,
{
    if i < s.len() && is_ws_char(s[i]) {
        lemma_skip_ws_bounds(s, i + 1);
    }
}

/// Digit skipping stays between its start and the end of the text.
pub proof fn lemma_skip_digits_bounds(s: Seq<char>, i: int)
    requires
        0 <= i <= s.len(),
    ensures
        i <= spec_skip_digits(s, i) <= s.len(),
    decreases s.len() - i,
{
    if i < s.len() && is_digit_char(s[i]) {
        lemma_skip_digits_bounds(s, i + 1);
    }
}

/// A parsed string body ends after its starting position, within the text.
pub proof fn lemma_str_chars_bounds(s: Seq<char>, i: int)
    requires
        0 <= i <= s.len(),
    ensures
        spec_str_chars(s, i) matches Some((cs, j)) ==> i < j <= s.len(),
    decreases s.len() - i,
{
    if i < s.len() {
        if s[i] == '"' {
        } else if s[i] == '\\' {
            if i + 2 <= s.len() {
                lemma_str_chars_bounds(s, i + 2);
                if i + 6 <= s.len() {
                    lemma_str_chars_bounds(s, i + 6);
                }
                if i + 12 <= s.len() {
                    lemma_str_chars_bounds(s, i + 12);
                }
            }
        } else {
            lemma_str_chars_bounds(s, i + 1);
        }
    }
}

/// A parsed number ends after its starting position, within the text.
pub proof fn lemma_num_end_bounds(s: Seq<char>, i: int)
    requires
        0 <= i <= s.len(),
    ensures
        spec_num_end(s, i) matches Some(j) ==> i < j <= s.len(),
{
    let j0 = if i < s.len() && s[i] == '-' {
        i + 1
    } else {
        i
    };
    if j0 < s.len() && is_digit_char(s[j0]) {
        lemma_skip_digits_bounds(s, j0 + 1);
        assert(spec_skip_digits(s, j0) == spec_skip_digits(s, j0 + 1));
        let j1 = if s[j0] == '0' {
            j0 + 1
        } else {
            spec_skip_digits(s, j0)
        };
        if j1 < s.len() && s[j1] == '.' {
            lemma_skip_digits_bounds(s, j1 + 1);
            let f = spec_skip_digits(s, j1 + 1);
            if f != j1 + 1 {
                lemma_num_exp_bounds(s, f);
            }
        } else {
            lemma_num_exp_bounds(s, j1);
        }
    }
}

/// An exponent part ends at or after its starting position, within the text.
pub proof fn lemma_num_exp_bounds(s: Seq<char>, j: int)
    requires
        0 <= j <= s.len(),
    ensures
        spec_num_exp(s, j) matches Some(e) ==> j <= e <= s.len(),
{
    if j < s.len() && (s[j] == 'e' || s[j] == 'E') {
        let k = if j + 1 < s.len() && (s[j + 1] == '+' || s[j + 1] == '-') {
            j + 2
        } else {
            j + 1
        };
        lemma_skip_digits_bounds(s, k);
    }
}

/// A parsed value ends after its starting position, within the text.
pub proof fn lemma_value_bounds(s: Seq<char>, i: int)
    requires
        0 <= i <= s.len(),
    ensures
        spec_parse_value(s, i) matches Some((v, j)) ==> i < j <= s.len(),
    decreases s.len() - i, 0int,
{
    if i < s.len() {
        let c = s[i];
        if c == '"' {
            lemma_str_chars_bounds(s, i + 1);
        } else if c == '-' || is_digit_char(c) {
            lemma_num_end_bounds(s, i);
        } else if c == '[' {
            lemma_skip_ws_bounds(s, i + 1);
            let j = spec_skip_ws(s, i + 1);
            if !(j < s.len() && s[j] == ']') {
                lemma_items_bounds(s, j);
            }
        } else if c == '{' {
            lemma_skip_ws_bounds(s, i + 1);
            let j = spec_skip_ws(s, i + 1);
            if !(j < s.len() && s[j] == '}') {
                lemma_members_bounds(s, j);
            }
        }
    }
}

/// Parsed array elements end after their starting position, within the text.
pub proof fn lemma_items_bounds(s: Seq<char>, i: int)
    requires
        0 <= i <= s.len(),
    ensures
        spec_parse_items(s, i) matches Some((items, j)) ==> i < j <= s.len(),
    decreases s.len() - i, 1int,
{
    lemma_skip_ws_bounds(s, i);
    let j = spec_skip_ws(s, i);
    lemma_value_bounds(s, j);
    match spec_parse_value(s, j) {
        None => {},
        Some((v, k0)) => {
            lemma_skip_ws_bounds(s, k0);
            let k = spec_skip_ws(s, k0);
            if k < s.len() && s[k] == ',' {
                lemma_items_bounds(s, k + 1);
            }
        },
    }
}

/// Parsed object members end after their starting position, within the text.
pub proof fn lemma_members_bounds(s: Seq<char>, i: int)
    requires
        0 <= i <= s.len(),
    ensures
        spec_parse_members(s, i) matches Some((members, j)) ==> i < j <= s.len(),
    decreases s.len() - i, 1int,
{
    lemma_skip_ws_bounds(s, i);
    let j = spec_skip_ws(s, i);
    if j < s.len() && s[j] == '"' {
        lemma_str_chars_bounds(s, j + 1);
        match spec_str_chars(s, j + 1) {
            None => {},
            Some((key, k0)) => {
                lemma_skip_ws_bounds(s, k0);
                let k = spec_skip_ws(s, k0);
                if k < s.len() && s[k] == ':' {
                    lemma_skip_ws_bounds(s, k + 1);
                    let m = spec_skip_ws(s, k + 1);
                    lemma_value_bounds(s, m);
                    match spec_parse_value(s, m) {
                        None => {},
                        Some((v, p0)) => {
                            lemma_skip_ws_bounds(s, p0);
                            let p = spec_skip_ws(s, p0);
                            if p < s.len() && s[p] == ',' {
                                lemma_members_bounds(s, p + 1);
                            }
                        },
                    }
                }
            },
        }
    }
}

/// Relies on String::push: appends the character to the end of the string.
#[verifier::external_body]
fn push_char(s: &mut String, c: char)
    ensures
        final(s)@ == old(s)@.push(c),
{
    s.push(c);
}

/// Relies on char::from_u32: a character for every Unicode scalar value,
/// nothing for surrogate code points or values above the Unicode maximum.
#[verifier::external_body]
fn char_from_u32(u: u32) -> (r: Option<char>)
    ensures
        (r is Some) == (u < 0xD800 || (0xE000 <= u && u <= 0x10FFFF)),
        r matches Some(c) ==> c as u32 == u,
{
    char::from_u32(u)
}

/// The characters of a string slice, in order.
pub fn chars_of(s: &str) -> (r: Vec<char>)
    ensures
        r@ == s@,
{
    let n = s.unicode_len();
    let mut out: Vec<char> = Vec::new();
    let mut i: usize = 0;
    while i < n
        invariant
            n == s@.len(),
            i <= n,
            out@ == s@.subrange(0, i as int),
        decreases n - i,
    {
        out.push(s.get_char(i));
        i += 1;
        proof {
            assert(out@ =~= s@.subrange(0, i as int));
        }
    }
    proof {
        assert(s@.subrange(0, n as int) =~= s@);
    }
    out
}

/// The text between two character positions, as an owned string.
fn chars_to_string(s: &Vec<char>, from: usize, to: usize) -> (r: String)
    requires
        from <= to <= s.len(),
    ensures
        r@ == s@.subrange(from as int, to as int),
{
    let mut out = String::new();
    let mut i: usize = from;
    while i < to
        invariant
            from <= i <= to <= s@.len(),
            out@ == s@.subrange(from as int, i as int),
        decreases to - i,
    {
        push_char(&mut out, s[i]);
        i += 1;
        proof {
            assert(out@ =~= s@.subrange(from as int, i as int));
        }
    }
    out
}

/// Whether the character is JSON whitespace.
fn is_ws(c: char) -> (r: bool)
    ensures
        r == is_ws_char(c),
{
    c == ' ' || c == '\t' || c == '\n' || c == '\r'
}

/// Whether the character is a decimal digit.
fn is_digit(c: char) -> (r: bool)
    ensures
        r == is_digit_char(c),
{
    c as u32 >= '0' as u32 && c as u32 <= '9' as u32
}

/// The first position at or after `i` holding no whitespace.
fn skip_ws(s: &Vec<char>, i: usize) -> (r: usize)
    requires
        i <= s.len(),
    ensures
        i <= r <= s.len(),
        r as int == spec_skip_ws(s@, i as int),
    decreases s@.len() - i as int,
{
    let mut j = i;
    while j < s.len() && is_ws(s[j])
        invariant
            i <= j <= s@.len(),
            spec_skip_ws(s@, i as int) == spec_skip_ws(s@, j as int),
        decreases s@.len() - j,
    {
        j += 1;
    }
    j
}

/// The first position at or after `i` holding no decimal digit.
fn skip_digits(s: &Vec<char>, i: usize) -> (r: usize)
    requires
        i <= s.len(),
    ensures
        i <= r <= s.len(),
        r as int == spec_skip_digits(s@, i as int),
    decreases s@.len() - i as int,
{
    let mut j = i;
    while j < s.len() && is_digit(s[j])
        invariant
            i <= j <= s@.len(),
            spec_skip_digits(s@, i as int) == spec_skip_digits(s@, j as int),
        decreases s@.len() - j,
    {
        j += 1;
    }
    j
}

/// The value of a hexadecimal digit.
fn hex_val(c: char) -> (r: Option<u32>)
    ensures
        match r {
            Some(v) => spec_hex_val(c) == Some(v as int) && v < 16,
            None => spec_hex_val(c) is None,
        },
{
    let u = c as u32;
    if u >= '0' as u32 && u <= '9' as u32 {
        Some(u - '0' as u32)
    } else if u >= 'a' as u32 && u <= 'f' as u32 {
        Some(u - 'a' as u32 + 10)
    } else if u >= 'A' as u32 && u <= 'F' as u32 {
        Some(u - 'A' as u32 + 10)
    } else {
        None
    }
}

/// The value of the four hexadecimal digits at `i`, if they are there.
fn hex4(s: &Vec<char>, i: usize) -> (r: Option<u32>)
    requires
        i <= s.len(),
    ensures
        match r {
            Some(v) => spec_hex4(s@, i as int) == Some(v as int) && v < 0x10000,
            None => spec_hex4(s@, i as int) is None,
        },
{
    if s.len() - i >= 4 {
        match (hex_val(s[i]), hex_val(s[i + 1]), hex_val(s[i + 2]), hex_val(s[i + 3])) {
            (Some(a), Some(b), Some(c), Some(d)) => Some(a * 4096 + b * 256 + c * 16 + d),
            _ => None,
        }
    } else {
        None
    }
}

/// The position just after the JSON number starting at `i`, per the grammar
/// of [`spec_num_end`].
fn num_end(s: &Vec<char>, i: usize) -> (r: Option<usize>)
    requires
        i <= s.len(),
    ensures
        match r {
            Some(j) => spec_num_end(s@, i as int) == Some(j as int) && i < j <= s.len(),
            None => spec_num_end(s@, i as int) is None,
        },
{
    proof {
        lemma_num_end_bounds(s@, i as int);
    }
    let j0 = if i < s.len() && s[i] == '-' {
        i + 1
    } else {
        i
    };
    if !(j0 < s.len() && is_digit(s[j0])) {
        return None;
    }
    let j1 = if s[j0] == '0' {
        j0 + 1
    } else {
        skip_digits(s, j0)
    };
    if j1 < s.len() && s[j1] == '.' {
        let f = skip_digits(s, j1 + 1);
        if f == j1 + 1 {
            None
        } else {
            num_exp(s, f)
        }
    } else {
        num_exp(s, j1)
    }
}

/// The position just after an optional exponent part starting at `j`.
fn num_exp(s: &Vec<char>, j: usize) -> (r: Option<usize>)
    requires
        j <= s.len(),
    ensures
        match r {
            Some(e) => spec_num_exp(s@, j as int) == Some(e as int) && j <= e <= s.len(),
            None => spec_num_exp(s@, j as int) is None,
        },
{
    if j < s.len() && (s[j] == 'e' || s[j] == 'E') {
        let k = if j + 1 < s.len() && (s[j + 1] == '+' || s[j + 1] == '-') {
            j + 2
        } else {
            j + 1
        };
        let e = skip_digits(s, k);
        if e == k {
            None
        } else {
            Some(e)
        }
    } else {
        Some(j)
    }
}

/// Parses the body of a JSON string starting just after the opening quote,
/// per [`spec_str_chars`].
#[verifier::rlimit(50)]
fn parse_string_body(s: &Vec<char>, i: usize) -> (r: Option<(String, usize)>)
    requires
        i <= s.len(),
    ensures
        match r {
            Some(p) => spec_str_chars(s@, i as int) == Some((p.0@, p.1 as int)) && i < p.1
                <= s.len(),
            None => spec_str_chars(s@, i as int) is None,
        },
{
    let mut out = String::new();
    let mut j = i;
    proof {
        match spec_str_chars(s@, i as int) {
            Some(p) => {
                assert(Seq::<char>::empty() + p.0 =~= p.0);
            },
            None => {},
        }
    }
    loop
        invariant
            i <= j <= s@.len(),
            match spec_str_chars(s@, j as int) {
                Some(p) => spec_str_chars(s@, i as int) == Some((out@ + p.0, p.1)),
                None => spec_str_chars(s@, i as int) is None,
            },
        decreases s@.len() - j,
    {
        if j >= s.len() {
            return None;
        }
        let c = s[j];
        if c == '"' {
            proof {
                assert(out@ + Seq::<char>::empty() =~= out@);
            }
            return Some((out, j + 1));
        } else if c == '\\' {
            if s.len() - j < 2 {
                return None;
            }
            let e = s[j + 1];
            if e == '"' || e == '\\' || e == '/' || e == 'b' || e == 'f' || e == 'n' || e == 'r'
                || e == 't' {
                let decoded: char = match e {
                    '"' => '"',
                    '\\' => '\\',
                    '/' => '/',
                    'b' => '\u{0008}',
                    'f' => '\u{000C}',
                    'n' => '\n',
                    'r' => '\r',
                    _ => '\t',
                };
                proof {
                    assert(spec_str_chars(s@, j as int) == spec_str_cons(
                        decoded,
                        spec_str_chars(s@, j + 2int),
                    ));
                }
                let ghost out0 = out@;
                push_char(&mut out, decoded);
                j += 2;
                proof {
                    match spec_str_chars(s@, j as int) {
                        Some(p) => {
                            assert(out0 + (seq![decoded] + p.0) =~= out@ + p.0);
                        },
                        None => {},
                    }
                }
            } else if e == 'u' {
                match hex4(s, j + 2) {
                    None => {
                        return None;
                    },
                    Some(v) => {
                        if 0xD800 <= v && v < 0xDC00 {
                            if s.len() - j >= 12 && s[j + 6] == '\\' && s[j + 7] == 'u' {
                                match hex4(s, j + 8) {
                                    None => {
                                        return None;
                                    },
                                    Some(lo) => {
                                        if 0xDC00 <= lo && lo < 0xE000 {
                                            let combined: u32 = 0x10000 + (v - 0xD800) * 0x400 + (
                                            lo - 0xDC00);
                                            let decoded = match char_from_u32(combined) {
                                                Some(d) => d,
                                                None => {
                                                    proof {
                                                        assert(false);
                                                    }
                                                    ' '
                                                },
                                            };
                                            proof {
                                                vstd::utf8::char_u32_cast(decoded, combined);
                                                assert(decoded == spec_scalar_char(
                                                    0x10000 + (v - 0xD800) * 0x400 + (lo - 0xDC00),
                                                ));
                                                assert(spec_str_chars(s@, j as int)
                                                    == spec_str_cons(
                                                    decoded,
                                                    spec_str_chars(s@, j + 12int),
                                                ));
                                            }
                                            let ghost out0 = out@;
                                            push_char(&mut out, decoded);
                                            j += 12;
                                            proof {
                                                match spec_str_chars(s@, j as int) {
                                                    Some(p) => {
                                                        assert(out0 + (seq![decoded] + p.0) =~= out@
                                                            + p.0);
                                                    },
                                                    None => {},
                                                }
                                            }
                                        } else {
                                            return None;
                                        }
                                    },
                                }
                            } else {
                                return None;
                            }
                        } else if 0xDC00 <= v && v < 0xE000 {
                            return None;
                        } else {
                            let decoded = match char_from_u32(v) {
                                Some(d) => d,
                                None => {
                                    proof {
                                        assert(false);
                                    }
                                    ' '
                                },
                            };
                            proof {
                                vstd::utf8::char_u32_cast(decoded, v);
                                assert(decoded == spec_scalar_char(v as int));
                                assert(spec_str_chars(s@, j as int) == spec_str_cons(
                                    decoded,
                                    spec_str_chars(s@, j + 6int),
                                ));
                            }
                            let ghost out0 = out@;
                            push_char(&mut out, decoded);
                            j += 6;
                            proof {
                                match spec_str_chars(s@, j as int) {
                                    Some(p) => {
                                        assert(out0 + (seq![decoded] + p.0) =~= out@ + p.0);
                                    },
                                    None => {},
                                }
                            }
                        }
                    },
                }
            } else {
                return None;
            }
        } else if (c as u32) < 0x20 {
            return None;
        } else {
            proof {
                assert(spec_str_chars(s@, j as int) == spec_str_cons(
                    c,
                    spec_str_chars(s@, j + 1int),
                ));
            }
            let ghost out0 = out@;
            push_char(&mut out, c);
            j += 1;
            proof {
                match spec_str_chars(s@, j as int) {
                    Some(p) => {
                        assert(out0 + (seq![c] + p.0) =~= out@ + p.0);
                    },
                    None => {},
                }
            }
        }
    }
}

/// Parses the JSON value starting at `i`, per [`spec_parse_value`].
#[verifier::rlimit(60)]
fn parse_value(s: &Vec<char>, i: usize) -> (r: Option<(JsonValue, usize)>)
    requires
        i <= s.len(),
    ensures
        match r {
            Some(p) => spec_parse_value(s@, i as int) == Some((p.0@, p.1 as int)) && i < p.1
                <= s.len(),
            None => spec_parse_value(s@, i as int) is None,
        },
    decreases s@.len() - i as int, 0int,
{
    if i >= s.len() {
        return None;
    }
    let c = s[i];
    if c == 'n' {
        if s.len() - i >= 4 && s[i + 1] == 'u' && s[i + 2] == 'l' && s[i + 3] == 'l' {
            Some((JsonValue::Null, i + 4))
        } else {
            None
        }
    } else if c == 't' {
        if s.len() - i >= 4 && s[i + 1] == 'r' && s[i + 2] == 'u' && s[i + 3] == 'e' {
            Some((JsonValue::Bool(true), i + 4))
        } else {
            None
        }
    } else if c == 'f' {
        if s.len() - i >= 5 && s[i + 1] == 'a' && s[i + 2] == 'l' && s[i + 3] == 's' && s[i + 4]
            == 'e' {
            Some((JsonValue::Bool(false), i + 5))
        } else {
            None
        }
    } else if c == '"' {
        match parse_string_body(s, i + 1) {
            Some((t, j)) => Some((JsonValue::Str(t), j)),
            None => None,
        }
    } else if c == '-' || is_digit(c) {
        match num_end(s, i) {
            Some(j) => {
                let raw = chars_to_string(s, i, j);
                Some((JsonValue::Num(raw), j))
            },
            None => None,
        }
    } else if c == '[' {
        let j = skip_ws(s, i + 1);
        if j < s.len() && s[j] == ']' {
            let items: Vec<JsonValue> = Vec::new();
            let v = JsonValue::Arr(items);
            proof {
                assert(v@ == JsonData::Arr(Seq::<JsonData>::empty())) by {
                    assert(Seq::new(0, |k: int| JsonData::Null) =~= Seq::<JsonData>::empty());
                    assert(v@ matches JsonData::Arr(inner) && inner =~= Seq::<JsonData>::empty());
                }
            }
            Some((v, j + 1))
        } else {
            match parse_items(s, j) {
                Some((items, end)) => {
                    let ghost iv = items.deep_view();
                    let v = JsonValue::Arr(items);
                    proof {
                        assert(v@ is Arr);
                        let inner = v@->Arr_0;
                        assert(inner.len() == iv.len());
                        assert forall|k: int| 0 <= k < inner.len() implies inner[k] == iv[k] by {}
                        assert(inner =~= iv);
                    }
                    Some((v, end))
                },
                None => None,
            }
        }
    } else if c == '{' {
        let j = skip_ws(s, i + 1);
        if j < s.len() && s[j] == '}' {
            let members: Vec<(String, JsonValue)> = Vec::new();
            let v = JsonValue::Obj(members);
            proof {
                assert(v@ == JsonData::Obj(Seq::<(Seq<char>, JsonData)>::empty())) by {
                    assert(v@ matches JsonData::Obj(inner) && inner =~= Seq::<
                        (Seq<char>, JsonData),
                    >::empty());
                }
            }
            Some((v, j + 1))
        } else {
            match parse_members(s, j) {
                Some((members, end)) => {
                    let ghost mv = members.deep_view();
                    let ghost mseq = members@;
                    let v = JsonValue::Obj(members);
                    proof {
                        assert(v@ is Obj);
                        let inner = v@->Obj_0;
                        assert(inner.len() == mseq.len());
                        assert(inner.len() == mv.len());
                        assert forall|k: int| 0 <= k < inner.len() implies inner[k] == mv[k] by {
                            assert(inner[k] == (mseq[k].0@, mseq[k].1@));
                            assert(mv[k] == (mseq[k].0.deep_view(), mseq[k].1.deep_view()));
                        }
                        assert(inner =~= mv);
                    }
                    Some((v, end))
                },
                None => None,
            }
        }
    } else {
        None
    }
}

/// Parses the elements of a non-empty array, per [`spec_parse_items`].
#[verifier::rlimit(60)]
fn parse_items(s: &Vec<char>, i: usize) -> (r: Option<(Vec<JsonValue>, usize)>)
    requires
        i <= s.len(),
    ensures
        match r {
            Some(p) => spec_parse_items(s@, i as int) == Some((p.0.deep_view(), p.1 as int)) && i
                < p.1 <= s.len(),
            None => spec_parse_items(s@, i as int) is None,
        },
    decreases s@.len() - i as int, 1int,
{
    let j = skip_ws(s, i);
    match parse_value(s, j) {
        None => None,
        Some((v, k0)) => {
            let k = skip_ws(s, k0);
            if k < s.len() && s[k] == ',' {
                match parse_items(s, k + 1) {
                    Some((rest, end)) => {
                        let mut items = rest;
                        let ghost rest_view = items.deep_view();
                        items.insert(0, v);
                        proof {
                            assert(items.deep_view() =~= seq![v@] + rest_view);
                        }
                        Some((items, end))
                    },
                    None => None,
                }
            } else if k < s.len() && s[k] == ']' {
                let mut items: Vec<JsonValue> = Vec::new();
                items.push(v);
                proof {
                    assert(items.deep_view() =~= seq![v@]);
                }
                Some((items, k + 1))
            } else {
                None
            }
        },
    }
}

/// Parses the members of a non-empty object, per [`spec_parse_members`].
#[verifier::rlimit(60)]
fn parse_members(s: &Vec<char>, i: usize) -> (r: Option<(Vec<(String, JsonValue)>, usize)>)
    requires
        i <= s.len(),
    ensures
        match r {
            Some(p) => spec_parse_members(s@, i as int) == Some((p.0.deep_view(), p.1 as int))
                && i < p.1 <= s.len(),
            None => spec_parse_members(s@, i as int) is None,
        },
    decreases s@.len() - i as int, 1int,
{
    let j = skip_ws(s, i);
    if j < s.len() && s[j] == '"' {
        match parse_string_body(s, j + 1) {
            None => None,
            Some((key, k0)) => {
                let k = skip_ws(s, k0);
                if k < s.len() && s[k] == ':' {
                    let m = skip_ws(s, k + 1);
                    match parse_value(s, m) {
                        None => None,
                        Some((v, p0)) => {
                            let p = skip_ws(s, p0);
                            if p < s.len() && s[p] == ',' {
                                match parse_members(s, p + 1) {
                                    Some((rest, end)) => {
                                        let mut members = rest;
                                        let ghost rest_view = members.deep_view();
                                        members.insert(0, (key, v));
                                        proof {
                                            assert(members.deep_view() =~= seq![(key@, v@)]
                                                + rest_view);
                                        }
                                        Some((members, end))
                                    },
                                    None => None,
                                }
                            } else if p < s.len() && s[p] == '}' {
                                let mut members: Vec<(String, JsonValue)> = Vec::new();
                                members.push((key, v));
                                proof {
                                    assert(members.deep_view() =~= seq![(key@, v@)]);
                                }
                                Some((members, p + 1))
                            } else {
                                None
                            }
                        },
                    }
                } else {
                    None
                }
            },
        }
    } else {
        None
    }
}

/// Parses a whole JSON document, per [`spec_parse_json`].
pub fn parse_json(s: &str) -> (r: Option<JsonValue>)
    ensures
        match r {
            Some(v) => spec_parse_json(s@) == Some(v@),
            None => spec_parse_json(s@) is None,
        },
{
    let chars = chars_of(s);
    let i = skip_ws(&chars, 0);
    match parse_value(&chars, i) {
        Some((v, j)) => {
            let k = skip_ws(&chars, j);
            if k == chars.len() {
                Some(v)
            } else {
                None
            }
        },
        None => None,
    }
}

/// The lowercase hexadecimal digit character for a value below sixteen.
pub open spec fn spec_hex_char(d: int) -> char {
    if d < 10 {
        crate::numerals::spec_digit_char(d)
    } else if d == 10 {
        'a'
    } else if d == 11 {
        'b'
    } else if d == 12 {
        'c'
    } else if d == 13 {
        'd'
    } else if d == 14 {
        'e'
    } else {
        'f'
    }
}

/// How one character is written inside a JSON string: quotes and
/// backslashes escaped, the named control escapes used where they exist,
/// any other control character written as a `\u00XX` escape, and every
/// other character written as itself.
pub open spec fn spec_escape_char(c: char) -> Seq<char> {
    if c == '"' {
        seq!['\\', '"']
    } else if c == '\\' {
        seq!['\\', '\\']
    } else if c == '\u{0008}' {
        seq!['\\', 'b']
    } else if c == '\u{000C}' {
        seq!['\\', 'f']
    } else if c == '\n' {
        seq!['\\', 'n']
    } else if c == '\r' {
        seq!['\\', 'r']
    } else if c == '\t' {
        seq!['\\', 't']
    } else if (c as u32) < 0x20 {
        seq!['\\', 'u', '0', '0', spec_hex_char(c as u32 as int / 16), spec_hex_char(
            c as u32 as int % 16,
        )]
    } else {
        seq![c]
    }
}

/// A text with every character written as [`spec_escape_char`] says.
pub open spec fn spec_escaped(s: Seq<char>) -> Seq<char>
    decreases s.len(),
{
    if s.len() == 0 {
        Seq::empty()
    } else {
        spec_escaped(s.drop_last()) + spec_escape_char(s.last())
    }
}

/// A text as a JSON string token: escaped, in double quotes.
pub open spec fn spec_json_string(s: Seq<char>) -> Seq<char> {
    seq!['"'] + spec_escaped(s) + seq!['"']
}

/// A one-character string slice holding the lowercase hexadecimal digit
/// for `d`.
fn hex_char_str(d: u32) -> (r: &'static str)
    requires
        d < 16,
    ensures
        r@ == seq![spec_hex_char(d as int)],
{
    let r = match d {
        0 => "0",
        1 => "1",
        2 => "2",
        3 => "3",
        4 => "4",
        5 => "5",
        6 => "6",
        7 => "7",
        8 => "8",
        9 => "9",
        10 => "a",
        11 => "b",
        12 => "c",
        13 => "d",
        14 => "e",
        _ => "f",
    };
    proof {
        reveal_strlit("0");
        reveal_strlit("1");
        reveal_strlit("2");
        reveal_strlit("3");
        reveal_strlit("4");
        reveal_strlit("5");
        reveal_strlit("6");
        reveal_strlit("7");
        reveal_strlit("8");
        reveal_strlit("9");
        reveal_strlit("a");
        reveal_strlit("b");
        reveal_strlit("c");
        reveal_strlit("d");
        reveal_strlit("e");
        reveal_strlit("f");
        assert(r@ =~= seq![spec_hex_char(d as int)]);
    }
    r
}

/// Appends a text to `out` as a JSON string token: in double quotes, with
/// every character escaped as [`spec_escape_char`] says.
pub fn push_json_string(out: &mut String, s: &str)
    ensures
        final(out)@ == old(out)@ + spec_json_string(s@),
{
    let chars = chars_of(s);
    out.append("\"");
    let ghost start = out@;
    proof {
        reveal_strlit("\"");
        assert(start =~= old(out)@ + seq!['"']);
        assert(s@.subrange(0, 0) =~= Seq::<char>::empty());
        assert(out@ =~= start + spec_escaped(s@.subrange(0, 0)));
    }
    let mut i: usize = 0;
    while i < chars.len()
        invariant
            i <= chars@.len(),
            chars@ == s@,
            start == old(out)@ + seq!['"'],
            out@ == start + spec_escaped(s@.subrange(0, i as int)),
        decreases chars@.len() - i,
    {
        let c = chars[i];
        let ghost pre = out@;
        if c == '"' {
            out.append("\\\"");
            proof {
                reveal_strlit("\\\"");
                assert(out@ =~= pre + spec_escape_char(c));
            }
        } else if c == '\\' {
            out.append("\\\\");
            proof {
                reveal_strlit("\\\\");
                assert(out@ =~= pre + spec_escape_char(c));
            }
        } else if c == '\u{0008}' {
            out.append("\\b");
            proof {
                reveal_strlit("\\b");
                assert(out@ =~= pre + spec_escape_char(c));
            }
        } else if c == '\u{000C}' {
            out.append("\\f");
            proof {
                reveal_strlit("\\f");
                assert(out@ =~= pre + spec_escape_char(c));
            }
        } else if c == '\n' {
            out.append("\\n");
            proof {
                reveal_strlit("\\n");
                assert(out@ =~= pre + spec_escape_char(c));
            }
        } else if c == '\r' {
            out.append("\\r");
            proof {
                reveal_strlit("\\r");
                assert(out@ =~= pre + spec_escape_char(c));
            }
        } else if c == '\t' {
            out.append("\\t");
            proof {
                reveal_strlit("\\t");
                assert(out@ =~= pre + spec_escape_char(c));
            }
        } else if (c as u32) < 0x20 {
            out.append("\\u00");
            out.append(hex_char_str(c as u32 / 16));
            out.append(hex_char_str(c as u32 % 16));
            proof {
                reveal_strlit("\\u00");
                assert(out@ =~= pre + spec_escape_char(c));
            }
        } else {
            push_char(out, c);
            proof {
                assert(out@ =~= pre + spec_escape_char(c));
            }
        }
        i += 1;
        proof {
            assert(s@.subrange(0, i as int).drop_last() =~= s@.subrange(0, i - 1));
            assert(s@.subrange(0, i as int).last() == c);
            assert(out@ =~= start + spec_escaped(s@.subrange(0, i as int)));
        }
    }
    out.append("\"");
    proof {
        reveal_strlit("\"");
        assert(s@.subrange(0, s@.len() as int) =~= s@);
        assert(out@ =~= old(out)@ + spec_json_string(s@));
    }
}

/// The view of an object node is the object of the members' views.
pub proof fn lemma_obj_view(m: Vec<(String, JsonValue)>)
    ensures
        json_data_of(JsonValue::Obj(m)) == JsonData::Obj(m.deep_view()),
{
    let inner = json_data_of(JsonValue::Obj(m))->Obj_0;
    let mv = m.deep_view();
    assert(inner.len() == mv.len());
    assert forall|k: int| 0 <= k < inner.len() implies inner[k] == mv[k] by {
        assert(inner[k] == (m@[k].0@, json_data_of(m@[k].1)));
        assert(mv[k] == (m@[k].0.deep_view(), m@[k].1.deep_view()));
    }
    assert(inner =~= mv);
}

/// The view of an array node is the array of the elements' views.
pub proof fn lemma_arr_view(m: Vec<JsonValue>)
    ensures
        json_data_of(JsonValue::Arr(m)) == JsonData::Arr(m.deep_view()),
{
    let inner = json_data_of(JsonValue::Arr(m))->Arr_0;
    let mv = m.deep_view();
    assert(inner.len() == mv.len());
    assert forall|k: int| 0 <= k < inner.len() implies inner[k] == mv[k] by {}
    assert(inner =~= mv);
}

} // verus!
