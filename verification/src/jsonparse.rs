//! A recursive-descent parser from JSON text to a generic document tree.
//! The whole grammar is specified: [`spec_parse_json`] is a mathematical
//! parser that fixes, for every text, whether parsing succeeds, the tree a
//! success yields, and the position an error reports; [`parse_json`] is
//! proved to return exactly that. Syntax errors carry the character
//! position at which parsing stopped. Numbers are read as 64-bit integers;
//! a syntactically valid number that is fractional, in exponent form or
//! out of range is kept as its lexeme, which the schema layer treats as a
//! non-integer.

use vstd::prelude::*;
use crate::strutil::{char_from_u32, chars_vec, push_char};

verus! {

broadcast use vstd::std_specs::vec::group_vec_axioms, vstd::utf8::char_u32_cast;

/// A parsed JSON document: the generic tree the schema layer interprets.
pub enum Json {
    Null,
    Bool(bool),
    Int(i64),
    /// A syntactically valid JSON number that is not a 64-bit integer
    /// (fractional, exponent form, or out of range), kept as its lexeme.
    BigNum(String),
    Str(String),
    Arr(Vec<Json>),
    Obj(Vec<(String, Json)>),
}

/// The mathematical view of a parsed document: the tree over sequences
/// and unbounded integers that the contracts speak of.
#[verifier::ext_equal]
pub enum JsonV {
    Null,
    Bool(bool),
    Int(int),
    BigNum(Seq<char>),
    Str(Seq<char>),
    Arr(Seq<JsonV>),
    Obj(Seq<(Seq<char>, JsonV)>),
}

/// The view of a parsed tree.
pub open spec fn jview(j: Json) -> JsonV
    decreases j,
{
    match j {
        Json::Null => JsonV::Null,
        Json::Bool(b) => JsonV::Bool(b),
        Json::Int(v) => JsonV::Int(v as int),
        Json::BigNum(s) => JsonV::BigNum(s@),
        Json::Str(s) => JsonV::Str(s@),
        Json::Arr(elems) => JsonV::Arr(arr_view(elems@)),
        Json::Obj(es) => JsonV::Obj(entries_view(es@)),
    }
}

/// The views of an array's elements, in order.
pub open spec fn arr_view(s: Seq<Json>) -> Seq<JsonV>
    decreases s,
{
    if s.len() == 0 {
        Seq::empty()
    } else {
        seq![jview(s[0])] + arr_view(s.drop_first())
    }
}

/// The views of an object's entries: each key as its character sequence,
/// each value as its tree view.
pub open spec fn entries_view(s: Seq<(String, Json)>) -> Seq<(Seq<char>, JsonV)>
    decreases s,
{
    if s.len() == 0 {
        Seq::empty()
    } else {
        seq![(s[0].0@, jview(s[0].1))] + entries_view(s.drop_first())
    }
}

/// An array view is the elementwise view.
pub proof fn lemma_arr_view(s: Seq<Json>)
    ensures
        arr_view(s).len() == s.len(),
        forall|i: int| 0 <= i < s.len() ==> #[trigger] arr_view(s)[i] == jview(s[i]),
    decreases s.len(),
{
    if s.len() > 0 {
        lemma_arr_view(s.drop_first());
        assert forall|i: int| 0 <= i < s.len() implies #[trigger] arr_view(s)[i] == jview(s[i]) by {
            if i > 0 {
                assert(s.drop_first()[i - 1] == s[i]);
                assert(arr_view(s)[i] == arr_view(s.drop_first())[i - 1]);
            }
        }
    }
}

/// An entry-list view is the entrywise view.
pub proof fn lemma_entries_view(s: Seq<(String, Json)>)
    ensures
        entries_view(s).len() == s.len(),
        forall|i: int| 0 <= i < s.len() ==> #[trigger] entries_view(s)[i] == (s[i].0@, jview(
            s[i].1,
        )),
    decreases s.len(),
{
    if s.len() > 0 {
        lemma_entries_view(s.drop_first());
        assert forall|i: int| 0 <= i < s.len() implies #[trigger] entries_view(s)[i] == (s[i].0@,
            jview(s[i].1)) by {
            if i > 0 {
                assert(s.drop_first()[i - 1] == s[i]);
                assert(entries_view(s)[i] == entries_view(s.drop_first())[i - 1]);
            }
        }
    }
}

/// JSON insignificant whitespace.
pub open spec fn is_ws(c: char) -> bool {
    c == ' ' || c == '\t' || c == '\n' || c == '\r'
}

/// A decimal digit character.
pub open spec fn is_digit_char(c: char) -> bool {
    '0' <= c && c <= '9'
}

/// The value of a decimal digit character.
pub open spec fn digit_of(c: char) -> int {
    c as u32 - 48
}

/// The value of a hexadecimal digit character, if it is one.
pub open spec fn hex_digit_of(c: char) -> Option<int> {
    if '0' <= c && c <= '9' {
        Option::Some(c as u32 - 48)
    } else if 'a' <= c && c <= 'f' {
        Option::Some(c as u32 - 87)
    } else if 'A' <= c && c <= 'F' {
        Option::Some(c as u32 - 55)
    } else {
        Option::None
    }
}

/// The first index at or after `i` holding no whitespace.
pub open spec fn spec_skip_ws(cs: Seq<char>, i: int) -> int
    decreases cs.len() - i,
{
    if 0 <= i < cs.len() && is_ws(cs[i]) {
        spec_skip_ws(cs, i + 1)
    } else {
        i
    }
}

/// The first index at or after `i` holding no decimal digit.
pub open spec fn spec_skip_digits(cs: Seq<char>, i: int) -> int
    decreases cs.len() - i,
{
    if 0 <= i < cs.len() && is_digit_char(cs[i]) {
        spec_skip_digits(cs, i + 1)
    } else {
        i
    }
}

/// Four hexadecimal digits read at `i`: their value and the position after
/// them, or the position of the first offending character.
pub open spec fn spec_hex4(cs: Seq<char>, i: int) -> Result<(int, int), int> {
    if cs.len() - i < 4 {
        Result::Err(cs.len() as int)
    } else if hex_digit_of(cs[i]) is None {
        Result::Err(i)
    } else if hex_digit_of(cs[i + 1]) is None {
        Result::Err(i + 1)
    } else if hex_digit_of(cs[i + 2]) is None {
        Result::Err(i + 2)
    } else if hex_digit_of(cs[i + 3]) is None {
        Result::Err(i + 3)
    } else {
        Result::Ok(
            (
                hex_digit_of(cs[i]).unwrap() * 4096 + hex_digit_of(cs[i + 1]).unwrap() * 256
                    + hex_digit_of(cs[i + 2]).unwrap() * 16 + hex_digit_of(cs[i + 3]).unwrap(),
                i + 4,
            ),
        )
    }
}

/// Prepends a decoded character to a string tail's outcome.
pub open spec fn cons_decoded(c: char, r: Result<(Seq<char>, int), int>) -> Result<
    (Seq<char>, int),
    int,
> {
    match r {
        Result::Ok((t, j)) => Result::Ok((seq![c] + t, j)),
        Result::Err(p) => Result::Err(p),
    }
}

/// One decoded character of a string literal's content at `pos`: the
/// character and the position after its source form (one plain character,
/// a two-character escape, or a `\u` escape of six or twelve characters).
pub open spec fn spec_decode_one(cs: Seq<char>, pos: int) -> Result<(char, int), int>
    recommends
        0 <= pos < cs.len(),
{
    let c = cs[pos];
    if c == '\\' {
        if pos + 1 >= cs.len() {
            Result::Err(pos + 1)
        } else {
            let e = cs[pos + 1];
            if e == '"' { Result::Ok(('"', pos + 2)) }
            else if e == '\\' { Result::Ok(('\\', pos + 2)) }
            else if e == '/' { Result::Ok(('/', pos + 2)) }
            else if e == 'b' { Result::Ok(('\u{08}', pos + 2)) }
            else if e == 'f' { Result::Ok(('\u{0C}', pos + 2)) }
            else if e == 'n' { Result::Ok(('\n', pos + 2)) }
            else if e == 'r' { Result::Ok(('\r', pos + 2)) }
            else if e == 't' { Result::Ok(('\t', pos + 2)) }
            else if e == 'u' {
                match spec_hex4(cs, pos + 2) {
                    Result::Err(p) => Result::Err(p),
                    Result::Ok((v, after)) => {
                        if 0xD800 <= v <= 0xDBFF {
                            if cs.len() - after < 2 || cs[after] != '\\' || cs[after + 1]
                                != 'u' {
                                Result::Err(after)
                            } else {
                                match spec_hex4(cs, after + 2) {
                                    Result::Err(p) => Result::Err(p),
                                    Result::Ok((lo, after2)) => {
                                        if !(0xDC00 <= lo <= 0xDFFF) {
                                            Result::Err(after)
                                        } else {
                                            Result::Ok(
                                                (
                                                    (0x10000 + (v - 0xD800) * 0x400 + (lo
                                                        - 0xDC00)) as u32 as char,
                                                    after2,
                                                ),
                                            )
                                        }
                                    },
                                }
                            }
                        } else if 0xDC00 <= v <= 0xDFFF {
                            Result::Err(pos + 2)
                        } else {
                            Result::Ok((v as u32 as char, after))
                        }
                    },
                }
            }
            else { Result::Err(pos + 1) }
        }
    } else if (c as u32) < 0x20 {
        Result::Err(pos)
    } else {
        Result::Ok((c, pos + 1))
    }
}

/// The decoded remainder of a string literal from `pos` (just inside the
/// quotes) to its closing quote: the decoded characters and the position
/// after the closing quote, or the position of the offending character.
pub open spec fn spec_string_tail(cs: Seq<char>, pos: int) -> Result<(Seq<char>, int), int>
    decreases cs.len() - pos,
{
    if !(0 <= pos < cs.len()) {
        Result::Err(pos)
    } else if cs[pos] == '"' {
        Result::Ok((Seq::empty(), pos + 1))
    } else {
        match spec_decode_one(cs, pos) {
            Result::Err(p) => Result::Err(p),
            Result::Ok((c, n)) => cons_decoded(c, spec_string_tail(cs, n)),
        }
    }
}

/// A string literal whose opening quote stands at `i`: its decoded content
/// and the position after the closing quote.
pub open spec fn spec_parse_string(cs: Seq<char>, i: int) -> Result<(Seq<char>, int), int> {
    if !(0 <= i < cs.len()) || cs[i] != '"' {
        Result::Err(i)
    } else {
        spec_string_tail(cs, i + 1)
    }
}

/// The digit run from `pos` on, accumulated into `mag` with the same
/// saturation rule the reader uses: past the largest i64 magnitude the
/// value is dropped and only the overflow is remembered.
pub open spec fn spec_scan_digits(cs: Seq<char>, pos: int, mag: int, overflowed: bool) -> (
    int,
    bool,
    int,
)
    decreases cs.len() - pos,
{
    if 0 <= pos < cs.len() && is_digit_char(cs[pos]) {
        let d = digit_of(cs[pos]);
        if overflowed || mag > (9223372036854775808 - d) / 10 {
            spec_scan_digits(cs, pos + 1, 0, true)
        } else {
            spec_scan_digits(cs, pos + 1, mag * 10 + d, false)
        }
    } else {
        (mag, overflowed, pos)
    }
}

/// The fraction part at `pos`, if one starts there: whether one was
/// present and the position after it, or the position of a missing digit.
pub open spec fn spec_scan_frac(cs: Seq<char>, pos: int) -> Result<(bool, int), int> {
    if 0 <= pos < cs.len() && cs[pos] == '.' {
        if !(pos + 1 < cs.len() && is_digit_char(cs[pos + 1])) {
            Result::Err(pos + 1)
        } else {
            Result::Ok((true, spec_skip_digits(cs, pos + 1)))
        }
    } else {
        Result::Ok((false, pos))
    }
}

/// The exponent part at `pos`, if one starts there.
pub open spec fn spec_scan_exp(cs: Seq<char>, pos: int) -> Result<(bool, int), int> {
    if 0 <= pos < cs.len() && (cs[pos] == 'e' || cs[pos] == 'E') {
        let d = if pos + 1 < cs.len() && (cs[pos + 1] == '+' || cs[pos + 1] == '-') {
            pos + 2
        } else {
            pos + 1
        };
        if !(d < cs.len() && is_digit_char(cs[d])) {
            Result::Err(d)
        } else {
            Result::Ok((true, spec_skip_digits(cs, d)))
        }
    } else {
        Result::Ok((false, pos))
    }
}

/// A number starting at `i`, per the JSON grammar: an optional minus sign,
/// digits without a leading zero, an optional fraction and exponent. A
/// success yields `Some` of the value when it is a 64-bit integer, `None`
/// when it is fractional, in exponent form or out of range, and the
/// position after the number; an error reports the offending position.
pub open spec fn spec_scan_number(cs: Seq<char>, i: int) -> Result<(Option<int>, int), int> {
    let neg = 0 <= i < cs.len() && cs[i] == '-';
    let p0 = if neg { i + 1 } else { i };
    if !(0 <= p0 < cs.len() && is_digit_char(cs[p0])) {
        Result::Err(p0)
    } else if cs[p0] == '0' && p0 + 1 < cs.len() && is_digit_char(cs[p0 + 1]) {
        Result::Err(p0 + 1)
    } else {
        let (mag, overflowed, p1) = spec_scan_digits(cs, p0, 0, false);
        match spec_scan_frac(cs, p1) {
            Result::Err(p) => Result::Err(p),
            Result::Ok((has_frac, p2)) => match spec_scan_exp(cs, p2) {
                Result::Err(p) => Result::Err(p),
                Result::Ok((has_exp, p3)) => {
                    if has_frac || has_exp || overflowed {
                        Result::Ok((Option::None, p3))
                    } else if neg {
                        Result::Ok((Option::Some(-mag), p3))
                    } else if mag == 9223372036854775808 {
                        Result::Ok((Option::None, p3))
                    } else {
                        Result::Ok((Option::Some(mag), p3))
                    }
                },
            },
        }
    }
}

/// Whether the characters of `word` stand at `i`, from offset `k` on:
/// the position after the word, or the first mismatch.
pub open spec fn spec_expect_from(cs: Seq<char>, i: int, word: Seq<char>, k: int) -> Result<
    int,
    int,
>
    decreases word.len() - k,
{
    if k < word.len() {
        if cs[i + k] != word[k] {
            Result::Err(i + k)
        } else {
            spec_expect_from(cs, i, word, k + 1)
        }
    } else {
        Result::Ok(i + word.len())
    }
}

/// Whether the characters of `word` stand at `i`.
pub open spec fn spec_expect(cs: Seq<char>, i: int, word: Seq<char>) -> Result<int, int> {
    if cs.len() - i < word.len() {
        Result::Err(cs.len() as int)
    } else {
        spec_expect_from(cs, i, word, 0)
    }
}

/// Clamps a position into `(lo, hi]`. Everywhere it is applied the
/// position already lies in that range, so it changes nothing; it lets the
/// parser's recursion carry its measure by definition.
pub open spec fn bump(lo: int, hi: int, p: int) -> int {
    if p <= lo {
        lo + 1
    } else if p > hi {
        hi
    } else {
        p
    }
}

/// One JSON value whose first significant character stands at `i`: its
/// tree and the position after it.
pub open spec fn spec_parse_value(cs: Seq<char>, i: int) -> Result<(JsonV, int), int>
    decreases cs.len() - i, 1int,
{
    if !(0 <= i < cs.len()) {
        Result::Err(i)
    } else {
        let c = cs[i];
        if c == '"' {
            match spec_parse_string(cs, i) {
                Result::Ok((t, j)) => Result::Ok((JsonV::Str(t), j)),
                Result::Err(p) => Result::Err(p),
            }
        } else if c == '{' {
            spec_parse_object(cs, i + 1)
        } else if c == '[' {
            spec_parse_array(cs, i + 1)
        } else if c == 't' {
            match spec_expect(cs, i, "true"@) {
                Result::Ok(j) => Result::Ok((JsonV::Bool(true), j)),
                Result::Err(p) => Result::Err(p),
            }
        } else if c == 'f' {
            match spec_expect(cs, i, "false"@) {
                Result::Ok(j) => Result::Ok((JsonV::Bool(false), j)),
                Result::Err(p) => Result::Err(p),
            }
        } else if c == 'n' {
            match spec_expect(cs, i, "null"@) {
                Result::Ok(j) => Result::Ok((JsonV::Null, j)),
                Result::Err(p) => Result::Err(p),
            }
        } else if c == '-' || is_digit_char(c) {
            match spec_scan_number(cs, i) {
                Result::Ok((Option::Some(v), j)) => Result::Ok((JsonV::Int(v), j)),
                Result::Ok((Option::None, j)) => Result::Ok(
                    (JsonV::BigNum(cs.subrange(i, j)), j),
                ),
                Result::Err(p) => Result::Err(p),
            }
        } else {
            Result::Err(i)
        }
    }
}

/// The members of an object from `pos` (at a key's opening quote) on,
/// appended to `acc`: the entries and the position after the closing
/// brace.
pub open spec fn spec_obj_members(
    cs: Seq<char>,
    pos: int,
    acc: Seq<(Seq<char>, JsonV)>,
) -> Result<(Seq<(Seq<char>, JsonV)>, int), int>
    decreases cs.len() - pos, 2int,
{
    if !(0 <= pos < cs.len()) {
        Result::Err(pos)
    } else {
        match spec_parse_string(cs, pos) {
            Result::Err(p) => Result::Err(p),
            Result::Ok((key, after_key)) => {
                let colon = spec_skip_ws(cs, after_key);
                if !(0 <= colon < cs.len()) || cs[colon] != ':' {
                    Result::Err(colon)
                } else {
                    let val_start = bump(pos, cs.len() as int, spec_skip_ws(cs, colon + 1));
                    match spec_parse_value(cs, val_start) {
                        Result::Err(p) => Result::Err(p),
                        Result::Ok((val, after_val)) => {
                            let sep = spec_skip_ws(cs, after_val);
                            if 0 <= sep < cs.len() && cs[sep] == ',' {
                                let next = bump(pos, cs.len() as int, spec_skip_ws(cs, sep + 1));
                                spec_obj_members(cs, next, acc.push((key, val)))
                            } else if 0 <= sep < cs.len() && cs[sep] == '}' {
                                Result::Ok((acc.push((key, val)), sep + 1))
                            } else {
                                Result::Err(sep)
                            }
                        },
                    }
                }
            },
        }
    }
}

/// An object whose opening brace stood just before `start`.
pub open spec fn spec_parse_object(cs: Seq<char>, start: int) -> Result<(JsonV, int), int>
    decreases cs.len() - start, 3int,
{
    if !(0 <= start <= cs.len()) {
        Result::Err(start)
    } else {
        let pos = spec_skip_ws(cs, start);
        if pos < cs.len() && cs[pos] == '}' {
            Result::Ok((JsonV::Obj(Seq::empty()), pos + 1))
        } else {
            let pos_c = bump(start - 1, cs.len() as int, pos);
            match spec_obj_members(cs, pos_c, Seq::empty()) {
                Result::Ok((ms, j)) => Result::Ok((JsonV::Obj(ms), j)),
                Result::Err(p) => Result::Err(p),
            }
        }
    }
}

/// The elements of an array from `pos` (at an element's first character)
/// on, appended to `acc`: the elements and the position after the closing
/// bracket.
pub open spec fn spec_arr_members(cs: Seq<char>, pos: int, acc: Seq<JsonV>) -> Result<
    (Seq<JsonV>, int),
    int,
>
    decreases cs.len() - pos, 2int,
{
    if !(0 <= pos < cs.len()) {
        Result::Err(pos)
    } else {
        match spec_parse_value(cs, pos) {
            Result::Err(p) => Result::Err(p),
            Result::Ok((val, after_val)) => {
                let sep = spec_skip_ws(cs, after_val);
                if 0 <= sep < cs.len() && cs[sep] == ',' {
                    let next = bump(pos, cs.len() as int, spec_skip_ws(cs, sep + 1));
                    spec_arr_members(cs, next, acc.push(val))
                } else if 0 <= sep < cs.len() && cs[sep] == ']' {
                    Result::Ok((acc.push(val), sep + 1))
                } else {
                    Result::Err(sep)
                }
            },
        }
    }
}

/// An array whose opening bracket stood just before `start`.
pub open spec fn spec_parse_array(cs: Seq<char>, start: int) -> Result<(JsonV, int), int>
    decreases cs.len() - start, 3int,
{
    if !(0 <= start <= cs.len()) {
        Result::Err(start)
    } else {
        let pos = spec_skip_ws(cs, start);
        if pos < cs.len() && cs[pos] == ']' {
            Result::Ok((JsonV::Arr(Seq::empty()), pos + 1))
        } else {
            let pos_c = bump(start - 1, cs.len() as int, pos);
            match spec_arr_members(cs, pos_c, Seq::empty()) {
                Result::Ok((ms, j)) => Result::Ok((JsonV::Arr(ms), j)),
                Result::Err(p) => Result::Err(p),
            }
        }
    }
}

/// A complete document: one value with nothing but whitespace around it.
pub open spec fn spec_parse_json(text: Seq<char>) -> Result<JsonV, int> {
    let i = spec_skip_ws(text, 0);
    match spec_parse_value(text, i) {
        Result::Ok((v, j)) => {
            let end = spec_skip_ws(text, j);
            if end == text.len() {
                Result::Ok(v)
            } else {
                Result::Err(end)
            }
        },
        Result::Err(p) => Result::Err(p),
    }
}


fn ws_char(c: char) -> (r: bool)
    ensures
        r == is_ws(c),
{
    c == ' ' || c == '\t' || c == '\n' || c == '\r'
}

fn digit_char(c: char) -> (r: bool)
    ensures
        r == is_digit_char(c),
{
    '0' <= c && c <= '9'
}

fn digit_val(c: char) -> (d: u64)
    requires
        is_digit_char(c),
    ensures
        d as int == digit_of(c),
        d < 10,
{
    (c as u32 as u64) - 48
}

fn hex_val(c: char) -> (d: Option<u32>)
    ensures
        (match hex_digit_of(c) {
            Option::Some(v) => d matches Some(w) && w as int == v,
            Option::None => d is None,
        }),
{
    if '0' <= c && c <= '9' {
        Option::Some(c as u32 - 48)
    } else if 'a' <= c && c <= 'f' {
        Option::Some(c as u32 - 87)
    } else if 'A' <= c && c <= 'F' {
        Option::Some(c as u32 - 55)
    } else {
        Option::None
    }
}

/// Advances past whitespace; stops at the first significant character.
fn skip_ws(cs: &Vec<char>, i: usize) -> (r: usize)
    requires
        i <= cs.len(),
    ensures
        r as int == spec_skip_ws(cs@, i as int),
        i <= r <= cs@.len(),
    decreases cs.len() - i,
{
    if i < cs.len() && ws_char(cs[i]) {
        skip_ws(cs, i + 1)
    } else {
        i
    }
}

/// Advances past decimal digits.
fn skip_digits(cs: &Vec<char>, i: usize) -> (r: usize)
    requires
        i <= cs.len(),
    ensures
        r as int == spec_skip_digits(cs@, i as int),
        i <= r <= cs@.len(),
    decreases cs.len() - i,
{
    if i < cs.len() && digit_char(cs[i]) {
        skip_digits(cs, i + 1)
    } else {
        i
    }
}

/// Reads the four hex digits of a `\u` escape starting at `i`.
fn parse_hex4(cs: &Vec<char>, i: usize) -> (r: Result<(u32, usize), usize>)
    requires
        i <= cs.len(),
    ensures
        (match spec_hex4(cs@, i as int) {
            Result::Ok((v, j)) => r matches Ok((w, jj)) && w as int == v && jj as int == j,
            Result::Err(p) => r matches Err(q) && q as int == p,
        }),
{
    if cs.len() - i < 4 {
        return Result::Err(cs.len());
    }
    let d0 = match hex_val(cs[i]) {
        Option::Some(d) => d,
        Option::None => { return Result::Err(i); },
    };
    let d1 = match hex_val(cs[i + 1]) {
        Option::Some(d) => d,
        Option::None => { return Result::Err(i + 1); },
    };
    let d2 = match hex_val(cs[i + 2]) {
        Option::Some(d) => d,
        Option::None => { return Result::Err(i + 2); },
    };
    let d3 = match hex_val(cs[i + 3]) {
        Option::Some(d) => d,
        Option::None => { return Result::Err(i + 3); },
    };
    Result::Ok((d0 * 4096 + d1 * 256 + d2 * 16 + d3, i + 4))
}

/// Decodes one character of a string literal's content at `pos`.
fn decode_one(cs: &Vec<char>, pos: usize) -> (r: Result<(char, usize), usize>)
    requires
        pos < cs.len(),
    ensures
        (match spec_decode_one(cs@, pos as int) {
            Result::Ok((c, n)) => r matches Ok((cc, nn)) && cc == c && nn as int == n,
            Result::Err(p) => r matches Err(q) && q as int == p,
        }),
        (r matches Ok((_, nn)) ==> pos < nn <= cs@.len()),
{
    let c = cs[pos];
    if c == '\\' {
        if pos + 1 >= cs.len() {
            return Result::Err(pos + 1);
        }
        let e = cs[pos + 1];
        if e == '"' { Result::Ok(('"', pos + 2)) }
        else if e == '\\' { Result::Ok(('\\', pos + 2)) }
        else if e == '/' { Result::Ok(('/', pos + 2)) }
        else if e == 'b' { Result::Ok(('\u{08}', pos + 2)) }
        else if e == 'f' { Result::Ok(('\u{0C}', pos + 2)) }
        else if e == 'n' { Result::Ok(('\n', pos + 2)) }
        else if e == 'r' { Result::Ok(('\r', pos + 2)) }
        else if e == 't' { Result::Ok(('\t', pos + 2)) }
        else if e == 'u' {
            let (v, after) = match parse_hex4(cs, pos + 2) {
                Result::Ok(p) => p,
                Result::Err(p) => { return Result::Err(p); },
            };
            if 0xD800 <= v && v <= 0xDBFF {
                // A high surrogate must be followed by an escaped low
                // surrogate; the pair names one supplementary character.
                if cs.len() - after < 2 || cs[after] != '\\' || cs[after + 1] != 'u' {
                    return Result::Err(after);
                }
                let (lo, after2) = match parse_hex4(cs, after + 2) {
                    Result::Ok(p) => p,
                    Result::Err(p) => { return Result::Err(p); },
                };
                if !(0xDC00 <= lo && lo <= 0xDFFF) {
                    return Result::Err(after);
                }
                let cp: u32 = 0x10000 + (v - 0xD800) * 0x400 + (lo - 0xDC00);
                match char_from_u32(cp) {
                    Option::Some(ch) => {
                        proof {
                            vstd::utf8::char_u32_cast(ch, cp);
                        }
                        Result::Ok((ch, after2))
                    },
                    Option::None => {
                        // The pair's code point lies in the supplementary
                        // planes, so the conversion cannot refuse it.
                        proof {
                            assert(false);
                        }
                        Result::Err(after)
                    },
                }
            } else {
                match char_from_u32(v) {
                    Option::Some(ch) => {
                        proof {
                            vstd::utf8::char_u32_cast(ch, v);
                        }
                        Result::Ok((ch, after))
                    },
                    Option::None => Result::Err(pos + 2),
                }
            }
        }
        else { Result::Err(pos + 1) }
    } else if (c as u32) < 0x20 {
        // Control characters must be escaped inside a JSON string.
        Result::Err(pos)
    } else {
        Result::Ok((c, pos + 1))
    }
}

/// Decodes a string literal's remainder from `pos` to its closing quote,
/// appending the decoded characters to `out`.
fn string_tail(cs: &Vec<char>, pos: usize, out: &mut String) -> (r: Result<usize, usize>)
    requires
        pos <= cs.len(),
    ensures
        (match spec_string_tail(cs@, pos as int) {
            Result::Ok((t, j)) => r matches Ok(jj) && jj as int == j && final(out)@ == old(out)@
                + t,
            Result::Err(p) => r matches Err(q) && q as int == p,
        }),
        (r matches Ok(jj) ==> pos < jj <= cs@.len()),
    decreases cs.len() - pos,
{
    if pos >= cs.len() {
        return Result::Err(pos);
    }
    if cs[pos] == '"' {
        proof {
            assert(old(out)@ + Seq::<char>::empty() =~= old(out)@);
        }
        return Result::Ok(pos + 1);
    }
    let (dec, nxt) = match decode_one(cs, pos) {
        Result::Ok(p) => p,
        Result::Err(p) => { return Result::Err(p); },
    };
    push_char(out, dec);
    let r = string_tail(cs, nxt, out);
    proof {
        match spec_string_tail(cs@, nxt as int) {
            Result::Ok((t, j)) => {
                assert(out@ =~= old(out)@ + (seq![dec] + t));
            },
            Result::Err(_) => {},
        }
    }
    r
}

/// Parses a string literal whose opening quote stands at `i`.
fn parse_string(cs: &Vec<char>, i: usize) -> (r: Result<(String, usize), usize>)
    requires
        i <= cs.len(),
    ensures
        (match spec_parse_string(cs@, i as int) {
            Result::Ok((t, j)) => r matches Ok((s, jj)) && s@ == t && jj as int == j,
            Result::Err(p) => r matches Err(q) && q as int == p,
        }),
        (r matches Ok((s, jj)) ==> i < jj <= cs@.len()),
{
    if i >= cs.len() || cs[i] != '"' {
        return Result::Err(i);
    }
    let mut out = String::new();
    match string_tail(cs, i + 1, &mut out) {
        Result::Ok(j) => Result::Ok((out, j)),
        Result::Err(p) => Result::Err(p),
    }
}

/// Scans a digit run, accumulating the magnitude with the saturation rule
/// of [`spec_scan_digits`].
fn scan_digits(cs: &Vec<char>, pos: usize, mag: u64, overflowed: bool) -> (r: (u64, bool, usize))
    requires
        pos <= cs.len(),
        !overflowed ==> mag <= 9223372036854775808u64,
    ensures
        r.0 as int == spec_scan_digits(cs@, pos as int, mag as int, overflowed).0,
        r.1 == spec_scan_digits(cs@, pos as int, mag as int, overflowed).1,
        r.2 as int == spec_scan_digits(cs@, pos as int, mag as int, overflowed).2,
        pos <= r.2 <= cs@.len(),
        (pos < cs@.len() && is_digit_char(cs@[pos as int]) ==> r.2 > pos),
        !r.1 ==> r.0 <= 9223372036854775808u64,
    decreases cs.len() - pos,
{
    if pos < cs.len() && digit_char(cs[pos]) {
        let d = digit_val(cs[pos]);
        if overflowed || mag > (9223372036854775808u64 - d) / 10 {
            scan_digits(cs, pos + 1, 0, true)
        } else {
            scan_digits(cs, pos + 1, mag * 10 + d, false)
        }
    } else {
        (mag, overflowed, pos)
    }
}

/// Scans a fraction part, if one starts at `pos`.
fn scan_frac(cs: &Vec<char>, pos: usize) -> (r: Result<(bool, usize), usize>)
    requires
        pos <= cs.len(),
    ensures
        (match spec_scan_frac(cs@, pos as int) {
            Result::Ok((b, j)) => r matches Ok((bb, jj)) && bb == b && jj as int == j,
            Result::Err(p) => r matches Err(q) && q as int == p,
        }),
        (r matches Ok((_, jj)) ==> pos <= jj <= cs@.len()),
{
    if pos < cs.len() && cs[pos] == '.' {
        if !(pos + 1 < cs.len() && digit_char(cs[pos + 1])) {
            Result::Err(pos + 1)
        } else {
            Result::Ok((true, skip_digits(cs, pos + 1)))
        }
    } else {
        Result::Ok((false, pos))
    }
}

/// Scans an exponent part, if one starts at `pos`.
fn scan_exp(cs: &Vec<char>, pos: usize) -> (r: Result<(bool, usize), usize>)
    requires
        pos <= cs.len(),
    ensures
        (match spec_scan_exp(cs@, pos as int) {
            Result::Ok((b, j)) => r matches Ok((bb, jj)) && bb == b && jj as int == j,
            Result::Err(p) => r matches Err(q) && q as int == p,
        }),
        (r matches Ok((_, jj)) ==> pos <= jj <= cs@.len()),
{
    if pos < cs.len() && (cs[pos] == 'e' || cs[pos] == 'E') {
        let d: usize = if pos + 1 < cs.len() && (cs[pos + 1] == '+' || cs[pos + 1] == '-') {
            pos + 2
        } else {
            pos + 1
        };
        if !(d < cs.len() && digit_char(cs[d])) {
            Result::Err(d)
        } else {
            Result::Ok((true, skip_digits(cs, d)))
        }
    } else {
        Result::Ok((false, pos))
    }
}

/// Scans a number per the JSON grammar, as [`spec_scan_number`] describes
/// it: `Some` of a 64-bit integer value, or `None` for one that is
/// fractional, in exponent form or out of range.
fn scan_number(cs: &Vec<char>, i: usize) -> (r: Result<(Option<i64>, usize), usize>)
    requires
        i <= cs.len(),
    ensures
        (match spec_scan_number(cs@, i as int) {
            Result::Ok((Option::Some(v), j)) => r matches Ok((w, jj)) && (w matches Some(x) && x
                as int == v) && jj as int == j,
            Result::Ok((Option::None, j)) => r matches Ok((w, jj)) && w is None && jj as int == j,
            Result::Err(p) => r matches Err(q) && q as int == p,
        }),
        (r matches Ok((_, jj)) ==> i < jj <= cs@.len()),
{
    let neg = i < cs.len() && cs[i] == '-';
    let p0: usize = if neg { i + 1 } else { i };
    if !(p0 < cs.len() && digit_char(cs[p0])) {
        return Result::Err(p0);
    }
    if cs[p0] == '0' && p0 + 1 < cs.len() && digit_char(cs[p0 + 1]) {
        return Result::Err(p0 + 1);
    }
    let (mag, overflowed, p1) = scan_digits(cs, p0, 0, false);
    let (has_frac, p2) = match scan_frac(cs, p1) {
        Result::Ok(p) => p,
        Result::Err(p) => { return Result::Err(p); },
    };
    let (has_exp, p3) = match scan_exp(cs, p2) {
        Result::Ok(p) => p,
        Result::Err(p) => { return Result::Err(p); },
    };
    if has_frac || has_exp || overflowed {
        Result::Ok((Option::None, p3))
    } else if neg {
        if mag == 9223372036854775808u64 {
            Result::Ok((Option::Some(i64::MIN), p3))
        } else {
            Result::Ok((Option::Some(-(mag as i64)), p3))
        }
    } else if mag == 9223372036854775808u64 {
        Result::Ok((Option::None, p3))
    } else {
        Result::Ok((Option::Some(mag as i64), p3))
    }
}

/// Copies the characters of `cs` from `i` to `end` into a fresh string.
fn copy_range(cs: &Vec<char>, i: usize, end: usize) -> (s: String)
    requires
        i <= end <= cs.len(),
    ensures
        s@ == cs@.subrange(i as int, end as int),
{
    let mut out = String::new();
    push_range(cs, i, end, &mut out);
    proof {
        assert(Seq::<char>::empty() + cs@.subrange(i as int, end as int) =~= cs@.subrange(
            i as int,
            end as int,
        ));
    }
    out
}

fn push_range(cs: &Vec<char>, i: usize, end: usize, out: &mut String)
    requires
        i <= end <= cs.len(),
    ensures
        final(out)@ == old(out)@ + cs@.subrange(i as int, end as int),
    decreases end - i,
{
    if i < end {
        push_char(out, cs[i]);
        push_range(cs, i + 1, end, out);
        proof {
            assert(final(out)@ =~= old(out)@ + cs@.subrange(i as int, end as int));
        }
    } else {
        proof {
            assert(old(out)@ + cs@.subrange(i as int, end as int) =~= old(out)@);
        }
    }
}

/// Checks the characters of `word` at `i`, from offset `k` on.
fn expect_from(cs: &Vec<char>, i: usize, word: &Vec<char>, k: usize) -> (r: Result<usize, usize>)
    requires
        i + word.len() <= cs.len(),
        k <= word.len(),
    ensures
        (match spec_expect_from(cs@, i as int, word@, k as int) {
            Result::Ok(j) => r matches Ok(jj) && jj as int == j,
            Result::Err(p) => r matches Err(q) && q as int == p,
        }),
        (r matches Ok(jj) ==> jj as int == i + word@.len()),
    decreases word.len() - k,
{
    if k < word.len() {
        if cs[i + k] != word[k] {
            Result::Err(i + k)
        } else {
            expect_from(cs, i, word, k + 1)
        }
    } else {
        Result::Ok(i + word.len())
    }
}

/// Checks that the characters of `word` stand at `i`.
fn expect_word(cs: &Vec<char>, i: usize, word: &Vec<char>) -> (r: Result<usize, usize>)
    requires
        i <= cs.len(),
    ensures
        (match spec_expect(cs@, i as int, word@) {
            Result::Ok(j) => r matches Ok(jj) && jj as int == j,
            Result::Err(p) => r matches Err(q) && q as int == p,
        }),
        (r matches Ok(jj) ==> i <= jj <= cs@.len() && jj as int == i + word@.len()),
{
    if cs.len() - i < word.len() {
        Result::Err(cs.len())
    } else {
        expect_from(cs, i, word, 0)
    }
}

/// Parses one JSON value whose first significant character stands at `i`,
/// exactly as [`spec_parse_value`] describes it.
#[verifier::rlimit(100)]
fn parse_value(cs: &Vec<char>, i: usize) -> (r: Result<(Json, usize), usize>)
    requires
        i <= cs.len(),
    ensures
        (match spec_parse_value(cs@, i as int) {
            Result::Ok((v, j)) => r matches Ok((jj, p)) && jview(jj) == v && p as int == j,
            Result::Err(p) => r matches Err(q) && q as int == p,
        }),
        (r matches Ok((_, p)) ==> i < p <= cs@.len()),
    decreases cs.len() - i, 1nat,
{
    if i >= cs.len() {
        return Result::Err(i);
    }
    let c = cs[i];
    if c == '"' {
        match parse_string(cs, i) {
            Result::Ok((s, j)) => Result::Ok((Json::Str(s), j)),
            Result::Err(p) => Result::Err(p),
        }
    } else if c == '{' {
        parse_object(cs, i + 1)
    } else if c == '[' {
        parse_array(cs, i + 1)
    } else if c == 't' {
        let word = chars_vec("true");
        proof {
            reveal_strlit("true");
        }
        match expect_word(cs, i, &word) {
            Result::Ok(j) => Result::Ok((Json::Bool(true), j)),
            Result::Err(p) => Result::Err(p),
        }
    } else if c == 'f' {
        let word = chars_vec("false");
        proof {
            reveal_strlit("false");
        }
        match expect_word(cs, i, &word) {
            Result::Ok(j) => Result::Ok((Json::Bool(false), j)),
            Result::Err(p) => Result::Err(p),
        }
    } else if c == 'n' {
        let word = chars_vec("null");
        proof {
            reveal_strlit("null");
        }
        match expect_word(cs, i, &word) {
            Result::Ok(j) => Result::Ok((Json::Null, j)),
            Result::Err(p) => Result::Err(p),
        }
    } else if c == '-' || digit_char(c) {
        match scan_number(cs, i) {
            Result::Ok((Option::Some(v), j)) => Result::Ok((Json::Int(v), j)),
            Result::Ok((Option::None, j)) => Result::Ok(
                (Json::BigNum(copy_range(cs, i, j)), j),
            ),
            Result::Err(p) => Result::Err(p),
        }
    } else {
        Result::Err(i)
    }
}

/// Parses the members of an object from `pos` (at a key's opening quote)
/// on, appending them to `entries`.
fn obj_members(cs: &Vec<char>, pos: usize, entries: &mut Vec<(String, Json)>) -> (r: Result<
    usize,
    usize,
>)
    requires
        pos <= cs.len(),
    ensures
        (match spec_obj_members(cs@, pos as int, entries_view(old(entries)@)) {
            Result::Ok((ms, j)) => r matches Ok(jj) && jj as int == j && entries_view(
                final(entries)@,
            ) == ms,
            Result::Err(p) => r matches Err(q) && q as int == p,
        }),
        (r matches Ok(jj) ==> pos < jj <= cs@.len()),
    decreases cs.len() - pos, 2nat,
{
    if pos >= cs.len() {
        return Result::Err(pos);
    }
    let (key, after_key) = match parse_string(cs, pos) {
        Result::Ok(p) => p,
        Result::Err(p) => { return Result::Err(p); },
    };
    let colon = skip_ws(cs, after_key);
    if colon >= cs.len() || cs[colon] != ':' {
        return Result::Err(colon);
    }
    let val_start = skip_ws(cs, colon + 1);
    proof {
        assert(bump(pos as int, cs@.len() as int, val_start as int) == val_start as int);
    }
    let (val, after_val) = match parse_value(cs, val_start) {
        Result::Ok(p) => p,
        Result::Err(p) => { return Result::Err(p); },
    };
    let ghost before = entries@;
    entries.push((key, val));
    proof {
        lemma_entries_view_push(before, entries@[before.len() as int]);
    }
    let sep = skip_ws(cs, after_val);
    if sep < cs.len() && cs[sep] == ',' {
        let next = skip_ws(cs, sep + 1);
        proof {
            assert(bump(pos as int, cs@.len() as int, next as int) == next as int);
        }
        obj_members(cs, next, entries)
    } else if sep < cs.len() && cs[sep] == '}' {
        Result::Ok(sep + 1)
    } else {
        Result::Err(sep)
    }
}

/// Parses an object whose opening brace stood just before `start`.
fn parse_object(cs: &Vec<char>, start: usize) -> (r: Result<(Json, usize), usize>)
    requires
        start <= cs.len(),
    ensures
        (match spec_parse_object(cs@, start as int) {
            Result::Ok((v, j)) => r matches Ok((jj, p)) && jview(jj) == v && p as int == j,
            Result::Err(p) => r matches Err(q) && q as int == p,
        }),
        (r matches Ok((_, p)) ==> start < p <= cs@.len()),
    decreases cs.len() - start, 3nat,
{
    let pos = skip_ws(cs, start);
    if pos < cs.len() && cs[pos] == '}' {
        let empty: Vec<(String, Json)> = Vec::new();
        proof {
            assert(entries_view(empty@) =~= Seq::<(Seq<char>, JsonV)>::empty());
        }
        return Result::Ok((Json::Obj(empty), pos + 1));
    }
    proof {
        assert(bump(start as int - 1, cs@.len() as int, pos as int) == pos as int);
    }
    let mut entries: Vec<(String, Json)> = Vec::new();
    proof {
        assert(entries_view(entries@) =~= Seq::<(Seq<char>, JsonV)>::empty());
    }
    match obj_members(cs, pos, &mut entries) {
        Result::Ok(j) => Result::Ok((Json::Obj(entries), j)),
        Result::Err(p) => Result::Err(p),
    }
}

/// Parses the elements of an array from `pos` (at an element's first
/// character) on, appending them to `elems`.
fn arr_members(cs: &Vec<char>, pos: usize, elems: &mut Vec<Json>) -> (r: Result<usize, usize>)
    requires
        pos <= cs.len(),
    ensures
        (match spec_arr_members(cs@, pos as int, arr_view(old(elems)@)) {
            Result::Ok((ms, j)) => r matches Ok(jj) && jj as int == j && arr_view(final(elems)@)
                == ms,
            Result::Err(p) => r matches Err(q) && q as int == p,
        }),
        (r matches Ok(jj) ==> pos < jj <= cs@.len()),
    decreases cs.len() - pos, 2nat,
{
    if pos >= cs.len() {
        return Result::Err(pos);
    }
    let (val, after_val) = match parse_value(cs, pos) {
        Result::Ok(p) => p,
        Result::Err(p) => { return Result::Err(p); },
    };
    let ghost before = elems@;
    elems.push(val);
    proof {
        lemma_arr_view_push(before, elems@[before.len() as int]);
    }
    let sep = skip_ws(cs, after_val);
    if sep < cs.len() && cs[sep] == ',' {
        let next = skip_ws(cs, sep + 1);
        proof {
            assert(bump(pos as int, cs@.len() as int, next as int) == next as int);
        }
        arr_members(cs, next, elems)
    } else if sep < cs.len() && cs[sep] == ']' {
        Result::Ok(sep + 1)
    } else {
        Result::Err(sep)
    }
}

/// Parses an array whose opening bracket stood just before `start`.
fn parse_array(cs: &Vec<char>, start: usize) -> (r: Result<(Json, usize), usize>)
    requires
        start <= cs.len(),
    ensures
        (match spec_parse_array(cs@, start as int) {
            Result::Ok((v, j)) => r matches Ok((jj, p)) && jview(jj) == v && p as int == j,
            Result::Err(p) => r matches Err(q) && q as int == p,
        }),
        (r matches Ok((_, p)) ==> start < p <= cs@.len()),
    decreases cs.len() - start, 3nat,
{
    let pos = skip_ws(cs, start);
    if pos < cs.len() && cs[pos] == ']' {
        let empty: Vec<Json> = Vec::new();
        proof {
            assert(arr_view(empty@) =~= Seq::<JsonV>::empty());
        }
        return Result::Ok((Json::Arr(empty), pos + 1));
    }
    proof {
        assert(bump(start as int - 1, cs@.len() as int, pos as int) == pos as int);
    }
    let mut elems: Vec<Json> = Vec::new();
    proof {
        assert(arr_view(elems@) =~= Seq::<JsonV>::empty());
    }
    match arr_members(cs, pos, &mut elems) {
        Result::Ok(j) => Result::Ok((Json::Arr(elems), j)),
        Result::Err(p) => Result::Err(p),
    }
}

/// Appending an entry appends its view.
proof fn lemma_entries_view_push(s: Seq<(String, Json)>, p: (String, Json))
    ensures
        entries_view(s.push(p)) == entries_view(s).push((p.0@, jview(p.1))),
{
    lemma_entries_view(s);
    lemma_entries_view(s.push(p));
    assert(s.push(p)[s.len() as int] == p);
    assert forall|i: int| 0 <= i < s.len() implies s.push(p)[i] == s[i] by {}
    assert(entries_view(s.push(p)) =~= entries_view(s).push((p.0@, jview(p.1))));
}

/// Appending an element appends its view.
proof fn lemma_arr_view_push(s: Seq<Json>, p: Json)
    ensures
        arr_view(s.push(p)) == arr_view(s).push(jview(p)),
{
    lemma_arr_view(s);
    lemma_arr_view(s.push(p));
    assert(s.push(p)[s.len() as int] == p);
    assert forall|i: int| 0 <= i < s.len() implies s.push(p)[i] == s[i] by {}
    assert(arr_view(s.push(p)) =~= arr_view(s).push(jview(p)));
}

/// Parses a complete JSON document: one value with nothing but whitespace
/// around it, exactly as [`spec_parse_json`] describes it. An error
/// carries the character position at which parsing stopped.
pub fn parse_json(text: &str) -> (r: Result<Json, usize>)
    ensures
        (match spec_parse_json(text@) {
            Result::Ok(v) => r matches Ok(j) && jview(j) == v,
            Result::Err(p) => r matches Err(q) && q as int == p,
        }),
{
    let cs = chars_vec(text);
    let i = skip_ws(&cs, 0);
    match parse_value(&cs, i) {
        Result::Ok((v, j)) => {
            let end = skip_ws(&cs, j);
            if end == cs.len() {
                Result::Ok(v)
            } else {
                Result::Err(end)
            }
        },
        Result::Err(p) => Result::Err(p),
    }
}

} // verus!
