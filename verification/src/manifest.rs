//! The dependency manifest: the metadata file inside a cached source tree
//! that names the runtime version the tree requires.
//!
//! The manifest is a JSON object.  The runtime version is the string bound
//! to the top-level `"go"` key; keys and the `"go"` value are decoded with
//! the standard JSON escapes, including surrogate pairs.  Every other
//! member may hold any JSON value — nested objects and arrays included —
//! which is validated and skipped.  A text that is not such an object
//! (malformed syntax, trailing content, a duplicate `"go"` key, a
//! non-string `"go"` value, an unpaired surrogate escape in a decoded
//! string), or that lacks the `"go"` key, is unusable, and bootstrapping
//! falls back — non-fatally — to a fixed default runtime version, exactly
//! as it does when the file is missing altogether.

use vstd::prelude::*;
use vstd::string::*;
use crate::text::str_eq;

verus! {

/// Relies on `String::push`: appends the given character to the end of the
/// string.
pub assume_specification[ String::push ](s: &mut String, c: char)
    ensures
        final(s)@ == old(s)@.push(c),
;

/// Relies on `char::from_u32`: yields the character with the given code
/// point, and `None` exactly when the code is a surrogate or above the
/// Unicode range.
pub assume_specification[ char::from_u32 ](code: u32) -> (r: Option<char>)
    ensures
        (r is Some) <==> (code < 0xD800 || (0xE000 <= code && code <= 0x10FFFF)),
        r matches Some(c) ==> c as u32 == code,
;

/// JSON whitespace.
pub open spec fn is_json_ws(c: char) -> bool {
    c == ' ' || c == '\n' || c == '\r' || c == '\t'
}

/// A character that may stand unescaped inside a string literal: anything
/// but the closing quote, a backslash, or a control character.
pub open spec fn is_plain_string_char(c: char) -> bool {
    c != '"' && c != '\\' && (c as u32) >= 0x20
}

/// A decimal digit.
pub open spec fn is_digit(c: char) -> bool {
    ('0' as u32) <= (c as u32) && (c as u32) <= ('9' as u32)
}

/// The value of a hexadecimal digit, or `None`.
pub open spec fn spec_hex_val(c: char) -> Option<int> {
    let u = c as u32;
    if ('0' as u32) <= u && u <= ('9' as u32) {
        Some((u - ('0' as u32)) as int)
    } else if ('a' as u32) <= u && u <= ('f' as u32) {
        Some((u - ('a' as u32) + 10) as int)
    } else if ('A' as u32) <= u && u <= ('F' as u32) {
        Some((u - ('A' as u32) + 10) as int)
    } else {
        None
    }
}

/// The code read from four hexadecimal digits at `i`, or `None`.
pub open spec fn spec_hex4(s: Seq<char>, i: int) -> Option<int> {
    if 0 <= i && i + 3 < s.len() {
        match (spec_hex_val(s[i]), spec_hex_val(s[i + 1]), spec_hex_val(s[i + 2]), spec_hex_val(
            s[i + 3],
        )) {
            (Some(a), Some(b), Some(c), Some(d)) => Some(((a * 16 + b) * 16 + c) * 16 + d),
            _ => None,
        }
    } else {
        None
    }
}

/// The character a simple escape stands for, or `None` when the character
/// after the backslash is no simple escape.
pub open spec fn spec_simple_escape(c: char) -> Option<char> {
    if c == '"' {
        Some('"')
    } else if c == '\\' {
        Some('\\')
    } else if c == '/' {
        Some('/')
    } else if c == 'b' {
        Some('\u{0008}')
    } else if c == 'f' {
        Some('\u{000C}')
    } else if c == 'n' {
        Some('\n')
    } else if c == 'r' {
        Some('\r')
    } else if c == 't' {
        Some('\t')
    } else {
        None
    }
}

/// The first index at or after `i` holding no whitespace (or the end).
pub open spec fn spec_skip_ws(s: Seq<char>, i: int) -> int
    decreases s.len() - i,
{
    if i < s.len() && is_json_ws(s[i]) {
        spec_skip_ws(s, i + 1)
    } else {
        i
    }
}

/// Decodes a string literal scanned from `i` (just past the opening quote),
/// appending to the decoded prefix `acc`.  Yields the decoded characters
/// and the index just past the closing quote; an invalid escape, an
/// unpaired surrogate escape, a control character or the end make the
/// literal invalid.
pub open spec fn spec_parse_string(s: Seq<char>, i: int, acc: Seq<char>) -> Option<
    (Seq<char>, int),
>
    decreases s.len() - i,
{
    if i >= s.len() {
        None
    } else if s[i] == '"' {
        Some((acc, i + 1))
    } else if s[i] == '\\' {
        if i + 1 >= s.len() {
            None
        } else if s[i + 1] == 'u' {
            if i + 5 >= s.len() {
                None
            } else {
                match spec_hex4(s, i + 2) {
                    Some(code) => if 0xDC00 <= code && code <= 0xDFFF {
                        None
                    } else if 0xD800 <= code && code <= 0xDBFF {
                        if i + 11 >= s.len() {
                            None
                        } else if s[i + 6] == '\\' && s[i + 7] == 'u' {
                            match spec_hex4(s, i + 8) {
                                Some(code2) => if 0xDC00 <= code2 && code2 <= 0xDFFF {
                                    spec_parse_string(
                                        s,
                                        i + 12,
                                        acc.push(
                                            ((0x10000 + (code - 0xD800) * 0x400 + (code2 - 0xDC00))
                                                as u32) as char,
                                        ),
                                    )
                                } else {
                                    None
                                },
                                None => None,
                            }
                        } else {
                            None
                        }
                    } else {
                        spec_parse_string(s, i + 6, acc.push((code as u32) as char))
                    },
                    None => None,
                }
            }
        } else {
            match spec_simple_escape(s[i + 1]) {
                Some(c) => spec_parse_string(s, i + 2, acc.push(c)),
                None => None,
            }
        }
    } else if is_plain_string_char(s[i]) {
        spec_parse_string(s, i + 1, acc.push(s[i]))
    } else {
        None
    }
}

/// Scans past a string literal from `i` (just past the opening quote)
/// without decoding it, as skipped members are scanned: escapes must be a
/// simple escape or `u` with four hexadecimal digits, with no pairing
/// demanded of surrogates.  Yields the index just past the closing quote.
pub open spec fn spec_skip_string(s: Seq<char>, i: int) -> Option<int>
    decreases s.len() - i,
{
    if i >= s.len() {
        None
    } else if s[i] == '"' {
        Some(i + 1)
    } else if s[i] == '\\' {
        if i + 1 >= s.len() {
            None
        } else if s[i + 1] == 'u' {
            if i + 5 >= s.len() {
                None
            } else {
                match spec_hex4(s, i + 2) {
                    Some(code) => spec_skip_string(s, i + 6),
                    None => None,
                }
            }
        } else {
            match spec_simple_escape(s[i + 1]) {
                Some(c) => spec_skip_string(s, i + 2),
                None => None,
            }
        }
    } else if is_plain_string_char(s[i]) {
        spec_skip_string(s, i + 1)
    } else {
        None
    }
}

/// The first index at or after `i` holding no decimal digit (or the end).
pub open spec fn spec_scan_digits(s: Seq<char>, i: int) -> int
    decreases s.len() - i,
{
    if i < s.len() && is_digit(s[i]) {
        spec_scan_digits(s, i + 1)
    } else {
        i
    }
}

/// Scans an exponent part whose `e` or `E` stands at `p`: an optional sign,
/// then at least one digit.
pub open spec fn spec_scan_exponent(s: Seq<char>, p: int) -> Option<int> {
    let q = if p + 1 < s.len() && (s[p + 1] == '+' || s[p + 1] == '-') {
        p + 2
    } else {
        p + 1
    };
    if q < s.len() && is_digit(s[q]) {
        Some(spec_scan_digits(s, q))
    } else {
        None
    }
}

/// Scans what may follow a number's integer part ending at `int_end`: an
/// optional fraction (a dot with at least one digit), then an optional
/// exponent.
pub open spec fn spec_scan_number_tail(s: Seq<char>, int_end: int) -> Option<int> {
    if int_end < s.len() && s[int_end] == '.' {
        if int_end + 1 < s.len() && is_digit(s[int_end + 1]) {
            let frac_end = spec_scan_digits(s, int_end + 1);
            if frac_end < s.len() && (s[frac_end] == 'e' || s[frac_end] == 'E') {
                spec_scan_exponent(s, frac_end)
            } else {
                Some(frac_end)
            }
        } else {
            None
        }
    } else if int_end < s.len() && (s[int_end] == 'e' || s[int_end] == 'E') {
        spec_scan_exponent(s, int_end)
    } else {
        Some(int_end)
    }
}

/// Scans a number starting at `i` (at the minus sign or first digit): an
/// optional minus, an integer part without leading zeros, an optional
/// fraction and exponent.  Yields the index just past the number.
pub open spec fn spec_scan_number(s: Seq<char>, i: int) -> Option<int> {
    let start = if i < s.len() && s[i] == '-' {
        i + 1
    } else {
        i
    };
    if start < s.len() && is_digit(s[start]) {
        if s[start] == '0' {
            if start + 1 < s.len() && is_digit(s[start + 1]) {
                None
            } else {
                spec_scan_number_tail(s, start + 1)
            }
        } else {
            spec_scan_number_tail(s, spec_scan_digits(s, start))
        }
    } else {
        None
    }
}

/// Scans one of the keywords `true`, `false` or `null` starting at `i`.
pub open spec fn spec_scan_keyword(s: Seq<char>, i: int) -> Option<int> {
    if 0 <= i && i + 4 <= s.len() && s[i] == 't' && s[i + 1] == 'r' && s[i + 2] == 'u' && s[i + 3]
        == 'e' {
        Some(i + 4)
    } else if 0 <= i && i + 5 <= s.len() && s[i] == 'f' && s[i + 1] == 'a' && s[i + 2] == 'l' && s[i
        + 3] == 's' && s[i + 4] == 'e' {
        Some(i + 5)
    } else if 0 <= i && i + 4 <= s.len() && s[i] == 'n' && s[i + 1] == 'u' && s[i + 2] == 'l' && s[i
        + 3] == 'l' {
        Some(i + 4)
    } else {
        None
    }
}

/// Scans past one JSON value starting exactly at `i`: a string, number,
/// keyword, object or array, nested to any depth.  Yields the index just
/// past the value.
pub open spec fn spec_skip_value(s: Seq<char>, i: int) -> Option<int>
    decreases s.len() - i, 0int,
{
    if i >= s.len() {
        None
    } else if s[i] == '"' {
        spec_skip_string(s, i + 1)
    } else if s[i] == '-' || is_digit(s[i]) {
        spec_scan_number(s, i)
    } else if s[i] == 't' || s[i] == 'f' || s[i] == 'n' {
        spec_scan_keyword(s, i)
    } else if s[i] == '{' {
        spec_skip_members(s, i + 1, true)
    } else if s[i] == '[' {
        spec_skip_elements(s, i + 1, true)
    } else {
        None
    }
}

/// Scans the members of a skipped object from `i` (just past `{` when
/// `first` holds, just past a `,` otherwise).  Yields the index just past
/// the closing brace.
pub open spec fn spec_skip_members(s: Seq<char>, i: int, first: bool) -> Option<int>
    decreases s.len() - i, 1int,
{
    let j = spec_skip_ws(s, i);
    if first && j < s.len() && s[j] == '}' {
        Some(j + 1)
    } else if j < s.len() && s[j] == '"' {
        match spec_skip_string(s, j + 1) {
            Some(kend) => {
                let colon = spec_skip_ws(s, kend);
                if colon < s.len() && s[colon] == ':' {
                    let v = spec_skip_ws(s, colon + 1);
                    if i <= v && v <= s.len() {
                        match spec_skip_value(s, v) {
                            Some(vend) => {
                                let k = spec_skip_ws(s, vend);
                                if k < s.len() && s[k] == ',' {
                                    if i < k + 1 {
                                        spec_skip_members(s, k + 1, false)
                                    } else {
                                        None
                                    }
                                } else if k < s.len() && s[k] == '}' {
                                    Some(k + 1)
                                } else {
                                    None
                                }
                            },
                            None => None,
                        }
                    } else {
                        None
                    }
                } else {
                    None
                }
            },
            None => None,
        }
    } else {
        None
    }
}

/// Scans the elements of a skipped array from `i` (just past `[` when
/// `first` holds, just past a `,` otherwise).  Yields the index just past
/// the closing bracket.
pub open spec fn spec_skip_elements(s: Seq<char>, i: int, first: bool) -> Option<int>
    decreases s.len() - i, 1int,
{
    let j = spec_skip_ws(s, i);
    if first && j < s.len() && s[j] == ']' {
        Some(j + 1)
    } else if i <= j && j <= s.len() {
        match spec_skip_value(s, j) {
            Some(vend) => {
                let k = spec_skip_ws(s, vend);
                if k < s.len() && s[k] == ',' {
                    if i < k + 1 {
                        spec_skip_elements(s, k + 1, false)
                    } else {
                        None
                    }
                } else if k < s.len() && s[k] == ']' {
                    Some(k + 1)
                } else {
                    None
                }
            },
            None => None,
        }
    } else {
        None
    }
}

/// Parses the manifest object's members from `i` (just past `{` when
/// `first` holds, just past a `,` otherwise), carrying the decoded string
/// bound to the `"go"` key so far.  The `"go"` value must be a string
/// literal and the key must not repeat; any other member's value is
/// validated and skipped.  Yields the final binding once the object closes
/// with nothing but whitespace after it.
pub open spec fn spec_manifest_members(
    s: Seq<char>,
    i: int,
    go: Option<Seq<char>>,
    first: bool,
) -> Option<Option<Seq<char>>>
    decreases s.len() - i,
{
    let j = spec_skip_ws(s, i);
    if first && j < s.len() && s[j] == '}' {
        if spec_skip_ws(s, j + 1) == s.len() {
            Some(go)
        } else {
            None
        }
    } else if j < s.len() && s[j] == '"' {
        match spec_parse_string(s, j + 1, Seq::empty()) {
            Some(kp) => {
                let colon = spec_skip_ws(s, kp.1);
                if colon < s.len() && s[colon] == ':' {
                    let v = spec_skip_ws(s, colon + 1);
                    if kp.0 == "go"@ {
                        if go is Some {
                            None
                        } else if v < s.len() && s[v] == '"' {
                            match spec_parse_string(s, v + 1, Seq::empty()) {
                                Some(vp) => {
                                    let k = spec_skip_ws(s, vp.1);
                                    if k < s.len() && s[k] == ',' {
                                        if i < k + 1 {
                                            spec_manifest_members(s, k + 1, Some(vp.0), false)
                                        } else {
                                            None
                                        }
                                    } else if k < s.len() && s[k] == '}' {
                                        if spec_skip_ws(s, k + 1) == s.len() {
                                            Some(Some(vp.0))
                                        } else {
                                            None
                                        }
                                    } else {
                                        None
                                    }
                                },
                                None => None,
                            }
                        } else {
                            None
                        }
                    } else {
                        match spec_skip_value(s, v) {
                            Some(vend) => {
                                let k = spec_skip_ws(s, vend);
                                if k < s.len() && s[k] == ',' {
                                    if i < k + 1 {
                                        spec_manifest_members(s, k + 1, go, false)
                                    } else {
                                        None
                                    }
                                } else if k < s.len() && s[k] == '}' {
                                    if spec_skip_ws(s, k + 1) == s.len() {
                                        Some(go)
                                    } else {
                                        None
                                    }
                                } else {
                                    None
                                }
                            },
                            None => None,
                        }
                    }
                } else {
                    None
                }
            },
            None => None,
        }
    } else {
        None
    }
}

/// The runtime version a manifest text names: the decoded string bound to
/// the top-level `"go"` key, or `None` when the text is not a usable
/// manifest.
pub open spec fn spec_manifest_go(s: Seq<char>) -> Option<Seq<char>> {
    let i = spec_skip_ws(s, 0);
    if i < s.len() && s[i] == '{' {
        match spec_manifest_members(s, i + 1, None, true) {
            Some(b) => b,
            None => None,
        }
    } else {
        None
    }
}

/// The character sequences of an optional string.
pub open spec fn opt_str_view(o: Option<String>) -> Option<Seq<char>> {
    match o {
        Some(v) => Some(v@),
        None => None,
    }
}

/// Skips whitespace from `i`.
fn skip_ws(s: &str, i: usize) -> (r: usize)
    requires
        i <= s@.len(),
    ensures
        r as int == spec_skip_ws(s@, i as int),
        i <= r <= s@.len(),
    decreases s@.len() - i,
{
    let n = s.unicode_len();
    if i < n {
        let c = s.get_char(i);
        if c == ' ' || c == '\n' || c == '\r' || c == '\t' {
            return skip_ws(s, i + 1);
        }
    }
    i
}

/// The value of a hexadecimal digit.
fn hex_val(c: char) -> (r: Option<u32>)
    ensures
        match r {
            Some(v) => spec_hex_val(c) == Some(v as int) && v < 16,
            None => spec_hex_val(c) is None,
        },
{
    let u = c as u32;
    if 48 <= u && u <= 57 {
        Some(u - 48)
    } else if 97 <= u && u <= 102 {
        Some(u - 97 + 10)
    } else if 65 <= u && u <= 70 {
        Some(u - 65 + 10)
    } else {
        None
    }
}

/// Reads four hexadecimal digits at `i`.
fn hex4(s: &str, i: usize) -> (r: Option<u32>)
    requires
        i <= s@.len(),
    ensures
        match r {
            Some(v) => spec_hex4(s@, i as int) == Some(v as int) && v < 0x10000,
            None => spec_hex4(s@, i as int) is None,
        },
{
    let n = s.unicode_len();
    if n - i > 3 {
        match (hex_val(s.get_char(i)), hex_val(s.get_char(i + 1)), hex_val(s.get_char(i + 2)),
            hex_val(s.get_char(i + 3))) {
            (Some(a), Some(b), Some(c), Some(d)) => Some(((a * 16 + b) * 16 + c) * 16 + d),
            _ => None,
        }
    } else {
        None
    }
}

/// Decodes a string literal from `i`, appending to `acc`.
fn parse_string(s: &str, i: usize, acc: String) -> (r: Option<(String, usize)>)
    requires
        i <= s@.len(),
    ensures
        match r {
            Some(p) => spec_parse_string(s@, i as int, acc@) == Some((p.0@, p.1 as int)) && i < p.1
                <= s@.len(),
            None => spec_parse_string(s@, i as int, acc@) is None,
        },
    decreases s@.len() - i,
{
    let n = s.unicode_len();
    if i >= n {
        return None;
    }
    let c = s.get_char(i);
    if c == '"' {
        Some((acc, i + 1))
    } else if c == '\\' {
        if i + 1 >= n {
            None
        } else if s.get_char(i + 1) == 'u' {
            if n - i <= 5 {
                return None;
            }
            match hex4(s, i + 2) {
                Some(code) => {
                    if 0xDC00 <= code && code <= 0xDFFF {
                        None
                    } else if 0xD800 <= code && code <= 0xDBFF {
                        if n - i <= 11 {
                            return None;
                        }
                        if s.get_char(i + 6) == '\\' && s.get_char(i + 7) == 'u' {
                            match hex4(s, i + 8) {
                                Some(code2) => {
                                    if 0xDC00 <= code2 && code2 <= 0xDFFF {
                                        let combined: u32 = 0x10000 + (code - 0xD800) * 0x400 + (
                                        code2 - 0xDC00);
                                        match char::from_u32(combined) {
                                            Some(ch) => {
                                                proof {
                                                    vstd::utf8::char_u32_cast(ch, combined);
                                                }
                                                let mut acc2 = acc;
                                                acc2.push(ch);
                                                parse_string(s, i + 12, acc2)
                                            },
                                            None => {
                                                proof {
                                                    assert(false);
                                                }
                                                None
                                            },
                                        }
                                    } else {
                                        None
                                    }
                                },
                                None => None,
                            }
                        } else {
                            None
                        }
                    } else {
                        match char::from_u32(code) {
                            Some(ch) => {
                                proof {
                                    vstd::utf8::char_u32_cast(ch, code);
                                }
                                let mut acc2 = acc;
                                acc2.push(ch);
                                parse_string(s, i + 6, acc2)
                            },
                            None => {
                                proof {
                                    assert(false);
                                }
                                None
                            },
                        }
                    }
                },
                None => None,
            }
        } else {
            let e = s.get_char(i + 1);
            let decoded: Option<char> = if e == '"' {
                Some('"')
            } else if e == '\\' {
                Some('\\')
            } else if e == '/' {
                Some('/')
            } else if e == 'b' {
                Some('\u{0008}')
            } else if e == 'f' {
                Some('\u{000C}')
            } else if e == 'n' {
                Some('\n')
            } else if e == 'r' {
                Some('\r')
            } else if e == 't' {
                Some('\t')
            } else {
                None
            };
            match decoded {
                Some(d) => {
                    let mut acc2 = acc;
                    acc2.push(d);
                    parse_string(s, i + 2, acc2)
                },
                None => None,
            }
        }
    } else if c != '"' && c != '\\' && (c as u32) >= 0x20 {
        let mut acc2 = acc;
        acc2.push(c);
        parse_string(s, i + 1, acc2)
    } else {
        None
    }
}

/// Scans past a string literal from `i` without decoding it.
fn skip_string(s: &str, i: usize) -> (r: Option<usize>)
    requires
        i <= s@.len(),
    ensures
        match r {
            Some(j) => spec_skip_string(s@, i as int) == Some(j as int) && i < j <= s@.len(),
            None => spec_skip_string(s@, i as int) is None,
        },
    decreases s@.len() - i,
{
    let n = s.unicode_len();
    if i >= n {
        return None;
    }
    let c = s.get_char(i);
    if c == '"' {
        Some(i + 1)
    } else if c == '\\' {
        if i + 1 >= n {
            None
        } else if s.get_char(i + 1) == 'u' {
            if n - i <= 5 {
                return None;
            }
            match hex4(s, i + 2) {
                Some(_) => skip_string(s, i + 6),
                None => None,
            }
        } else {
            let e = s.get_char(i + 1);
            if e == '"' || e == '\\' || e == '/' || e == 'b' || e == 'f' || e == 'n' || e == 'r'
                || e == 't' {
                skip_string(s, i + 2)
            } else {
                None
            }
        }
    } else if c != '"' && c != '\\' && (c as u32) >= 0x20 {
        skip_string(s, i + 1)
    } else {
        None
    }
}

/// Scans past decimal digits from `i`.
fn scan_digits(s: &str, i: usize) -> (r: usize)
    requires
        i <= s@.len(),
    ensures
        r as int == spec_scan_digits(s@, i as int),
        i <= r <= s@.len(),
    decreases s@.len() - i,
{
    let n = s.unicode_len();
    if i < n {
        let u = s.get_char(i) as u32;
        if 48 <= u && u <= 57 {
            return scan_digits(s, i + 1);
        }
    }
    i
}

/// Scans an exponent part whose `e` or `E` stands at `p`.
fn scan_exponent(s: &str, p: usize) -> (r: Option<usize>)
    requires
        p < s@.len(),
    ensures
        match r {
            Some(e) => spec_scan_exponent(s@, p as int) == Some(e as int) && p < e <= s@.len(),
            None => spec_scan_exponent(s@, p as int) is None,
        },
{
    let n = s.unicode_len();
    let q: usize = if p + 1 < n && (s.get_char(p + 1) == '+' || s.get_char(p + 1) == '-') {
        p + 2
    } else {
        p + 1
    };
    if q < n {
        let u = s.get_char(q) as u32;
        if 48 <= u && u <= 57 {
            return Some(scan_digits(s, q));
        }
    }
    None
}

/// Scans what may follow a number's integer part ending at `int_end`.
fn scan_number_tail(s: &str, int_end: usize) -> (r: Option<usize>)
    requires
        int_end <= s@.len(),
    ensures
        match r {
            Some(e) => spec_scan_number_tail(s@, int_end as int) == Some(e as int) && int_end <= e
                <= s@.len(),
            None => spec_scan_number_tail(s@, int_end as int) is None,
        },
{
    let n = s.unicode_len();
    if int_end < n && s.get_char(int_end) == '.' {
        let has_digit = if int_end + 1 < n {
            let u = s.get_char(int_end + 1) as u32;
            48 <= u && u <= 57
        } else {
            false
        };
        if has_digit {
            let frac_end = scan_digits(s, int_end + 1);
            if frac_end < n && (s.get_char(frac_end) == 'e' || s.get_char(frac_end) == 'E') {
                scan_exponent(s, frac_end)
            } else {
                Some(frac_end)
            }
        } else {
            None
        }
    } else if int_end < n && (s.get_char(int_end) == 'e' || s.get_char(int_end) == 'E') {
        scan_exponent(s, int_end)
    } else {
        Some(int_end)
    }
}

/// Scans a number starting at `i`.
fn scan_number(s: &str, i: usize) -> (r: Option<usize>)
    requires
        i <= s@.len(),
    ensures
        match r {
            Some(e) => spec_scan_number(s@, i as int) == Some(e as int) && i < e <= s@.len(),
            None => spec_scan_number(s@, i as int) is None,
        },
{
    let n = s.unicode_len();
    let start: usize = if i < n && s.get_char(i) == '-' {
        i + 1
    } else {
        i
    };
    if start >= n {
        return None;
    }
    let first = s.get_char(start) as u32;
    if !(48 <= first && first <= 57) {
        return None;
    }
    if first == 48 {
        let next_digit = if start + 1 < n {
            let u = s.get_char(start + 1) as u32;
            48 <= u && u <= 57
        } else {
            false
        };
        if next_digit {
            None
        } else {
            scan_number_tail(s, start + 1)
        }
    } else {
        let int_end = scan_digits(s, start + 1);
        assert(spec_scan_digits(s@, start as int) == spec_scan_digits(s@, start as int + 1));
        scan_number_tail(s, int_end)
    }
}

/// Scans one of the keywords `true`, `false` or `null` starting at `i`.
fn scan_keyword(s: &str, i: usize) -> (r: Option<usize>)
    requires
        i <= s@.len(),
    ensures
        match r {
            Some(e) => spec_scan_keyword(s@, i as int) == Some(e as int) && i < e <= s@.len(),
            None => spec_scan_keyword(s@, i as int) is None,
        },
{
    let n = s.unicode_len();
    if n - i >= 4 && s.get_char(i) == 't' && s.get_char(i + 1) == 'r' && s.get_char(i + 2) == 'u'
        && s.get_char(i + 3) == 'e' {
        Some(i + 4)
    } else if n - i >= 5 && s.get_char(i) == 'f' && s.get_char(i + 1) == 'a' && s.get_char(i + 2)
        == 'l' && s.get_char(i + 3) == 's' && s.get_char(i + 4) == 'e' {
        Some(i + 5)
    } else if n - i >= 4 && s.get_char(i) == 'n' && s.get_char(i + 1) == 'u' && s.get_char(i + 2)
        == 'l' && s.get_char(i + 3) == 'l' {
        Some(i + 4)
    } else {
        None
    }
}

/// Scans past one JSON value starting exactly at `i`.
fn skip_value(s: &str, i: usize) -> (r: Option<usize>)
    requires
        i <= s@.len(),
    ensures
        match r {
            Some(e) => spec_skip_value(s@, i as int) == Some(e as int) && i < e <= s@.len(),
            None => spec_skip_value(s@, i as int) is None,
        },
    decreases s@.len() - i, 0int,
{
    let n = s.unicode_len();
    if i >= n {
        return None;
    }
    let c = s.get_char(i);
    let u = c as u32;
    if c == '"' {
        skip_string(s, i + 1)
    } else if c == '-' || (48 <= u && u <= 57) {
        scan_number(s, i)
    } else if c == 't' || c == 'f' || c == 'n' {
        scan_keyword(s, i)
    } else if c == '{' {
        skip_members(s, i + 1, true)
    } else if c == '[' {
        skip_elements(s, i + 1, true)
    } else {
        None
    }
}

/// Scans the members of a skipped object from `i`.
fn skip_members(s: &str, i: usize, first: bool) -> (r: Option<usize>)
    requires
        i <= s@.len(),
    ensures
        match r {
            Some(e) => spec_skip_members(s@, i as int, first) == Some(e as int) && i <= e
                <= s@.len(),
            None => spec_skip_members(s@, i as int, first) is None,
        },
    decreases s@.len() - i, 1int,
{
    let n = s.unicode_len();
    let j = skip_ws(s, i);
    if first && j < n && s.get_char(j) == '}' {
        return Some(j + 1);
    }
    if !(j < n && s.get_char(j) == '"') {
        return None;
    }
    match skip_string(s, j + 1) {
        Some(kend) => {
            let colon = skip_ws(s, kend);
            if !(colon < n && s.get_char(colon) == ':') {
                return None;
            }
            let v = skip_ws(s, colon + 1);
            match skip_value(s, v) {
                Some(vend) => {
                    let k = skip_ws(s, vend);
                    if k < n && s.get_char(k) == ',' {
                        skip_members(s, k + 1, false)
                    } else if k < n && s.get_char(k) == '}' {
                        Some(k + 1)
                    } else {
                        None
                    }
                },
                None => None,
            }
        },
        None => None,
    }
}

/// Scans the elements of a skipped array from `i`.
fn skip_elements(s: &str, i: usize, first: bool) -> (r: Option<usize>)
    requires
        i <= s@.len(),
    ensures
        match r {
            Some(e) => spec_skip_elements(s@, i as int, first) == Some(e as int) && i <= e
                <= s@.len(),
            None => spec_skip_elements(s@, i as int, first) is None,
        },
    decreases s@.len() - i, 1int,
{
    let n = s.unicode_len();
    let j = skip_ws(s, i);
    if first && j < n && s.get_char(j) == ']' {
        return Some(j + 1);
    }
    match skip_value(s, j) {
        Some(vend) => {
            let k = skip_ws(s, vend);
            if k < n && s.get_char(k) == ',' {
                skip_elements(s, k + 1, false)
            } else if k < n && s.get_char(k) == ']' {
                Some(k + 1)
            } else {
                None
            }
        },
        None => None,
    }
}

/// Parses the manifest object's members from `i`, carrying the `"go"`
/// binding seen so far.
fn manifest_members(s: &str, i: usize, go: Option<String>, first: bool) -> (r: Option<
    Option<String>,
>)
    requires
        i <= s@.len(),
    ensures
        match r {
            Some(b) => spec_manifest_members(s@, i as int, opt_str_view(go), first) == Some(
                opt_str_view(b),
            ),
            None => spec_manifest_members(s@, i as int, opt_str_view(go), first) is None,
        },
    decreases s@.len() - i,
{
    let n = s.unicode_len();
    let j = skip_ws(s, i);
    if first && j < n && s.get_char(j) == '}' {
        if skip_ws(s, j + 1) == n {
            return Some(go);
        } else {
            return None;
        }
    }
    if !(j < n && s.get_char(j) == '"') {
        return None;
    }
    match parse_string(s, j + 1, String::new()) {
        Some((key, kend)) => {
            let colon = skip_ws(s, kend);
            if !(colon < n && s.get_char(colon) == ':') {
                return None;
            }
            let v = skip_ws(s, colon + 1);
            if str_eq(key.as_str(), "go") {
                if go.is_some() {
                    return None;
                }
                if !(v < n && s.get_char(v) == '"') {
                    return None;
                }
                match parse_string(s, v + 1, String::new()) {
                    Some((value, vend)) => {
                        let k = skip_ws(s, vend);
                        if k < n && s.get_char(k) == ',' {
                            manifest_members(s, k + 1, Some(value), false)
                        } else if k < n && s.get_char(k) == '}' {
                            if skip_ws(s, k + 1) == n {
                                Some(Some(value))
                            } else {
                                None
                            }
                        } else {
                            None
                        }
                    },
                    None => None,
                }
            } else {
                match skip_value(s, v) {
                    Some(vend) => {
                        let k = skip_ws(s, vend);
                        if k < n && s.get_char(k) == ',' {
                            manifest_members(s, k + 1, go, false)
                        } else if k < n && s.get_char(k) == '}' {
                            if skip_ws(s, k + 1) == n {
                                Some(go)
                            } else {
                                None
                            }
                        } else {
                            None
                        }
                    },
                    None => None,
                }
            }
        },
        None => None,
    }
}

/// Extracts the runtime version a manifest text names, or `None` when the
/// text is not a usable manifest.
pub fn manifest_go(s: &str) -> (r: Option<String>)
    ensures
        opt_str_view(r) == spec_manifest_go(s@),
{
    let n = s.unicode_len();
    let i = skip_ws(s, 0);
    if i < n && s.get_char(i) == '{' {
        match manifest_members(s, i + 1, None, true) {
            Some(b) => b,
            None => None,
        }
    } else {
        None
    }
}

/// The fixed runtime version used when the manifest is absent or unusable.
pub open spec fn spec_fallback_version() -> Seq<char> {
    "1.25.0"@
}

/// The runtime version bootstrapping must stage, from the manifest file's
/// contents: the manifest's `"go"` string, else the fixed fallback.
pub open spec fn spec_runtime_version(contents: Option<Seq<char>>) -> Seq<char> {
    match contents {
        Some(s) => match spec_manifest_go(s) {
            Some(v) => v,
            None => spec_fallback_version(),
        },
        None => spec_fallback_version(),
    }
}

/// Decides the runtime version to stage from the manifest file's contents
/// (`None` when the file is missing or unreadable): never fails, falling
/// back to the fixed default version when the manifest is unusable.
pub fn runtime_version(contents: Option<&str>) -> (r: String)
    ensures
        r@ == spec_runtime_version(
            match contents {
                Some(s) => Some(s@),
                None => None,
            },
        ),
{
    match contents {
        Some(s) => match manifest_go(s) {
            Some(v) => v,
            None => "1.25.0".to_owned(),
        },
        None => "1.25.0".to_owned(),
    }
}

} // verus!
