//! The manifest reader: parses a source launcher's JSON manifest into an
//! instance descriptor.
//!
//! The manifest is a JSON object of the shape
//! `{ "name": string, "baseModLoader": { "name": string, "forgeVersion":
//! string, "minecraftVersion": string } }`; other members may stand beside
//! these and are skipped.  The loader's raw identifier is the `name` field of
//! the nested object, and its version is `forgeVersion` — the manifest reuses
//! that field for Forge and Fabric versions alike, a quirk kept for wire
//! compatibility.  Either the full descriptor is produced or an error is
//! returned, never a partially populated one.
//!
//! The grammar below follows JSON with one documented liberty: number
//! syntax is accepted loosely (a sign and a digit followed by any run of
//! digit, dot, exponent and sign characters).  String escapes are decoded in
//! full, `\u` escapes and surrogate pairs included.

use vstd::prelude::*;

use crate::error::LinkerError;
use crate::instance::{CurseForgeInstance, DescriptorView};
use crate::text::{chars_eq_str, chars_to_string, str_to_chars};

verus! {

/// The fixed file name of the manifest inside each modpack directory.
pub const MANIFEST_FILE_NAME: &'static str = "minecraftinstance.json";

/// JSON insignificant whitespace.
pub open spec fn sp_is_ws(c: char) -> bool {
    c == ' ' || c == '\n' || c == '\r' || c == '\t'
}

/// The first position at or after `i` holding no whitespace.
pub open spec fn sp_skip_ws(s: Seq<char>, i: int) -> int
    decreases s.len() - i,
{
    if 0 <= i < s.len() && sp_is_ws(s[i]) {
        sp_skip_ws(s, i + 1)
    } else {
        i
    }
}

/// The value of one hex digit.
pub open spec fn sp_hex_val(c: char) -> Option<int> {
    let u = c as u32;
    if 48 <= u <= 57 {
        Some(u - 48)
    } else if 97 <= u <= 102 {
        Some(u - 87)
    } else if 65 <= u <= 70 {
        Some(u - 55)
    } else {
        None
    }
}

/// The value of the four hex digits at `i`.
pub open spec fn sp_hex4(s: Seq<char>, i: int) -> Option<int> {
    if 0 <= i && i + 4 <= s.len() {
        match (sp_hex_val(s[i]), sp_hex_val(s[i + 1]), sp_hex_val(s[i + 2]), sp_hex_val(s[i + 3])) {
            (Some(a), Some(b), Some(c), Some(d)) => Some(a * 4096 + b * 256 + c * 16 + d),
            _ => None,
        }
    } else {
        None
    }
}

/// Decodes a `\u` escape whose four hex digits start at `i`: a high
/// surrogate must be followed by a `\u`-escaped low surrogate and the pair
/// combines, a lone surrogate is rejected, anything else is the character of
/// that code point.  Yields the character and the position after the
/// escape's last digit.
pub open spec fn sp_u_escape(s: Seq<char>, i: int) -> Option<(char, int)> {
    match sp_hex4(s, i) {
        None => None,
        Some(hi) => if 0xD800 <= hi < 0xDC00 {
            if i + 6 <= s.len() && s[i + 4] == '\\' && s[i + 5] == 'u' {
                match sp_hex4(s, i + 6) {
                    None => None,
                    Some(lo) => if 0xDC00 <= lo < 0xE000 {
                        Some(
                            (
                                ((0x10000 + (hi - 0xD800) * 0x400 + (lo - 0xDC00)) as u32) as char,
                                i + 10,
                            ),
                        )
                    } else {
                        None
                    },
                }
            } else {
                None
            }
        } else if 0xDC00 <= hi < 0xE000 {
            None
        } else {
            Some(((hi as u32) as char, i + 4))
        },
    }
}

/// Parses the body of a JSON string from `i` (just inside the opening
/// quote), appending the decoded characters to `acc`; yields the decoded
/// content and the position after the closing quote.
pub open spec fn sp_str_body(s: Seq<char>, i: int, acc: Seq<char>) -> Option<(Seq<char>, int)>
    decreases s.len() - i,
{
    if i < 0 || i >= s.len() {
        None
    } else if s[i] == '"' {
        Some((acc, i + 1))
    } else if s[i] == '\\' {
        if i + 1 < s.len() {
            let e = s[i + 1];
            if e == '"' {
                sp_str_body(s, i + 2, acc.push('"'))
            } else if e == '\\' {
                sp_str_body(s, i + 2, acc.push('\\'))
            } else if e == '/' {
                sp_str_body(s, i + 2, acc.push('/'))
            } else if e == 'b' {
                sp_str_body(s, i + 2, acc.push('\u{0008}'))
            } else if e == 'f' {
                sp_str_body(s, i + 2, acc.push('\u{000C}'))
            } else if e == 'n' {
                sp_str_body(s, i + 2, acc.push('\n'))
            } else if e == 'r' {
                sp_str_body(s, i + 2, acc.push('\r'))
            } else if e == 't' {
                sp_str_body(s, i + 2, acc.push('\t'))
            } else if e == 'u' {
                match sp_u_escape(s, i + 2) {
                    Some(p) => if i < p.1 <= s.len() {
                        sp_str_body(s, p.1, acc.push(p.0))
                    } else {
                        None
                    },
                    None => None,
                }
            } else {
                None
            }
        } else {
            None
        }
    } else if (s[i] as u32) < 32 {
        None
    } else {
        sp_str_body(s, i + 1, acc.push(s[i]))
    }
}

/// A decimal digit.
pub open spec fn sp_is_digit(c: char) -> bool {
    48 <= (c as u32) <= 57
}

/// A character that may stand inside a number.
pub open spec fn sp_is_num_char(c: char) -> bool {
    sp_is_digit(c) || c == '.' || c == 'e' || c == 'E' || c == '+' || c == '-'
}

/// The first position at or after `i` holding no number character.
pub open spec fn sp_num_tail(s: Seq<char>, i: int) -> int
    decreases s.len() - i,
{
    if 0 <= i < s.len() && sp_is_num_char(s[i]) {
        sp_num_tail(s, i + 1)
    } else {
        i
    }
}

/// Skips a number starting at `i` (a sign or digit): a sign must be followed
/// by a digit, then any run of number characters is accepted.
pub open spec fn sp_skip_number(s: Seq<char>, i: int) -> Option<int> {
    if i < 0 || i >= s.len() {
        None
    } else {
        let j = if s[i] == '-' {
            i + 1
        } else {
            i
        };
        if j < s.len() && sp_is_digit(s[j]) {
            Some(sp_num_tail(s, j))
        } else {
            None
        }
    }
}

/// Skips the exact word `w` at `i`.
pub open spec fn sp_skip_lit(s: Seq<char>, i: int, w: Seq<char>) -> Option<int> {
    if 0 <= i && i + w.len() <= s.len() && s.subrange(i, i + w.len()) == w {
        Some(i + w.len())
    } else {
        None
    }
}

/// Skips one JSON value starting exactly at `i`; yields the position after
/// it.
pub open spec fn sp_skip_value(s: Seq<char>, i: int) -> Option<int>
    decreases s.len() - i, 0int,
{
    if i < 0 || i >= s.len() {
        None
    } else {
        let c = s[i];
        if c == '"' {
            match sp_str_body(s, i + 1, Seq::<char>::empty()) {
                Some(p) => Some(p.1),
                None => None,
            }
        } else if c == '{' {
            let j = sp_skip_ws(s, i + 1);
            if i < j <= s.len() {
                sp_skip_object(s, j)
            } else {
                None
            }
        } else if c == '[' {
            let j = sp_skip_ws(s, i + 1);
            if i < j <= s.len() {
                sp_skip_array(s, j)
            } else {
                None
            }
        } else if c == 't' {
            sp_skip_lit(s, i, "true"@)
        } else if c == 'f' {
            sp_skip_lit(s, i, "false"@)
        } else if c == 'n' {
            sp_skip_lit(s, i, "null"@)
        } else if c == '-' || sp_is_digit(c) {
            sp_skip_number(s, i)
        } else {
            None
        }
    }
}

/// Skips the members of a JSON object; `i` stands at the first key's quote
/// or at the closing brace.
pub open spec fn sp_skip_object(s: Seq<char>, i: int) -> Option<int>
    decreases s.len() - i, 1int,
{
    if i < 0 || i >= s.len() {
        None
    } else if s[i] == '}' {
        Some(i + 1)
    } else if s[i] == '"' {
        match sp_str_body(s, i + 1, Seq::<char>::empty()) {
            None => None,
            Some(kp) => {
                let k = sp_skip_ws(s, kp.1);
                if 0 <= k < s.len() && s[k] == ':' {
                    let m = sp_skip_ws(s, k + 1);
                    if i < m <= s.len() {
                        match sp_skip_value(s, m) {
                            None => None,
                            Some(e) => {
                                let p = sp_skip_ws(s, e);
                                if 0 <= p < s.len() && s[p] == ',' {
                                    let q = sp_skip_ws(s, p + 1);
                                    if i < q < s.len() && s[q] == '"' {
                                        sp_skip_object(s, q)
                                    } else {
                                        None
                                    }
                                } else if 0 <= p < s.len() && s[p] == '}' {
                                    Some(p + 1)
                                } else {
                                    None
                                }
                            },
                        }
                    } else {
                        None
                    }
                } else {
                    None
                }
            },
        }
    } else {
        None
    }
}

/// Skips the elements of a JSON array; `i` stands at the first element or at
/// the closing bracket.
pub open spec fn sp_skip_array(s: Seq<char>, i: int) -> Option<int>
    decreases s.len() - i, 1int,
{
    if i < 0 || i >= s.len() {
        None
    } else if s[i] == ']' {
        Some(i + 1)
    } else {
        match sp_skip_value(s, i) {
            None => None,
            Some(e) => {
                let p = sp_skip_ws(s, e);
                if 0 <= p < s.len() && s[p] == ',' {
                    let q = sp_skip_ws(s, p + 1);
                    if i < q < s.len() && s[q] != ']' {
                        sp_skip_array(s, q)
                    } else {
                        None
                    }
                } else if 0 <= p < s.len() && s[p] == ']' {
                    Some(p + 1)
                } else {
                    None
                }
            },
        }
    }
}

/// What has been gathered from the nested loader object.
pub struct SpLoaderAcc {
    pub name: Option<Seq<char>>,
    pub forge_version: Option<Seq<char>>,
    pub minecraft_version: Option<Seq<char>>,
}

/// Walks the members of the loader object, gathering its three known string
/// fields and skipping everything else; a repeated field keeps its last
/// value.  `i` stands at the first key's quote or at the closing brace.
pub open spec fn sp_loader_object(s: Seq<char>, i: int, acc: SpLoaderAcc) -> Option<
    (SpLoaderAcc, int),
>
    decreases s.len() - i,
{
    if i < 0 || i >= s.len() {
        None
    } else if s[i] == '}' {
        Some((acc, i + 1))
    } else if s[i] == '"' {
        match sp_str_body(s, i + 1, Seq::<char>::empty()) {
            None => None,
            Some(kp) => {
                let k = sp_skip_ws(s, kp.1);
                if 0 <= k < s.len() && s[k] == ':' {
                    let m = sp_skip_ws(s, k + 1);
                    if i < m <= s.len() {
                        let known = kp.0 == "name"@ || kp.0 == "forgeVersion"@ || kp.0
                            == "minecraftVersion"@;
                        if known {
                            if m < s.len() && s[m] == '"' {
                                match sp_str_body(s, m + 1, Seq::<char>::empty()) {
                                    None => None,
                                    Some(vp) => {
                                        let acc2 = if kp.0 == "name"@ {
                                            SpLoaderAcc { name: Some(vp.0), ..acc }
                                        } else if kp.0 == "forgeVersion"@ {
                                            SpLoaderAcc { forge_version: Some(vp.0), ..acc }
                                        } else {
                                            SpLoaderAcc { minecraft_version: Some(vp.0), ..acc }
                                        };
                                        if i < vp.1 <= s.len() {
                                            sp_loader_rest(s, vp.1, acc2)
                                        } else {
                                            None
                                        }
                                    },
                                }
                            } else {
                                None
                            }
                        } else {
                            match sp_skip_value(s, m) {
                                None => None,
                                Some(e) => if i < e <= s.len() {
                                    sp_loader_rest(s, e, acc)
                                } else {
                                    None
                                },
                            }
                        }
                    } else {
                        None
                    }
                } else {
                    None
                }
            },
        }
    } else {
        None
    }
}

/// After one loader member: either a comma and the next key, or the closing
/// brace.
pub open spec fn sp_loader_rest(s: Seq<char>, i: int, acc: SpLoaderAcc) -> Option<
    (SpLoaderAcc, int),
>
    decreases s.len() - i,
{
    if i < 0 {
        None
    } else {
        let p = sp_skip_ws(s, i);
        if 0 <= p < s.len() && s[p] == ',' {
            let q = sp_skip_ws(s, p + 1);
            if i < q < s.len() && s[q] == '"' {
                sp_loader_object(s, q, acc)
            } else {
                None
            }
        } else if 0 <= p < s.len() && s[p] == '}' {
            Some((acc, p + 1))
        } else {
            None
        }
    }
}

/// What has been gathered from the top-level object.
pub struct SpTopAcc {
    pub name: Option<Seq<char>>,
    pub loader: Option<SpLoaderAcc>,
}

/// Walks the members of the top-level object: `name` must be a string,
/// `baseModLoader` must be an object, anything else is skipped; a repeated
/// field keeps its last value.
pub open spec fn sp_top_object(s: Seq<char>, i: int, acc: SpTopAcc) -> Option<(SpTopAcc, int)>
    decreases s.len() - i,
{
    if i < 0 || i >= s.len() {
        None
    } else if s[i] == '}' {
        Some((acc, i + 1))
    } else if s[i] == '"' {
        match sp_str_body(s, i + 1, Seq::<char>::empty()) {
            None => None,
            Some(kp) => {
                let k = sp_skip_ws(s, kp.1);
                if 0 <= k < s.len() && s[k] == ':' {
                    let m = sp_skip_ws(s, k + 1);
                    if i < m <= s.len() {
                        if kp.0 == "name"@ {
                            if m < s.len() && s[m] == '"' {
                                match sp_str_body(s, m + 1, Seq::<char>::empty()) {
                                    None => None,
                                    Some(vp) => if i < vp.1 <= s.len() {
                                        sp_top_rest(
                                            s,
                                            vp.1,
                                            SpTopAcc { name: Some(vp.0), ..acc },
                                        )
                                    } else {
                                        None
                                    },
                                }
                            } else {
                                None
                            }
                        } else if kp.0 == "baseModLoader"@ {
                            if m < s.len() && s[m] == '{' {
                                let j = sp_skip_ws(s, m + 1);
                                if i < j <= s.len() {
                                    match sp_loader_object(
                                        s,
                                        j,
                                        SpLoaderAcc {
                                            name: None,
                                            forge_version: None,
                                            minecraft_version: None,
                                        },
                                    ) {
                                        None => None,
                                        Some(lp) => if i < lp.1 <= s.len() {
                                            sp_top_rest(
                                                s,
                                                lp.1,
                                                SpTopAcc { loader: Some(lp.0), ..acc },
                                            )
                                        } else {
                                            None
                                        },
                                    }
                                } else {
                                    None
                                }
                            } else {
                                None
                            }
                        } else {
                            match sp_skip_value(s, m) {
                                None => None,
                                Some(e) => if i < e <= s.len() {
                                    sp_top_rest(s, e, acc)
                                } else {
                                    None
                                },
                            }
                        }
                    } else {
                        None
                    }
                } else {
                    None
                }
            },
        }
    } else {
        None
    }
}

/// After one top-level member: either a comma and the next key, or the
/// closing brace.
pub open spec fn sp_top_rest(s: Seq<char>, i: int, acc: SpTopAcc) -> Option<(SpTopAcc, int)>
    decreases s.len() - i,
{
    if i < 0 {
        None
    } else {
        let p = sp_skip_ws(s, i);
        if 0 <= p < s.len() && s[p] == ',' {
            let q = sp_skip_ws(s, p + 1);
            if i < q < s.len() && s[q] == '"' {
                sp_top_object(s, q, acc)
            } else {
                None
            }
        } else if 0 <= p < s.len() && s[p] == '}' {
            Some((acc, p + 1))
        } else {
            None
        }
    }
}

/// What the manifest reader returns on the given text: the descriptor, when
/// the text is one JSON object of the expected shape with all four fields
/// present, and nothing otherwise.
pub open spec fn sp_read_manifest(s: Seq<char>) -> Option<DescriptorView> {
    let i = sp_skip_ws(s, 0);
    if 0 <= i < s.len() && s[i] == '{' {
        let j = sp_skip_ws(s, i + 1);
        if i < j <= s.len() {
            match sp_top_object(s, j, SpTopAcc { name: None, loader: None }) {
                None => None,
                Some(tp) => {
                    let p = sp_skip_ws(s, tp.1);
                    if p == s.len() {
                        match (tp.0.name, tp.0.loader) {
                            (Some(name), Some(l)) => match (
                                l.name,
                                l.forge_version,
                                l.minecraft_version,
                            ) {
                                (Some(ln), Some(fv), Some(mc)) => Some(
                                    DescriptorView {
                                        name: name,
                                        minecraft_version: mc,
                                        loader_name: ln,
                                        loader_version: fv,
                                    },
                                ),
                                _ => None,
                            },
                            _ => None,
                        }
                    } else {
                        None
                    }
                },
            }
        } else {
            None
        }
    } else {
        None
    }
}

/// The view of an optionally gathered field.
spec fn sp_opt_chars(o: Option<Vec<char>>) -> Option<Seq<char>> {
    match o {
        Some(v) => Some(v@),
        None => None,
    }
}

/// How an executable position result corresponds to its specification.
spec fn sp_pos_matches(r: Option<usize>, sp: Option<int>, len: int) -> bool {
    match r {
        Some(j) => sp == Some(j as int) && j <= len,
        None => sp is None,
    }
}

/// How an executable string-body result corresponds to its specification.
spec fn sp_body_matches(
    r: Option<(Vec<char>, usize)>,
    sp: Option<(Seq<char>, int)>,
    len: int,
) -> bool {
    match (r, sp) {
        (Some(p), Some(q)) => q.0 == p.0@ && q.1 == p.1 as int && p.1 <= len,
        (None, None) => true,
        _ => false,
    }
}

/// Relies on `char::from_u32`: a code point converts exactly when it is no
/// surrogate and at most `0x10FFFF`, and the resulting character carries
/// that code point.
pub assume_specification[ char::from_u32 ](v: u32) -> (r: Option<char>)
    ensures
        r is Some <==> (v < 0xD800 || (0xE000 <= v && v <= 0x10FFFF)),
        r matches Some(c) ==> (c as u32) == v,
;

/// The value of one hex digit.
fn hex_val(c: char) -> (r: Option<u32>)
    ensures
        match r {
            Some(x) => sp_hex_val(c) == Some(x as int),
            None => sp_hex_val(c) is None,
        },
{
    let u = c as u32;
    if 48 <= u && u <= 57 {
        Some(u - 48)
    } else if 97 <= u && u <= 102 {
        Some(u - 87)
    } else if 65 <= u && u <= 70 {
        Some(u - 55)
    } else {
        None
    }
}

/// The value of the four hex digits at `i`.
fn hex4(v: &Vec<char>, i: usize) -> (r: Option<u32>)
    requires
        i <= v@.len(),
    ensures
        match r {
            Some(x) => sp_hex4(v@, i as int) == Some(x as int) && x <= 0xFFFF,
            None => sp_hex4(v@, i as int) is None,
        },
{
    if v.len() - i < 4 {
        return None;
    }
    let a = match hex_val(v[i]) {
        Some(x) => x,
        None => {
            return None;
        },
    };
    let b = match hex_val(v[i + 1]) {
        Some(x) => x,
        None => {
            return None;
        },
    };
    let c = match hex_val(v[i + 2]) {
        Some(x) => x,
        None => {
            return None;
        },
    };
    let d = match hex_val(v[i + 3]) {
        Some(x) => x,
        None => {
            return None;
        },
    };
    Some(a * 4096 + b * 256 + c * 16 + d)
}

/// Decodes a `\u` escape whose four hex digits start at `i`.
fn u_escape(v: &Vec<char>, i: usize) -> (r: Option<(char, usize)>)
    requires
        i <= v@.len(),
    ensures
        match r {
            Some(p) => sp_u_escape(v@, i as int) == Some((p.0, p.1 as int)) && i < p.1
                <= v@.len(),
            None => sp_u_escape(v@, i as int) is None,
        },
{
    let n = v.len();
    let hi = match hex4(v, i) {
        Some(x) => x,
        None => {
            return None;
        },
    };
    proof {
        assert(i + 4 <= n);
    }
    if 0xD800 <= hi && hi < 0xDC00 {
        if v.len() - i >= 6 && v[i + 4] == '\\' && v[i + 5] == 'u' {
            let lo = match hex4(v, i + 6) {
                Some(x) => x,
                None => {
                    return None;
                },
            };
            if 0xDC00 <= lo && lo < 0xE000 {
                let code = 0x10000 + (hi - 0xD800) * 0x400 + (lo - 0xDC00);
                match char::from_u32(code) {
                    Some(c) => {
                        proof {
                            vstd::utf8::char_u32_cast(c, code);
                        }
                        Some((c, i + 10))
                    },
                    None => {
                        proof {
                            assert(false);
                        }
                        None
                    },
                }
            } else {
                None
            }
        } else {
            None
        }
    } else if 0xDC00 <= hi && hi < 0xE000 {
        None
    } else {
        match char::from_u32(hi) {
            Some(c) => {
                proof {
                    vstd::utf8::char_u32_cast(c, hi);
                }
                Some((c, i + 4))
            },
            None => {
                proof {
                    assert(false);
                }
                None
            },
        }
    }
}

/// Finds the first non-whitespace position at or after `i`.
fn skip_ws(v: &Vec<char>, i: usize) -> (r: usize)
    requires
        i <= v@.len(),
    ensures
        r as int == sp_skip_ws(v@, i as int),
        i <= r <= v@.len(),
    decreases v@.len() - i,
{
    if i < v.len() {
        let c = v[i];
        if c == ' ' || c == '\n' || c == '\r' || c == '\t' {
            return skip_ws(v, i + 1);
        }
    }
    i
}

/// Parses a JSON string body, appending onto `acc`.
fn str_body(v: &Vec<char>, i: usize, acc: Vec<char>) -> (r: Option<(Vec<char>, usize)>)
    requires
        i <= v@.len(),
    ensures
        sp_body_matches(r, sp_str_body(v@, i as int, acc@), v@.len() as int),
    decreases v@.len() - i,
{
    if i >= v.len() {
        return None;
    }
    let c = v[i];
    let mut acc = acc;
    if c == '"' {
        Some((acc, i + 1))
    } else if c == '\\' {
        if i + 1 < v.len() {
            let e = v[i + 1];
            if e == '"' {
                acc.push('"');
                str_body(v, i + 2, acc)
            } else if e == '\\' {
                acc.push('\\');
                str_body(v, i + 2, acc)
            } else if e == '/' {
                acc.push('/');
                str_body(v, i + 2, acc)
            } else if e == 'b' {
                acc.push('\u{0008}');
                str_body(v, i + 2, acc)
            } else if e == 'f' {
                acc.push('\u{000C}');
                str_body(v, i + 2, acc)
            } else if e == 'n' {
                acc.push('\n');
                str_body(v, i + 2, acc)
            } else if e == 'r' {
                acc.push('\r');
                str_body(v, i + 2, acc)
            } else if e == 't' {
                acc.push('\t');
                str_body(v, i + 2, acc)
            } else if e == 'u' {
                match u_escape(v, i + 2) {
                    Some(p) => {
                        acc.push(p.0);
                        str_body(v, p.1, acc)
                    },
                    None => None,
                }
            } else {
                None
            }
        } else {
            None
        }
    } else if (c as u32) < 32 {
        None
    } else {
        acc.push(c);
        str_body(v, i + 1, acc)
    }
}

/// Finds the first position at or after `i` holding no number character.
fn num_tail(v: &Vec<char>, i: usize) -> (r: usize)
    requires
        i <= v@.len(),
    ensures
        r as int == sp_num_tail(v@, i as int),
        i <= r <= v@.len(),
    decreases v@.len() - i,
{
    if i < v.len() {
        let c = v[i];
        if ((c as u32) >= 48 && (c as u32) <= 57) || c == '.' || c == 'e' || c == 'E' || c == '+'
            || c == '-' {
            return num_tail(v, i + 1);
        }
    }
    i
}

/// Skips a number starting at `i`.
fn skip_number(v: &Vec<char>, i: usize) -> (r: Option<usize>)
    requires
        i <= v@.len(),
    ensures
        sp_pos_matches(r, sp_skip_number(v@, i as int), v@.len() as int),
{
    if i >= v.len() {
        return None;
    }
    let j = if v[i] == '-' {
        i + 1
    } else {
        i
    };
    if j < v.len() && (v[j] as u32) >= 48 && (v[j] as u32) <= 57 {
        Some(num_tail(v, j))
    } else {
        None
    }
}

/// Skips the exact word `w` at `i`.
fn skip_lit(v: &Vec<char>, i: usize, w: &str) -> (r: Option<usize>)
    requires
        i <= v@.len(),
    ensures
        sp_pos_matches(r, sp_skip_lit(v@, i as int, w@), v@.len() as int),
{
    let n = w.unicode_len();
    if n > v.len() - i {
        proof {
            assert(i + w@.len() > v@.len());
        }
        return None;
    }
    let vlen = v.len();
    let mut k: usize = 0;
    while k < n
        invariant
            k <= n,
            n == w@.len(),
            i + n <= vlen,
            vlen == v@.len(),
            forall|t: int| 0 <= t < k ==> v@[i + t] == w@[t],
        decreases n - k,
    {
        if v[i + k] != w.get_char(k) {
            proof {
                assert(v@.subrange(i as int, i + w@.len())[k as int] != w@[k as int]);
            }
            return None;
        }
        k += 1;
    }
    proof {
        assert(v@.subrange(i as int, i + w@.len()) =~= w@);
    }
    Some(i + n)
}

/// Skips one JSON value starting exactly at `i`.
fn skip_value(v: &Vec<char>, i: usize) -> (r: Option<usize>)
    requires
        i <= v@.len(),
    ensures
        sp_pos_matches(r, sp_skip_value(v@, i as int), v@.len() as int),
    decreases v@.len() - i, 0int,
{
    if i >= v.len() {
        return None;
    }
    let c = v[i];
    if c == '"' {
        match str_body(v, i + 1, Vec::new()) {
            Some(p) => Some(p.1),
            None => None,
        }
    } else if c == '{' {
        let j = skip_ws(v, i + 1);
        skip_object(v, j)
    } else if c == '[' {
        let j = skip_ws(v, i + 1);
        skip_array(v, j)
    } else if c == 't' {
        skip_lit(v, i, "true")
    } else if c == 'f' {
        skip_lit(v, i, "false")
    } else if c == 'n' {
        skip_lit(v, i, "null")
    } else if c == '-' || ((c as u32) >= 48 && (c as u32) <= 57) {
        skip_number(v, i)
    } else {
        None
    }
}

/// Skips the members of a JSON object from the first key or closing brace.
fn skip_object(v: &Vec<char>, i: usize) -> (r: Option<usize>)
    requires
        i <= v@.len(),
    ensures
        sp_pos_matches(r, sp_skip_object(v@, i as int), v@.len() as int),
    decreases v@.len() - i, 1int,
{
    if i >= v.len() {
        return None;
    }
    if v[i] == '}' {
        return Some(i + 1);
    }
    if v[i] != '"' {
        return None;
    }
    let kp = match str_body(v, i + 1, Vec::new()) {
        Some(kp) => kp,
        None => {
            return None;
        },
    };
    let k = skip_ws(v, kp.1);
    if !(k < v.len() && v[k] == ':') {
        return None;
    }
    let m = skip_ws(v, k + 1);
    if !(i < m) {
        return None;
    }
    let e = match skip_value(v, m) {
        Some(e) => e,
        None => {
            return None;
        },
    };
    let p = skip_ws(v, e);
    if p < v.len() && v[p] == ',' {
        let q = skip_ws(v, p + 1);
        if i < q && q < v.len() && v[q] == '"' {
            skip_object(v, q)
        } else {
            None
        }
    } else if p < v.len() && v[p] == '}' {
        Some(p + 1)
    } else {
        None
    }
}

/// Skips the elements of a JSON array from the first element or closing
/// bracket.
fn skip_array(v: &Vec<char>, i: usize) -> (r: Option<usize>)
    requires
        i <= v@.len(),
    ensures
        sp_pos_matches(r, sp_skip_array(v@, i as int), v@.len() as int),
    decreases v@.len() - i, 1int,
{
    if i >= v.len() {
        return None;
    }
    if v[i] == ']' {
        return Some(i + 1);
    }
    let e = match skip_value(v, i) {
        Some(e) => e,
        None => {
            return None;
        },
    };
    let p = skip_ws(v, e);
    if p < v.len() && v[p] == ',' {
        let q = skip_ws(v, p + 1);
        if i < q && q < v.len() && v[q] != ']' {
            skip_array(v, q)
        } else {
            None
        }
    } else if p < v.len() && v[p] == ']' {
        Some(p + 1)
    } else {
        None
    }
}

/// The fields gathered so far from the loader object.
struct LoaderAcc {
    name: Option<Vec<char>>,
    forge_version: Option<Vec<char>>,
    minecraft_version: Option<Vec<char>>,
}

/// The mathematical value of a [`LoaderAcc`].
spec fn sp_loader_acc(a: LoaderAcc) -> SpLoaderAcc {
    SpLoaderAcc {
        name: sp_opt_chars(a.name),
        forge_version: sp_opt_chars(a.forge_version),
        minecraft_version: sp_opt_chars(a.minecraft_version),
    }
}

/// How an executable loader-object result corresponds to its specification.
spec fn sp_loader_matches(
    r: Option<(SpLoaderAcc, int)>,
    sp: Option<(SpLoaderAcc, int)>,
    len: int,
) -> bool {
    match (r, sp) {
        (Some(p), Some(q)) => q == p && p.1 <= len,
        (None, None) => true,
        _ => false,
    }
}

/// The view of an executable loader-object result.
spec fn sp_loader_result(r: Option<(LoaderAcc, usize)>) -> Option<(SpLoaderAcc, int)> {
    match r {
        Some(p) => Some((sp_loader_acc(p.0), p.1 as int)),
        None => None,
    }
}

/// Walks the loader object's members, gathering the three known fields.
fn loader_object(v: &Vec<char>, i: usize, acc: LoaderAcc) -> (r: Option<(LoaderAcc, usize)>)
    requires
        i <= v@.len(),
    ensures
        sp_loader_matches(
            sp_loader_result(r),
            sp_loader_object(v@, i as int, sp_loader_acc(acc)),
            v@.len() as int,
        ),
    decreases v@.len() - i,
{
    if i >= v.len() {
        return None;
    }
    if v[i] == '}' {
        return Some((acc, i + 1));
    }
    if v[i] != '"' {
        return None;
    }
    let kp = match str_body(v, i + 1, Vec::new()) {
        Some(kp) => kp,
        None => {
            return None;
        },
    };
    let k = skip_ws(v, kp.1);
    if !(k < v.len() && v[k] == ':') {
        return None;
    }
    let m = skip_ws(v, k + 1);
    if !(i < m) {
        return None;
    }
    let is_name = chars_eq_str(&kp.0, "name");
    let is_forge_version = chars_eq_str(&kp.0, "forgeVersion");
    let is_minecraft_version = chars_eq_str(&kp.0, "minecraftVersion");
    if is_name || is_forge_version || is_minecraft_version {
        if m < v.len() && v[m] == '"' {
            let vp = match str_body(v, m + 1, Vec::new()) {
                Some(vp) => vp,
                None => {
                    return None;
                },
            };
            let acc2 = if is_name {
                LoaderAcc { name: Some(vp.0), ..acc }
            } else if is_forge_version {
                LoaderAcc { forge_version: Some(vp.0), ..acc }
            } else {
                LoaderAcc { minecraft_version: Some(vp.0), ..acc }
            };
            if i < vp.1 {
                loader_rest(v, vp.1, acc2)
            } else {
                None
            }
        } else {
            None
        }
    } else {
        let e = match skip_value(v, m) {
            Some(e) => e,
            None => {
                return None;
            },
        };
        if i < e {
            loader_rest(v, e, acc)
        } else {
            None
        }
    }
}

/// After one loader member: a comma and the next key, or the closing brace.
fn loader_rest(v: &Vec<char>, i: usize, acc: LoaderAcc) -> (r: Option<(LoaderAcc, usize)>)
    requires
        i <= v@.len(),
    ensures
        sp_loader_matches(
            sp_loader_result(r),
            sp_loader_rest(v@, i as int, sp_loader_acc(acc)),
            v@.len() as int,
        ),
    decreases v@.len() - i,
{
    let p = skip_ws(v, i);
    if p < v.len() && v[p] == ',' {
        let q = skip_ws(v, p + 1);
        if i < q && q < v.len() && v[q] == '"' {
            loader_object(v, q, acc)
        } else {
            None
        }
    } else if p < v.len() && v[p] == '}' {
        Some((acc, p + 1))
    } else {
        None
    }
}

/// The fields gathered so far from the top-level object.
struct TopAcc {
    name: Option<Vec<char>>,
    loader: Option<LoaderAcc>,
}

/// The mathematical value of a [`TopAcc`].
spec fn sp_top_acc(a: TopAcc) -> SpTopAcc {
    SpTopAcc {
        name: sp_opt_chars(a.name),
        loader: match a.loader {
            Some(l) => Some(sp_loader_acc(l)),
            None => None,
        },
    }
}

/// How an executable top-object result corresponds to its specification.
spec fn sp_top_matches(
    r: Option<(SpTopAcc, int)>,
    sp: Option<(SpTopAcc, int)>,
    len: int,
) -> bool {
    match (r, sp) {
        (Some(p), Some(q)) => q == p && p.1 <= len,
        (None, None) => true,
        _ => false,
    }
}

/// The view of an executable top-object result.
spec fn sp_top_result(r: Option<(TopAcc, usize)>) -> Option<(SpTopAcc, int)> {
    match r {
        Some(p) => Some((sp_top_acc(p.0), p.1 as int)),
        None => None,
    }
}

/// Walks the top-level object's members.
fn top_object(v: &Vec<char>, i: usize, acc: TopAcc) -> (r: Option<(TopAcc, usize)>)
    requires
        i <= v@.len(),
    ensures
        sp_top_matches(sp_top_result(r), sp_top_object(v@, i as int, sp_top_acc(acc)), v@.len() as int),
    decreases v@.len() - i,
{
    if i >= v.len() {
        return None;
    }
    if v[i] == '}' {
        return Some((acc, i + 1));
    }
    if v[i] != '"' {
        return None;
    }
    let kp = match str_body(v, i + 1, Vec::new()) {
        Some(kp) => kp,
        None => {
            return None;
        },
    };
    let k = skip_ws(v, kp.1);
    if !(k < v.len() && v[k] == ':') {
        return None;
    }
    let m = skip_ws(v, k + 1);
    if !(i < m) {
        return None;
    }
    if chars_eq_str(&kp.0, "name") {
        if m < v.len() && v[m] == '"' {
            let vp = match str_body(v, m + 1, Vec::new()) {
                Some(vp) => vp,
                None => {
                    return None;
                },
            };
            if i < vp.1 {
                top_rest(v, vp.1, TopAcc { name: Some(vp.0), ..acc })
            } else {
                None
            }
        } else {
            None
        }
    } else if chars_eq_str(&kp.0, "baseModLoader") {
        if m < v.len() && v[m] == '{' {
            let j = skip_ws(v, m + 1);
            let lp = match loader_object(
                v,
                j,
                LoaderAcc { name: None, forge_version: None, minecraft_version: None },
            ) {
                Some(lp) => lp,
                None => {
                    return None;
                },
            };
            if i < lp.1 {
                top_rest(v, lp.1, TopAcc { loader: Some(lp.0), ..acc })
            } else {
                None
            }
        } else {
            None
        }
    } else {
        let e = match skip_value(v, m) {
            Some(e) => e,
            None => {
                return None;
            },
        };
        if i < e {
            top_rest(v, e, acc)
        } else {
            None
        }
    }
}

/// After one top-level member: a comma and the next key, or the closing
/// brace.
fn top_rest(v: &Vec<char>, i: usize, acc: TopAcc) -> (r: Option<(TopAcc, usize)>)
    requires
        i <= v@.len(),
    ensures
        sp_top_matches(sp_top_result(r), sp_top_rest(v@, i as int, sp_top_acc(acc)), v@.len() as int),
    decreases v@.len() - i,
{
    let p = skip_ws(v, i);
    if p < v.len() && v[p] == ',' {
        let q = skip_ws(v, p + 1);
        if i < q && q < v.len() && v[q] == '"' {
            top_object(v, q, acc)
        } else {
            None
        }
    } else if p < v.len() && v[p] == '}' {
        Some((acc, p + 1))
    } else {
        None
    }
}

/// Reads a manifest's text into an instance descriptor.
///
/// Returns the descriptor exactly when [`sp_read_manifest`] yields one of
/// the text, and `ParseError` otherwise; there is no partial success.
pub fn read_manifest(text: &str) -> (r: Result<CurseForgeInstance, LinkerError>)
    ensures
        match r {
            Ok(d) => sp_read_manifest(text@) == Some(d@),
            Err(e) => sp_read_manifest(text@) is None && e == LinkerError::ParseError,
        },
{
    let v = str_to_chars(text);
    let i = skip_ws(&v, 0);
    if !(i < v.len() && v[i] == '{') {
        return Err(LinkerError::ParseError);
    }
    let j = skip_ws(&v, i + 1);
    let tp = match top_object(&v, j, TopAcc { name: None, loader: None }) {
        Some(tp) => tp,
        None => {
            return Err(LinkerError::ParseError);
        },
    };
    let p = skip_ws(&v, tp.1);
    if p != v.len() {
        return Err(LinkerError::ParseError);
    }
    let acc = tp.0;
    let name = match acc.name {
        Some(n) => n,
        None => {
            return Err(LinkerError::ParseError);
        },
    };
    let loader = match acc.loader {
        Some(l) => l,
        None => {
            return Err(LinkerError::ParseError);
        },
    };
    let loader_name = match loader.name {
        Some(n) => n,
        None => {
            return Err(LinkerError::ParseError);
        },
    };
    let forge_version = match loader.forge_version {
        Some(n) => n,
        None => {
            return Err(LinkerError::ParseError);
        },
    };
    let minecraft_version = match loader.minecraft_version {
        Some(n) => n,
        None => {
            return Err(LinkerError::ParseError);
        },
    };
    Ok(
        CurseForgeInstance {
            name: chars_to_string(&name),
            minecraft_version: chars_to_string(&minecraft_version),
            loader_name: chars_to_string(&loader_name),
            loader_version: chars_to_string(&forge_version),
        },
    )
}

} // verus!
