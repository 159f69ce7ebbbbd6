//! The launcher-directory settings and their line-based text form.
//!
//! The text holds one `key = value` pair per line, keys `mmc`, `cf` and
//! `ftb`.  Reading is lenient: a line splits at its first `=`, key and value
//! are trimmed of blanks and carriage returns, unknown keys and lines
//! without `=` are skipped, and a repeated key keeps its last value.

use vstd::prelude::*;

use crate::text::{chars_range_eq_str, chars_sub, chars_to_string, str_to_chars};

verus! {

/// The mathematical value of a [`Settings`].
pub struct SettingsView {
    pub mmc_path: Seq<char>,
    pub cf_path: Seq<char>,
    pub ftb_path: Seq<char>,
}

/// The three launcher directories the application remembers: the
/// destination launcher root, the source launcher root, and the FTB root.
#[derive(Debug, PartialEq, Eq)]
pub struct Settings {
    /// The destination (MultiMC-style) instances root.
    pub mmc_path: String,
    /// The source (CurseForge-style) instances root.
    pub cf_path: String,
    /// The FTB instances root.
    pub ftb_path: String,
}

impl View for Settings {
    type V = SettingsView;

    open spec fn view(&self) -> SettingsView {
        SettingsView {
            mmc_path: self.mmc_path@,
            cf_path: self.cf_path@,
            ftb_path: self.ftb_path@,
        }
    }
}

impl Clone for Settings {
    fn clone(&self) -> (r: Self)
        ensures
            r@ == self@,
    {
        Settings {
            mmc_path: self.mmc_path.clone(),
            cf_path: self.cf_path.clone(),
            ftb_path: self.ftb_path.clone(),
        }
    }
}

impl Default for Settings {
    /// Settings with every directory unset.
    fn default() -> (r: Self)
        ensures
            r@.mmc_path == Seq::<char>::empty(),
            r@.cf_path == Seq::<char>::empty(),
            r@.ftb_path == Seq::<char>::empty(),
    {
        Settings { mmc_path: String::new(), cf_path: String::new(), ftb_path: String::new() }
    }
}

/// The text form of the settings.
pub open spec fn sp_settings_text(s: SettingsView) -> Seq<char> {
    "mmc = "@ + s.mmc_path + "\n"@ + "cf = "@ + s.cf_path + "\n"@ + "ftb = "@ + s.ftb_path + "\n"@
}

/// A blank that trimming removes.
pub open spec fn sp_is_blank(c: char) -> bool {
    c == ' ' || c == '\t' || c == '\r'
}

/// The first position in `[i, j)` holding a non-blank, or `j`.
pub open spec fn sp_skip_blank(s: Seq<char>, i: int, j: int) -> int
    decreases j - i,
{
    if 0 <= i < j && i < s.len() && sp_is_blank(s[i]) {
        sp_skip_blank(s, i + 1, j)
    } else {
        i
    }
}

/// The position after the last non-blank in `[i, j)`, or `i`.
pub open spec fn sp_rskip_blank(s: Seq<char>, i: int, j: int) -> int
    decreases j - i,
{
    if 0 <= i < j && j <= s.len() && sp_is_blank(s[j - 1]) {
        sp_rskip_blank(s, i, j - 1)
    } else {
        j
    }
}

/// The trimmed content of the region `[i, j)`: the subrange between its
/// first and last non-blank characters, or empty when it holds only blanks.
pub open spec fn sp_trimmed(s: Seq<char>, i: int, j: int) -> Seq<char> {
    let a = sp_skip_blank(s, i, j);
    let b = sp_rskip_blank(s, a, j);
    if 0 <= a <= b <= s.len() {
        s.subrange(a, b)
    } else {
        Seq::<char>::empty()
    }
}

/// The first position of `c` in `[i, j)`.
pub open spec fn sp_find_in(s: Seq<char>, c: char, i: int, j: int) -> Option<int>
    decreases j - i,
{
    if i < 0 || i >= j || i >= s.len() {
        None
    } else if s[i] == c {
        Some(i)
    } else {
        sp_find_in(s, c, i + 1, j)
    }
}

/// What one line of the region `[i, j)` does to the settings: the part
/// before the first `=` names the key, the part after it is the value, both
/// trimmed; a known key is set, anything else is skipped.
pub open spec fn sp_apply_line(s: Seq<char>, i: int, j: int, acc: SettingsView) -> SettingsView {
    match sp_find_in(s, '=', i, j) {
        None => acc,
        Some(k) => {
            let key = sp_trimmed(s, i, k);
            let value = sp_trimmed(s, k + 1, j);
            if key == "mmc"@ {
                SettingsView { mmc_path: value, ..acc }
            } else if key == "cf"@ {
                SettingsView { cf_path: value, ..acc }
            } else if key == "ftb"@ {
                SettingsView { ftb_path: value, ..acc }
            } else {
                acc
            }
        },
    }
}

/// Folds the newline-separated lines of `s` from `i` on into the settings.
pub open spec fn sp_read_lines(s: Seq<char>, i: int, acc: SettingsView) -> SettingsView
    decreases s.len() - i,
{
    if i < 0 || i >= s.len() {
        acc
    } else {
        match sp_find_in(s, '\n', i, s.len() as int) {
            None => sp_apply_line(s, i, s.len() as int, acc),
            Some(j) => if i <= j < s.len() {
                sp_read_lines(s, j + 1, sp_apply_line(s, i, j, acc))
            } else {
                acc
            },
        }
    }
}

/// What reading settings text yields: every line folded into the defaults.
pub open spec fn sp_read_settings(s: Seq<char>) -> SettingsView {
    sp_read_lines(
        s,
        0,
        SettingsView {
            mmc_path: Seq::<char>::empty(),
            cf_path: Seq::<char>::empty(),
            ftb_path: Seq::<char>::empty(),
        },
    )
}

/// Finds the first position of `c` in `[i, j)` of `v`.
fn find_in(v: &Vec<char>, c: char, i: usize, j: usize) -> (r: Option<usize>)
    requires
        j <= v@.len(),
    ensures
        match r {
            Some(k) => i <= k < j && Some(k as int) == sp_find_in(v@, c, i as int, j as int),
            None => sp_find_in(v@, c, i as int, j as int) is None,
        },
    decreases j - i,
{
    if i >= j {
        None
    } else if v[i] == c {
        Some(i)
    } else {
        find_in(v, c, i + 1, j)
    }
}

/// Finds the first non-blank position in `[i, j)`, or `j`.
fn skip_blank(v: &Vec<char>, i: usize, j: usize) -> (r: usize)
    requires
        i <= j <= v@.len(),
    ensures
        r as int == sp_skip_blank(v@, i as int, j as int),
        i <= r <= j,
    decreases j - i,
{
    if i < j {
        let c = v[i];
        if c == ' ' || c == '\t' || c == '\r' {
            return skip_blank(v, i + 1, j);
        }
    }
    i
}

/// Finds the position after the last non-blank in `[i, j)`, or `i`.
fn rskip_blank(v: &Vec<char>, i: usize, j: usize) -> (r: usize)
    requires
        i <= j <= v@.len(),
    ensures
        r as int == sp_rskip_blank(v@, i as int, j as int),
        i <= r <= j,
    decreases j - i,
{
    if i < j {
        let c = v[j - 1];
        if c == ' ' || c == '\t' || c == '\r' {
            return rskip_blank(v, i, j - 1);
        }
    }
    j
}

/// The trimmed bounds of the region `[i, j)`.
fn trim_bounds(v: &Vec<char>, i: usize, j: usize) -> (r: (usize, usize))
    requires
        i <= j <= v@.len(),
    ensures
        r.0 <= r.1 <= v@.len(),
        v@.subrange(r.0 as int, r.1 as int) == sp_trimmed(v@, i as int, j as int),
    decreases j - i,
{
    let a = skip_blank(v, i, j);
    let b = rskip_blank(v, a, j);
    (a, b)
}

impl Settings {
    /// Renders the settings as their line-based text.
    pub fn write_to(&self) -> (r: String)
        ensures
            r@ == sp_settings_text(self@),
    {
        let mut out = String::from_str("mmc = ");
        out.append(self.mmc_path.as_str());
        out.append("\n");
        out.append("cf = ");
        out.append(self.cf_path.as_str());
        out.append("\n");
        out.append("ftb = ");
        out.append(self.ftb_path.as_str());
        out.append("\n");
        proof {
            assert(out@ =~= sp_settings_text(self@));
        }
        out
    }

    /// Reads settings from their line-based text; unknown keys and
    /// malformed lines are skipped and missing keys keep their default.
    pub fn read_from(text: &str) -> (r: Settings)
        ensures
            r@ == sp_read_settings(text@),
    {
        let v = str_to_chars(text);
        let mut acc = Settings::default();
        proof {
            assert(acc@ == SettingsView {
                mmc_path: Seq::<char>::empty(),
                cf_path: Seq::<char>::empty(),
                ftb_path: Seq::<char>::empty(),
            });
        }
        let r = Settings::read_lines(&v, 0, acc);
        r
    }

    /// Folds the lines of `v` from `i` on into `acc`.
    fn read_lines(v: &Vec<char>, i: usize, acc: Settings) -> (r: Settings)
        requires
            i <= v@.len(),
        ensures
            r@ == sp_read_lines(v@, i as int, acc@),
        decreases v@.len() - i,
    {
        if i >= v.len() {
            return acc;
        }
        match find_in(v, '\n', i, v.len()) {
            None => Settings::apply_line(v, i, v.len(), acc),
            Some(j) => {
                let acc2 = Settings::apply_line(v, i, j, acc);
                Settings::read_lines(v, j + 1, acc2)
            },
        }
    }

    /// Folds one line, the region `[i, j)`, into `acc`.
    fn apply_line(v: &Vec<char>, i: usize, j: usize, acc: Settings) -> (r: Settings)
        requires
            i <= j <= v@.len(),
        ensures
            r@ == sp_apply_line(v@, i as int, j as int, acc@),
    {
        let k = match find_in(v, '=', i, j) {
            None => {
                return acc;
            },
            Some(k) => k,
        };
        let key = trim_bounds(v, i, k);
        let val = trim_bounds(v, k + 1, j);
        let value_chars = chars_sub(v, val.0, val.1);
        if chars_range_eq_str(v, key.0, key.1, "mmc") {
            Settings { mmc_path: chars_to_string(&value_chars), ..acc }
        } else if chars_range_eq_str(v, key.0, key.1, "cf") {
            Settings { cf_path: chars_to_string(&value_chars), ..acc }
        } else if chars_range_eq_str(v, key.0, key.1, "ftb") {
            Settings { ftb_path: chars_to_string(&value_chars), ..acc }
        } else {
            acc
        }
    }
}

} // verus!
