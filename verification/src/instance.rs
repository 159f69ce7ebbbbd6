//! The parsed instance descriptor and the mod-loader classifier.

use vstd::prelude::*;

use crate::text::{chars_range_eq_str, chars_sub, chars_to_string, str_to_chars};

verus! {

/// The mathematical value of a [`CurseForgeInstance`].
pub struct DescriptorView {
    pub name: Seq<char>,
    pub minecraft_version: Seq<char>,
    pub loader_name: Seq<char>,
    pub loader_version: Seq<char>,
}

/// An instance descriptor parsed from a source launcher's manifest: the
/// instance name, the Minecraft version, and the mod loader's raw identifier
/// together with its explicit version field.
#[derive(Debug, PartialEq, Eq)]
pub struct CurseForgeInstance {
    /// The instance name; it becomes the destination directory's name.
    pub name: String,
    /// The Minecraft version the modpack runs on.
    pub minecraft_version: String,
    /// The raw loader identifier, e.g. `forge-36.2.0`.
    pub loader_name: String,
    /// The loader version as the manifest states it explicitly.
    pub loader_version: String,
}

impl View for CurseForgeInstance {
    type V = DescriptorView;

    open spec fn view(&self) -> DescriptorView {
        DescriptorView {
            name: self.name@,
            minecraft_version: self.minecraft_version@,
            loader_name: self.loader_name@,
            loader_version: self.loader_version@,
        }
    }
}

impl Clone for CurseForgeInstance {
    fn clone(&self) -> (r: Self)
        ensures
            r@ == self@,
    {
        CurseForgeInstance {
            name: self.name.clone(),
            minecraft_version: self.minecraft_version.clone(),
            loader_name: self.loader_name.clone(),
            loader_version: self.loader_version.clone(),
        }
    }
}

/// The mathematical value of a [`LoaderClassification`].
pub enum LoaderClass {
    Forge(Seq<char>),
    Fabric(Seq<char>),
    Unknown,
}

/// The mod-loader family derived from the raw loader identifier, tagged with
/// the loader version.
#[derive(Debug, PartialEq, Eq)]
pub enum LoaderClassification {
    Forge(String),
    Fabric(String),
    Unknown,
}

impl View for LoaderClassification {
    type V = LoaderClass;

    open spec fn view(&self) -> LoaderClass {
        match self {
            LoaderClassification::Forge(v) => LoaderClass::Forge(v@),
            LoaderClassification::Fabric(v) => LoaderClass::Fabric(v@),
            LoaderClassification::Unknown => LoaderClass::Unknown,
        }
    }
}

/// The position of the first occurrence of `c` in `s` at or after `i`.
pub open spec fn sp_find_char(s: Seq<char>, c: char, i: int) -> Option<int>
    decreases s.len() - i,
{
    if i < 0 || i >= s.len() {
        None
    } else if s[i] == c {
        Some(i)
    } else {
        sp_find_char(s, c, i + 1)
    }
}

/// The loader version the classifier tags the family with: the manifest's
/// explicit version field when it is non-empty, otherwise the part of the raw
/// identifier after its first `-`.
pub open spec fn sp_loader_version(raw: Seq<char>, hint: Seq<char>, dash: int) -> Seq<char> {
    if hint.len() > 0 {
        hint
    } else {
        raw.subrange(dash + 1, raw.len() as int)
    }
}

/// What [`classify`] returns: the raw identifier is split on its first `-`;
/// the prefix is matched case-sensitively against `forge` and `fabric`;
/// anything else, including a missing separator, is `Unknown`.
pub open spec fn sp_classify(raw: Seq<char>, hint: Seq<char>) -> LoaderClass {
    match sp_find_char(raw, '-', 0) {
        None => LoaderClass::Unknown,
        Some(k) => if raw.subrange(0, k) == "forge"@ {
            LoaderClass::Forge(sp_loader_version(raw, hint, k))
        } else if raw.subrange(0, k) == "fabric"@ {
            LoaderClass::Fabric(sp_loader_version(raw, hint, k))
        } else {
            LoaderClass::Unknown
        },
    }
}

/// Finds the first occurrence of `c` in `v` at or after `i`.
pub(crate) fn find_char(v: &Vec<char>, c: char, i: usize) -> (r: Option<usize>)
    requires
        i <= v@.len(),
    ensures
        match r {
            Some(k) => i <= k < v@.len() && Some(k as int) == sp_find_char(v@, c, i as int),
            None => sp_find_char(v@, c, i as int) is None,
        },
    decreases v@.len() - i,
{
    if i >= v.len() {
        None
    } else if v[i] == c {
        Some(i)
    } else {
        find_char(v, c, i + 1)
    }
}

/// Determines the mod-loader family and version from the raw loader
/// identifier and the manifest's explicit version field.
///
/// A manifest that reports a forge-style identifier while actually requiring
/// Fabric classifies as `Forge`; that ambiguity comes from the manifest data
/// itself and is surfaced to the caller rather than guessed around.
pub fn classify(raw: &str, version_hint: &str) -> (r: LoaderClassification)
    ensures
        r@ == sp_classify(raw@, version_hint@),
{
    let v = str_to_chars(raw);
    match find_char(&v, '-', 0) {
        None => LoaderClassification::Unknown,
        Some(k) => {
            let version: String = if version_hint.unicode_len() > 0 {
                String::from_str(version_hint)
            } else {
                let n = v.len();
                let tail = chars_sub(&v, k + 1, n);
                chars_to_string(&tail)
            };
            if chars_range_eq_str(&v, 0, k, "forge") {
                LoaderClassification::Forge(version)
            } else if chars_range_eq_str(&v, 0, k, "fabric") {
                LoaderClassification::Fabric(version)
            } else {
                LoaderClassification::Unknown
            }
        },
    }
}

/// A name may stand as a child directory of the destination root only if it
/// is a single, well-behaved path segment: non-empty, free of separators and
/// control characters, and not a dot-name.  This keeps a hostile manifest
/// from escaping the destination root.
pub open spec fn sp_valid_name(name: Seq<char>) -> bool {
    &&& name.len() > 0
    &&& forall|i: int|
        0 <= i < name.len() ==> name[i] != '/' && name[i] != '\\' && (name[i] as u32) >= 32
    &&& name != "."@
    &&& name != ".."@
}

/// Checks that `name` is acceptable as a destination directory name.
pub fn valid_name(name: &str) -> (r: bool)
    ensures
        r == sp_valid_name(name@),
{
    let v = str_to_chars(name);
    if v.len() == 0 {
        return false;
    }
    let mut i: usize = 0;
    while i < v.len()
        invariant
            i <= v@.len(),
            v@ == name@,
            forall|k: int|
                0 <= k < i ==> v@[k] != '/' && v@[k] != '\\' && (v@[k] as u32) >= 32,
        decreases v@.len() - i,
    {
        let c = v[i];
        if c == '/' || c == '\\' || (c as u32) < 32 {
            return false;
        }
        i += 1;
    }
    if chars_range_eq_str(&v, 0, v.len(), ".") || chars_range_eq_str(&v, 0, v.len(), "..") {
        proof {
            assert(v@.subrange(0, v@.len() as int) =~= v@);
        }
        return false;
    }
    proof {
        assert(v@.subrange(0, v@.len() as int) =~= v@);
    }
    true
}

} // verus!
