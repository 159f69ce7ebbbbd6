//! Modpack candidates: the enumerator over a source launcher root and the
//! path helpers of one candidate.
//!
//! A candidate is identified by its directory path alone; nothing is parsed
//! until its manifest is read.  The listing is recomputed on every request
//! and follows the order the entries are handed in, which is the caller's
//! filesystem enumeration order — implementation-defined, not sorted.

use vstd::prelude::*;

use crate::instance::CurseForgeInstance;
use crate::link::{sp_join, join_path};
use crate::text::{chars_sub, chars_to_string, str_to_chars};

verus! {

/// The start of a path's base name: the position after its last separator,
/// found by scanning back from `j` over non-separator characters.
pub open spec fn sp_base_start(s: Seq<char>, j: int) -> int
    decreases j,
{
    if 0 < j <= s.len() && s[j - 1] != '/' && s[j - 1] != '\\' {
        sp_base_start(s, j - 1)
    } else {
        j
    }
}

/// A path's base name: everything after its last separator; empty for an
/// empty path or one ending in a separator.
pub open spec fn sp_base_name(s: Seq<char>) -> Seq<char> {
    s.subrange(sp_base_start(s, s.len() as int), s.len() as int)
}

/// Finds the position after the last separator at or before `j`.
fn base_start(v: &Vec<char>, j: usize) -> (r: usize)
    requires
        j <= v@.len(),
    ensures
        r as int == sp_base_start(v@, j as int),
        r <= j,
    decreases j,
{
    if j > 0 {
        let c = v[j - 1];
        if c != '/' && c != '\\' {
            return base_start(v, j - 1);
        }
    }
    j
}

/// One child entry of the source root, as the caller's directory listing
/// reports it: its full path and whether it is a directory.
#[derive(Debug, PartialEq, Eq)]
pub struct DirEntry {
    /// The entry's full path.
    pub path: String,
    /// Whether the entry is a directory.
    pub is_dir: bool,
}

/// A candidate modpack: a child directory of the source launcher root.
#[derive(Debug, PartialEq, Eq)]
pub struct ModPack {
    /// The modpack's directory under the source root, when known.
    pub cf_dir: Option<String>,
}

impl View for ModPack {
    type V = Option<Seq<char>>;

    open spec fn view(&self) -> Option<Seq<char>> {
        match self.cf_dir {
            Some(p) => Some(p@),
            None => None,
        }
    }
}

impl Clone for ModPack {
    fn clone(&self) -> (r: Self)
        ensures
            r@ == self@,
    {
        ModPack {
            cf_dir: match &self.cf_dir {
                Some(p) => Some(p.clone()),
                None => None,
            },
        }
    }
}

impl Default for ModPack {
    /// A candidate with no directory chosen yet.
    fn default() -> (r: Self)
        ensures
            r@ is None,
    {
        ModPack { cf_dir: None }
    }
}

/// The views of a sequence of candidates.
pub open spec fn sp_modpack_views(s: Seq<ModPack>) -> Seq<Option<Seq<char>>> {
    s.map(|i: int, mp: ModPack| mp@)
}

/// The candidate paths of a directory listing: the paths of its directory
/// entries, in order; files are excluded.
pub open spec fn sp_candidates(s: Seq<DirEntry>) -> Seq<Option<Seq<char>>>
    decreases s.len(),
{
    if s.len() == 0 {
        Seq::<Option<Seq<char>>>::empty()
    } else if s[0].is_dir {
        seq![Some(s[0].path@)] + sp_candidates(s.drop_first())
    } else {
        sp_candidates(s.drop_first())
    }
}

/// Taking one more entry extends the candidates by at most that entry.
proof fn lemma_candidates_push(s: Seq<DirEntry>, d: DirEntry)
    ensures
        sp_candidates(s.push(d)) == sp_candidates(s) + (if d.is_dir {
            seq![Some(d.path@)]
        } else {
            Seq::<Option<Seq<char>>>::empty()
        }),
    decreases s.len(),
{
    let tail: Seq<Option<Seq<char>>> = if d.is_dir {
        seq![Some(d.path@)]
    } else {
        Seq::<Option<Seq<char>>>::empty()
    };
    if s.len() == 0 {
        assert(s.push(d).drop_first() =~= Seq::<DirEntry>::empty());
        assert(s.push(d)[0] == d);
        assert(sp_candidates(s.push(d).drop_first()) == Seq::<Option<Seq<char>>>::empty());
        if d.is_dir {
            assert(sp_candidates(s.push(d)) == seq![Some(d.path@)] + Seq::<
                Option<Seq<char>>,
            >::empty());
        } else {
            assert(sp_candidates(s.push(d)) == Seq::<Option<Seq<char>>>::empty());
        }
        assert(sp_candidates(s) == Seq::<Option<Seq<char>>>::empty());
        assert(sp_candidates(s.push(d)) =~= sp_candidates(s) + tail);
    } else {
        assert(s.push(d).drop_first() =~= s.drop_first().push(d));
        assert(s.push(d)[0] == s[0]);
        lemma_candidates_push(s.drop_first(), d);
        assert(sp_candidates(s.push(d)) =~= sp_candidates(s) + tail);
    }
}

impl ModPack {
    /// The modpack's source directory path, or the empty path when none is
    /// set.
    pub fn cf_path(&self) -> (r: String)
        ensures
            r@ == match self@ {
                Some(p) => p,
                None => Seq::<char>::empty(),
            },
    {
        match &self.cf_dir {
            Some(p) => p.clone(),
            None => String::new(),
        }
    }

    /// The name the modpack is shown under: the base name of its
    /// directory, or nothing when no directory is set.
    pub fn display_name(&self) -> (r: String)
        ensures
            r@ == match self@ {
                Some(p) => sp_base_name(p),
                None => Seq::<char>::empty(),
            },
    {
        match &self.cf_dir {
            Some(p) => {
                let v = str_to_chars(p.as_str());
                let start = base_start(&v, v.len());
                let name = chars_sub(&v, start, v.len());
                chars_to_string(&name)
            },
            None => String::new(),
        }
    }

    /// The destination instance directory this modpack's descriptor maps
    /// to: the descriptor's name joined under the destination root.
    /// Whether that directory exists — whether the modpack is linked — is
    /// the caller's probe.
    pub fn mmc_path(&self, mmc_root: &str, descriptor: &CurseForgeInstance) -> (r: String)
        ensures
            r@ == sp_join(mmc_root@, descriptor@.name),
    {
        join_path(mmc_root, descriptor.name.as_str())
    }

    /// Turns a directory listing of the source root into the candidate
    /// modpacks: one candidate per child directory, files excluded, order
    /// kept.  `entries` is `None` when the root does not exist or could not
    /// be read; that case yields no candidates and clears the caller's
    /// selection, so an unreadable root is never mistaken for an empty one.
    pub fn list(entries: Option<Vec<DirEntry>>, selected: &mut Option<ModPack>) -> (r: Vec<
        ModPack,
    >)
        ensures
            match entries {
                Some(es) => sp_modpack_views(r@) == sp_candidates(es@) && *final(selected)
                    == *old(selected),
                None => r@.len() == 0 && *final(selected) is None,
            },
    {
        let es = match entries {
            Some(es) => es,
            None => {
                *selected = None;
                return Vec::new();
            },
        };
        let mut r: Vec<ModPack> = Vec::new();
        let mut i: usize = 0;
        proof {
            assert(es@.take(0) =~= Seq::<DirEntry>::empty());
            assert(sp_modpack_views(r@) =~= sp_candidates(es@.take(0)));
        }
        while i < es.len()
            invariant
                i <= es@.len(),
                sp_modpack_views(r@) == sp_candidates(es@.take(i as int)),
            decreases es@.len() - i,
        {
            let ghost pre = r@;
            if es[i].is_dir {
                r.push(ModPack { cf_dir: Some(es[i].path.clone()) });
            }
            proof {
                lemma_candidates_push(es@.take(i as int), es@[i as int]);
                assert(es@.take(i + 1) =~= es@.take(i as int).push(es@[i as int]));
                if es@[i as int].is_dir {
                    assert(sp_modpack_views(r@) =~= sp_modpack_views(pre) + seq![
                        Some(es@[i as int].path@),
                    ]);
                } else {
                    assert(sp_modpack_views(r@) =~= sp_modpack_views(pre));
                }
            }
            i += 1;
        }
        proof {
            assert(es@.take(es@.len() as int) =~= es@);
        }
        r
    }
}

} // verus!
