//! The addon identity model: where an addon comes from, the name that keys
//! it, and the declared target (branch, pinned revision) with its merge
//! semantics.

use vstd::prelude::*;

use crate::error::Error;
use crate::strutil::{concat_str, ends_with, find_char, rfind_char, str_eq};

verus! {

/// Where an addon comes from: a short identifier resolved against the
/// default hosting convention, or an explicit clone URL.
#[derive(Debug, Clone, PartialEq, Eq)]
pub enum AddonSource {
    Short(String),
    Url(String),
}

/// True when `c` may appear in a directory name owned by an addon: ASCII
/// letters, digits, `-`, `_` and `.`.
pub open spec fn spec_fs_safe_char(c: char) -> bool {
    (97 <= c as u32 && c as u32 <= 122) || (65 <= c as u32 && c as u32 <= 90) || (48 <= c as u32
        && c as u32 <= 57) || c == '-' || c == '_' || c == '.'
}

/// A name is filesystem-safe when it is non-empty, made of safe characters
/// only, and is not one of the two reserved path components.
pub open spec fn spec_fs_safe(s: Seq<char>) -> bool {
    &&& s.len() > 0
    &&& forall|i: int| 0 <= i < s.len() ==> spec_fs_safe_char(#[trigger] s[i])
    &&& s != "."@
    &&& s != ".."@
}

/// Executable counterpart of [`spec_fs_safe`].
pub fn is_fs_safe(s: &str) -> (r: bool)
    ensures
        r == spec_fs_safe(s@),
{
    let n = s.unicode_len();
    if n == 0 {
        return false;
    }
    if str_eq(s, ".") || str_eq(s, "..") {
        return false;
    }
    let mut i: usize = 0;
    while i < n
        invariant
            n == s@.len(),
            i <= n,
            forall|j: int| 0 <= j < i ==> spec_fs_safe_char(#[trigger] s@[j]),
        decreases n - i,
    {
        let c = s.get_char(i);
        let u = c as u32;
        let ok = (97 <= u && u <= 122) || (65 <= u && u <= 90) || (48 <= u && u <= 57) || c == '-'
            || c == '_' || c == '.';
        if !ok {
            return false;
        }
        i += 1;
    }
    true
}

/// Position of the last `/` in `s`, or `-1` when there is none.
pub open spec fn last_slash(s: Seq<char>) -> int
    decreases s.len(),
{
    if s.len() == 0 {
        -1
    } else if s[s.len() - 1] == '/' {
        s.len() - 1
    } else {
        last_slash(s.drop_last())
    }
}

pub proof fn lemma_last_slash(s: Seq<char>)
    ensures
        -1 <= last_slash(s) < s.len(),
        last_slash(s) >= 0 ==> s[last_slash(s)] == '/',
        forall|j: int| last_slash(s) < j < s.len() ==> #[trigger] s[j] != '/',
    decreases s.len(),
{
    if s.len() == 0 {
    } else if s[s.len() - 1] == '/' {
    } else {
        lemma_last_slash(s.drop_last());
        assert forall|j: int| last_slash(s) < j < s.len() implies #[trigger] s[j] != '/' by {
            if j < s.len() - 1 {
                assert(s.drop_last()[j] == s[j]);
            }
        }
        if last_slash(s) >= 0 {
            assert(s.drop_last()[last_slash(s)] == s[last_slash(s)]);
        }
    }
}

/// The part of `s` after its last `/` (all of `s` when there is none).
pub open spec fn spec_segment(s: Seq<char>) -> Seq<char> {
    s.skip(last_slash(s) + 1)
}

/// `s` with a trailing `.git` removed, if present.
pub open spec fn spec_strip_git(s: Seq<char>) -> Seq<char> {
    if s.len() >= 4 && s.skip(s.len() - 4) == ".git"@ {
        s.take(s.len() - 4)
    } else {
        s
    }
}

/// The canonical short name a source resolves to: the last path segment of
/// the identifier or URL, with a trailing `.git` removed for URLs.
pub open spec fn spec_source_name(src: AddonSource) -> Seq<char> {
    match src {
        AddonSource::Short(id) => spec_segment(id@),
        AddonSource::Url(u) => spec_strip_git(spec_segment(u@)),
    }
}

/// The clone URL a source resolves to.  A short identifier with an owner
/// part maps into the hosting site directly; a bare identifier maps into the
/// addon organisation there.
pub open spec fn spec_source_url(src: AddonSource) -> Seq<char> {
    match src {
        AddonSource::Url(u) => u@,
        AddonSource::Short(id) => if exists|i: int| 0 <= i < id@.len() && #[trigger] id@[i] == '/' {
            "https://github.com/"@ + id@ + ".git"@
        } else {
            "https://github.com/LLS-Addons/"@ + id@ + ".git"@
        },
    }
}

impl AddonSource {
    /// A structurally equal copy.
    pub fn duplicate(&self) -> (r: AddonSource)
        ensures
            r == *self,
    {
        match self {
            AddonSource::Short(id) => AddonSource::Short(id.clone()),
            AddonSource::Url(u) => AddonSource::Url(u.clone()),
        }
    }

    /// The canonical short name this source resolves to.
    pub fn name(&self) -> (r: String)
        ensures
            r@ == spec_source_name(*self),
    {
        match self {
            AddonSource::Short(id) => segment_after_slash(id.as_str()),
            AddonSource::Url(u) => {
                let seg = segment_after_slash(u.as_str());
                if ends_with(seg.as_str(), ".git") {
                    proof {
                        reveal_strlit(".git");
                    }
                    let n = seg.as_str().unicode_len();
                    let r = seg.as_str().substring_char(0, n - 4).to_owned();
                    assert(r@ =~= spec_strip_git(seg@));
                    r
                } else {
                    proof {
                        reveal_strlit(".git");
                    }
                    assert(seg@ == spec_strip_git(seg@));
                    seg
                }
            },
        }
    }

    /// The clone URL this source resolves to.
    pub fn clone_url(&self) -> (r: String)
        ensures
            r@ == spec_source_url(*self),
    {
        match self {
            AddonSource::Url(u) => u.clone(),
            AddonSource::Short(id) => {
                let host = if find_char(id.as_str(), '/').is_some() {
                    "https://github.com/"
                } else {
                    "https://github.com/LLS-Addons/"
                };
                let mut r = concat_str(host, id.as_str());
                r.append(".git");
                r
            },
        }
    }
}

/// The part of `s` after its last `/`, as an owned string.
fn segment_after_slash(s: &str) -> (r: String)
    ensures
        r@ == spec_segment(s@),
{
    proof {
        lemma_last_slash(s@);
    }
    match rfind_char(s, '/') {
        Some(i) => {
            let n = s.unicode_len();
            assert(i == last_slash(s@)) by {
                let ls = last_slash(s@);
                if ls < i {
                    assert(s@[i as int] == '/');
                } else if i < ls {
                    assert(s@[ls] == '/');
                }
            }
            let r = s.substring_char(i + 1, n).to_owned();
            assert(r@ =~= spec_segment(s@));
            r
        },
        None => {
            assert(last_slash(s@) == -1) by {
                if last_slash(s@) >= 0 {
                    assert(s@[last_slash(s@)] == '/');
                }
            }
            assert(s@.skip(0) =~= s@);
            s.to_owned()
        },
    }
}

/// One addon's identity and declared target.  The name keys the manifest and
/// names the checkout directory; `branch`, when set, pins tracking to a named
/// branch; `checksum`, when set, pins the checkout to an exact revision.
#[derive(Debug, Clone, PartialEq, Eq)]
pub struct Addon {
    pub name: String,
    pub source: AddonSource,
    pub branch: Option<String>,
    pub checksum: Option<String>,
}

/// The merge of an incoming declaration `d` into an existing entry `e`: the
/// entry's name is kept, the source is taken from the declaration, and
/// branch and checksum are taken from the declaration only where it sets
/// them.
pub open spec fn spec_merge(e: Addon, d: Addon) -> Addon {
    Addon {
        name: e.name,
        source: d.source,
        branch: if d.branch is Some {
            d.branch
        } else {
            e.branch
        },
        checksum: if d.checksum is Some {
            d.checksum
        } else {
            e.checksum
        },
    }
}

/// Merge is non-destructive: any field of the existing entry that the
/// incoming declaration leaves unset keeps its prior value, and the entry
/// keeps its name.
pub proof fn lemma_merge_non_destructive(e: Addon, d: Addon)
    ensures
        spec_merge(e, d).name == e.name,
        d.branch is None ==> spec_merge(e, d).branch == e.branch,
        d.checksum is None ==> spec_merge(e, d).checksum == e.checksum,
        d.branch is Some ==> spec_merge(e, d).branch == d.branch,
        d.checksum is Some ==> spec_merge(e, d).checksum == d.checksum,
{
}

/// Merging the same declaration a second time changes nothing: a repeated
/// add settles on the state the first one left.
pub proof fn lemma_merge_idempotent(e: Addon, d: Addon)
    ensures
        spec_merge(spec_merge(e, d), d) == spec_merge(e, d),
{
}

/// The view of an optional string.
pub open spec fn opt_str_view(o: Option<String>) -> Option<Seq<char>> {
    match o {
        Some(s) => Some(s@),
        None => None,
    }
}

/// Equality of optional strings by view.
pub fn opt_str_eq(a: &Option<String>, b: &Option<String>) -> (r: bool)
    ensures
        r == (opt_str_view(*a) == opt_str_view(*b)),
{
    match (a, b) {
        (Some(x), Some(y)) => str_eq(x.as_str(), y.as_str()),
        (None, None) => true,
        _ => false,
    }
}

/// A string names an explicit URL when it holds `://` or starts with `git@`.
pub open spec fn spec_is_url(s: Seq<char>) -> bool {
    (exists|i: int|
        0 <= i && i + 2 < s.len() && #[trigger] s[i] == ':' && s[i + 1] == '/' && s[i + 2] == '/')
        || (s.len() >= 4 && s[0] == 'g' && s[1] == 'i' && s[2] == 't' && s[3] == '@')
}

/// The short name that a command-line source argument resolves to.
pub open spec fn spec_arg_name(s: Seq<char>) -> Seq<char> {
    if spec_is_url(s) {
        spec_strip_git(spec_segment(s))
    } else {
        spec_segment(s)
    }
}

/// Executable counterpart of [`spec_is_url`].
pub fn is_url(s: &str) -> (r: bool)
    ensures
        r == spec_is_url(s@),
{
    let n = s.unicode_len();
    if n >= 4 && s.get_char(0) == 'g' && s.get_char(1) == 'i' && s.get_char(2) == 't'
        && s.get_char(3) == '@' {
        return true;
    }
    if n < 3 {
        return false;
    }
    let mut i: usize = 0;
    while i < n - 2
        invariant
            n == s@.len(),
            3 <= n,
            i <= n,
            forall|j: int| 0 <= j < i && j + 2 < n ==> !(#[trigger] s@[j] == ':' && s@[j + 1] == '/'
                && s@[j + 2] == '/'),
        decreases n - i,
    {
        if s.get_char(i) == ':' && s.get_char(i + 1) == '/' && s.get_char(i + 2) == '/' {
            return true;
        }
        i += 1;
    }
    false
}

impl Addon {
    /// Well-formed: the name is non-empty and filesystem-safe.
    pub open spec fn wf(self) -> bool {
        spec_fs_safe(self.name@)
    }

    /// Build an addon from a source and an optional explicit name; the name
    /// is derived from the source when not explicit.  Rejects, and only
    /// rejects, a name that is not safe to use as a directory name.
    pub fn new(
        source: AddonSource,
        name: Option<String>,
        branch: Option<String>,
        checksum: Option<String>,
    ) -> (r: Result<Addon, Error>)
        ensures
            match r {
                Ok(a) => {
                    &&& a.wf()
                    &&& a.name@ == (match name {
                        Some(n) => n@,
                        None => spec_source_name(source),
                    })
                    &&& a.source == source
                    &&& a.branch == branch
                    &&& a.checksum == checksum
                },
                Err(_) => !spec_fs_safe(
                    match name {
                        Some(n) => n@,
                        None => spec_source_name(source),
                    },
                ),
            },
    {
        let n = match name {
            Some(n) => n,
            None => source.name(),
        };
        if !is_fs_safe(n.as_str()) {
            return Err(
                Error::custom(concat_str("addon name is not filesystem-safe: ", n.as_str())),
            );
        }
        Ok(Addon { name: n, source, branch, checksum })
    }

    /// Parse a command-line addon declaration: the whole argument is the
    /// source, given either as a short identifier or as an explicit URL;
    /// branch and checksum are not set on the command line.
    pub fn parse(s: &str) -> (r: Result<Addon, Error>)
        ensures
            match r {
                Ok(a) => {
                    &&& a.wf()
                    &&& (spec_is_url(s@) ==> (a.source matches AddonSource::Url(u) && u@ == s@))
                    &&& (!spec_is_url(s@) ==> (a.source matches AddonSource::Short(id) && id@
                        == s@))
                    &&& a.name@ == spec_arg_name(s@)
                    &&& a.branch is None
                    &&& a.checksum is None
                },
                Err(_) => !spec_fs_safe(spec_arg_name(s@)),
            },
    {
        let src = if is_url(s) {
            AddonSource::Url(s.to_owned())
        } else {
            AddonSource::Short(s.to_owned())
        };
        Addon::new(src, None, None, None)
    }

    /// The unique key of this addon within a project.
    pub fn name(&self) -> (r: &String)
        ensures
            r == &self.name,
    {
        &self.name
    }

    /// The clone URL of this addon's source.
    pub fn clone_url(&self) -> (r: String)
        ensures
            r@ == spec_source_url(self.source),
    {
        self.source.clone_url()
    }

    /// A structurally equal copy.
    pub fn duplicate(&self) -> (r: Addon)
        ensures
            r == *self,
    {
        Addon {
            name: self.name.clone(),
            source: self.source.duplicate(),
            branch: match &self.branch {
                Some(b) => Some(b.clone()),
                None => None,
            },
            checksum: match &self.checksum {
                Some(c) => Some(c.clone()),
                None => None,
            },
        }
    }

    /// Merge an incoming declaration into this entry; see [`spec_merge`].
    pub fn merge(&mut self, d: &Addon)
        ensures
            *final(self) == spec_merge(*old(self), *d),
    {
        self.source = d.source.duplicate();
        if let Some(b) = &d.branch {
            self.branch = Some(b.clone());
        }
        if let Some(c) = &d.checksum {
            self.checksum = Some(c.clone());
        }
    }

    /// Two addons are the same declared target iff name, branch and checksum
    /// all agree; a differing branch or checksum on an equal name signals an
    /// update of the same addon, not a new one.
    pub open spec fn spec_same_target(self, other: Addon) -> bool {
        &&& self.name@ == other.name@
        &&& opt_str_view(self.branch) == opt_str_view(other.branch)
        &&& opt_str_view(self.checksum) == opt_str_view(other.checksum)
    }

    /// Executable counterpart of [`Self::spec_same_target`].
    pub fn same_target(&self, other: &Addon) -> (r: bool)
        ensures
            r == self.spec_same_target(*other),
    {
        str_eq(self.name.as_str(), other.name.as_str()) && opt_str_eq(&self.branch, &other.branch)
            && opt_str_eq(&self.checksum, &other.checksum)
    }
}

} // verus!
