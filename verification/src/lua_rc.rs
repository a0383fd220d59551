//! In-memory model of the persisted manifest document: the keyed addon set,
//! the third-party library search list, and the loaded document that all
//! unrecognised fields ride through on.

use vstd::prelude::*;

use crate::addon::{spec_merge, Addon};
use crate::strutil::{str_eq, vec_contains_str};

verus! {

/// No two addons share a name.
pub open spec fn names_distinct(s: Seq<Addon>) -> bool {
    forall|i: int, j: int|
        #![trigger s[i].name, s[j].name]
        0 <= i < j < s.len() ==> s[i].name@ != s[j].name@
}

/// Every addon in the sequence is well-formed.
pub open spec fn all_wf(s: Seq<Addon>) -> bool {
    forall|i: int| 0 <= i < s.len() ==> (#[trigger] s[i]).wf()
}

/// The manifest's `workspace` section, reduced to the two fields the
/// reconciliation engine reads and writes.
#[derive(Debug, Clone)]
pub struct Workspace {
    pub addons: Vec<Addon>,
    pub user_third_party: Vec<String>,
}

/// The manifest document: the addon set and library search list as plain
/// data, plus the JSON document they were loaded from, kept verbatim so that
/// every field the engine does not touch survives a load/save round trip.
#[derive(Debug)]
pub struct LuaRc {
    pub workspace: Workspace,
    pub doc: Option<serde_json::Value>,
}

impl LuaRc {
    /// Well-formed: addon names are distinct and each addon is well-formed,
    /// and the retained document, if any, is a JSON object.
    pub open spec fn wf(self) -> bool {
        &&& names_distinct(self.workspace.addons@)
        &&& all_wf(self.workspace.addons@)
        &&& match self.doc {
            Some(d) => crate::json::json_is_object(d),
            None => true,
        }
    }

    /// Whether an addon of this name is in the manifest.
    pub open spec fn has_addon(self, n: Seq<char>) -> bool {
        exists|i: int|
            0 <= i < self.workspace.addons@.len() && (#[trigger] self.workspace.addons@[i]).name@
                == n
    }

    /// The index of the addon with name `n`.
    pub open spec fn idx_of(self, n: Seq<char>) -> int {
        choose|i: int|
            0 <= i < self.workspace.addons@.len() && (#[trigger] self.workspace.addons@[i]).name@
                == n
    }

    /// The addon set as a map from name to entry.
    pub open spec fn addon_map(self) -> Map<Seq<char>, Addon> {
        Map::new(|n: Seq<char>| self.has_addon(n), |n: Seq<char>| self.workspace.addons@[self.idx_of(n)])
    }

    /// An empty manifest with no retained document.
    pub fn new_empty() -> (r: LuaRc)
        ensures
            r.wf(),
            r.workspace.addons@.len() == 0,
            r.workspace.user_third_party@.len() == 0,
            r.doc is None,
    {
        LuaRc { workspace: Workspace { addons: Vec::new(), user_third_party: Vec::new() }, doc: None }
    }

    /// The addon entries, in manifest order.
    pub fn get_addons(&self) -> (r: &Vec<Addon>)
        ensures
            r == &self.workspace.addons,
    {
        &self.workspace.addons
    }

    /// Index of the entry named `name`, if present.
    fn find_addon(&self, name: &str) -> (r: Option<usize>)
        requires
            self.wf(),
        ensures
            match r {
                Some(i) => i < self.workspace.addons@.len() && self.workspace.addons@[i as int].name@
                    == name@,
                None => !self.has_addon(name@),
            },
    {
        let n = self.workspace.addons.len();
        let mut i: usize = 0;
        while i < n
            invariant
                n == self.workspace.addons@.len(),
                i <= n,
                forall|j: int|
                    0 <= j < i ==> (#[trigger] self.workspace.addons@[j]).name@ != name@,
            decreases n - i,
        {
            if str_eq(self.workspace.addons[i].name.as_str(), name) {
                return Some(i);
            }
            i += 1;
        }
        None
    }

    /// Look an entry up by name.
    pub fn get_addon(&self, name: &str) -> (r: Option<&Addon>)
        requires
            self.wf(),
        ensures
            match r {
                Some(a) => self.has_addon(name@) && *a == self.addon_map()[name@],
                None => !self.has_addon(name@),
            },
    {
        match self.find_addon(name) {
            Some(i) => {
                let a = &self.workspace.addons[i];
                proof {
                    lemma_unique_name_index(
                        self.workspace.addons@,
                        name@,
                        i as int,
                        self.idx_of(name@),
                    );
                }
                Some(a)
            },
            None => None,
        }
    }

    /// Whether an entry of this name is in the manifest.
    pub fn contains_addon(&self, name: &str) -> (r: bool)
        requires
            self.wf(),
        ensures
            r == self.has_addon(name@),
    {
        self.find_addon(name).is_some()
    }

    /// Merge a declaration into the manifest: an entry of the same name is
    /// merged field by field (fields the declaration leaves unset keep their
    /// prior values); a new name is appended as-is.  Nothing else in the
    /// manifest changes.
    pub fn update_addon(&mut self, addon: Addon)
        requires
            old(self).wf(),
            addon.wf(),
        ensures
            final(self).wf(),
            final(self).addon_map() == (if old(self).has_addon(addon.name@) {
                old(self).addon_map().insert(
                    addon.name@,
                    spec_merge(old(self).addon_map()[addon.name@], addon),
                )
            } else {
                old(self).addon_map().insert(addon.name@, addon)
            }),
            final(self).has_addon(addon.name@),
            forall|n: Seq<char>|
                #[trigger] final(self).has_addon(n) <==> (old(self).has_addon(n) || n
                    == addon.name@),
            final(self).workspace.user_third_party == old(self).workspace.user_third_party,
            final(self).doc == old(self).doc,
    {
        let ghost pre = *self;
        match self.find_addon(addon.name.as_str()) {
            Some(i) => {
                self.workspace.addons[i].merge(&addon);
                proof {
                    let s0 = pre.workspace.addons@;
                    let s1 = self.workspace.addons@;
                    lemma_unique_name_index(s0, addon.name@, i as int, pre.idx_of(addon.name@));
                    assert(s1 == s0.update(i as int, spec_merge(s0[i as int], addon)));
                    assert(forall|k: int| 0 <= k < s1.len() ==> s1[k].name@ == s0[k].name@);
                    assert(names_distinct(s1));
                    assert(all_wf(s1)) by {
                        assert(s1[i as int].wf());
                        assert(forall|k: int| 0 <= k < s1.len() && k != i ==> s1[k] == s0[k]);
                    }
                    assert forall|n: Seq<char>| true implies self.has_addon(n) == pre.has_addon(
                        n,
                    ) by {
                        if pre.has_addon(n) {
                            let k = pre.idx_of(n);
                            assert(s1[k].name@ == n);
                        }
                        if self.has_addon(n) {
                            let k = self.idx_of(n);
                            assert(s0[k].name@ == n);
                        }
                    }
                    assert(self.addon_map() =~= pre.addon_map().insert(
                        addon.name@,
                        spec_merge(pre.addon_map()[addon.name@], addon),
                    )) by {
                        assert forall|n: Seq<char>| self.has_addon(n) implies #[trigger] self.addon_map()[n]
                            == pre.addon_map().insert(
                            addon.name@,
                            spec_merge(pre.addon_map()[addon.name@], addon),
                        )[n] by {
                            let k = self.idx_of(n);
                            assert(s1[k].name@ == n);
                            lemma_unique_name_index(s0, n, k, pre.idx_of(n));
                            if n == addon.name@ {
                                lemma_unique_name_index(s0, n, k, i as int);
                            } else {
                                lemma_unique_name_index(s0, n, k, k);
                                assert(k != i);
                                assert(s1[k] == s0[k]);
                            }
                        }
                    }
                }
            },
            None => {
                let ghost s0 = self.workspace.addons@;
                self.workspace.addons.push(addon);
                proof {
                    let s1 = self.workspace.addons@;
                    assert(s1 == s0.push(addon));
                    assert(names_distinct(s1)) by {
                        assert(forall|k: int| 0 <= k < s0.len() ==> s1[k] == s0[k]);
                        assert(s1[s0.len() as int] == addon);
                    }
                    assert(all_wf(s1)) by {
                        assert(forall|k: int| 0 <= k < s0.len() ==> s1[k] == s0[k]);
                        assert(s1[s0.len() as int] == addon);
                    }
                    assert(self.has_addon(addon.name@)) by {
                        assert(s1[s0.len() as int].name@ == addon.name@);
                    }
                    assert forall|n: Seq<char>|
                        n != addon.name@ implies self.has_addon(n) == pre.has_addon(n) by {
                        if pre.has_addon(n) {
                            let k = pre.idx_of(n);
                            assert(s1[k].name@ == n);
                        }
                        if self.has_addon(n) {
                            let k = self.idx_of(n);
                            assert(0 <= k < s1.len() && s1[k].name@ == n);
                            assert(k != s0.len());
                            assert(s0[k].name@ == n);
                        }
                    }
                    assert(self.addon_map() =~= pre.addon_map().insert(addon.name@, addon)) by {
                        assert forall|n: Seq<char>| self.has_addon(n) implies #[trigger] self.addon_map()[n]
                            == pre.addon_map().insert(addon.name@, addon)[n] by {
                            let k = self.idx_of(n);
                            assert(0 <= k < s1.len() && s1[k].name@ == n);
                            if n == addon.name@ {
                                lemma_unique_name_index(s1, n, k, s0.len() as int);
                            } else {
                                assert(k != s0.len());
                                assert(s0[k].name@ == n);
                                lemma_unique_name_index(s0, n, k, pre.idx_of(n));
                            }
                        }
                    }
                }
            },
        }
    }

    /// Remove the entry of this name, if present; reports whether one was
    /// removed.  Nothing else in the manifest changes.
    pub fn remove_addon(&mut self, name: &str) -> (r: bool)
        requires
            old(self).wf(),
        ensures
            final(self).wf(),
            r == old(self).has_addon(name@),
            final(self).addon_map() == old(self).addon_map().remove(name@),
            !final(self).has_addon(name@),
            forall|n: Seq<char>|
                #[trigger] final(self).has_addon(n) <==> (old(self).has_addon(n) && n != name@),
            final(self).workspace.user_third_party == old(self).workspace.user_third_party,
            final(self).doc == old(self).doc,
    {
        let ghost pre = *self;
        match self.find_addon(name) {
            Some(i) => {
                let ghost s0 = self.workspace.addons@;
                self.workspace.addons.remove(i);
                proof {
                    let s1 = self.workspace.addons@;
                    assert(s1 == s0.remove(i as int));
                    assert(forall|k: int| 0 <= k < i ==> s1[k] == s0[k]);
                    assert(forall|k: int| i <= k < s1.len() ==> s1[k] == s0[k + 1]);
                    assert(names_distinct(s1));
                    assert(all_wf(s1));
                    assert(!self.has_addon(name@)) by {
                        if self.has_addon(name@) {
                            let k = self.idx_of(name@);
                            if k < i {
                                lemma_unique_name_index(s0, name@, k, i as int);
                            } else {
                                lemma_unique_name_index(s0, name@, k + 1, i as int);
                            }
                        }
                    }
                    assert forall|n: Seq<char>|
                        n != name@ implies self.has_addon(n) == pre.has_addon(n) by {
                        if pre.has_addon(n) {
                            let k = pre.idx_of(n);
                            assert(s0[k].name@ == n);
                            lemma_unique_name_index(s0, n, k, k);
                            if k < i {
                                assert(s1[k].name@ == n);
                            } else {
                                assert(k != i);
                                assert(s1[k - 1].name@ == n);
                            }
                        }
                        if self.has_addon(n) {
                            let k = self.idx_of(n);
                            if k < i {
                                assert(s0[k].name@ == n);
                            } else {
                                assert(s0[k + 1].name@ == n);
                            }
                        }
                    }
                    assert(self.addon_map() =~= pre.addon_map().remove(name@)) by {
                        assert forall|n: Seq<char>| self.has_addon(n) implies #[trigger] self.addon_map()[n]
                            == pre.addon_map().remove(name@)[n] by {
                            let k = self.idx_of(n);
                            assert(s1[k].name@ == n);
                            let k0: int = if k < i {
                                k
                            } else {
                                k + 1
                            };
                            assert(s0[k0].name@ == n);
                            lemma_unique_name_index(s0, n, k0, pre.idx_of(n));
                        }
                    }
                }
                true
            },
            None => {
                proof {
                    assert(self.addon_map() =~= pre.addon_map().remove(name@));
                }
                false
            },
        }
    }

    /// The names of all entries, in manifest order.
    pub fn addon_names(&self) -> (r: Vec<String>)
        ensures
            r@.len() == self.workspace.addons@.len(),
            forall|i: int|
                0 <= i < r@.len() ==> (#[trigger] r@[i])@ == self.workspace.addons@[i].name@,
    {
        let n = self.workspace.addons.len();
        let mut r: Vec<String> = Vec::new();
        let mut i: usize = 0;
        while i < n
            invariant
                n == self.workspace.addons@.len(),
                i <= n,
                r@.len() == i,
                forall|j: int|
                    0 <= j < i ==> (#[trigger] r@[j])@ == self.workspace.addons@[j].name@,
            decreases n - i,
        {
            r.push(self.workspace.addons[i].name.clone());
            i += 1;
        }
        r
    }

    /// Register the addons directory in the third-party library search list,
    /// appending it exactly once: a list that already holds it is left
    /// unchanged, so no duplicate entry is ever created.
    pub fn register_third_party(&mut self)
        ensures
            final(self).workspace.addons == old(self).workspace.addons,
            final(self).doc == old(self).doc,
            utp_has_dir(old(self).workspace.user_third_party@)
                ==> final(self).workspace.user_third_party
                == old(self).workspace.user_third_party,
            !utp_has_dir(old(self).workspace.user_third_party@) ==> {
                &&& final(self).workspace.user_third_party@
                    == old(self).workspace.user_third_party@.push(
                    final(self).workspace.user_third_party@.last())
                &&& (final(self).workspace.user_third_party@.last())@ == crate::spec_addons_dir()
            },
            utp_has_dir(final(self).workspace.user_third_party@),
    {
        let dir = crate::addons_dir();
        if !vec_contains_str(&self.workspace.user_third_party, dir) {
            self.workspace.user_third_party.push(dir.to_owned());
        }
    }
}

/// Whether the third-party search list holds the addons directory.
pub open spec fn utp_has_dir(utp: Seq<String>) -> bool {
    exists|i: int| 0 <= i < utp.len() && (#[trigger] utp[i])@ == crate::spec_addons_dir()
}

/// With distinct names, an addon's index in the sequence is unique.
pub proof fn lemma_unique_name_index(s: Seq<Addon>, n: Seq<char>, i: int, j: int)
    requires
        names_distinct(s),
        0 <= i < s.len(),
        0 <= j < s.len(),
        s[i].name@ == n,
        s[j].name@ == n,
    ensures
        i == j,
{
}

} // verus!
