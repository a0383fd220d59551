//! The manifest codec: how the in-memory manifest model is read out of and
//! written back into the JSON document.  The engine only ever touches the
//! `workspace.addons` and `workspace.userThirdParty` members; every other
//! member of the document, and every unrecognised member of a kept entry,
//! rides through a load/save round trip unchanged.

use vstd::prelude::*;

use crate::addon::{
    is_url, opt_str_view, spec_fs_safe, spec_is_url, Addon, AddonSource,
};
use crate::error::Error;
use crate::json::{
    json_arr, json_array, json_as_array, json_as_str, json_entries, json_get, json_insert,
    json_is_obj, json_is_object, json_new_object, json_object_entries, json_parse, json_remove,
    json_str, json_string, no_entries, parsed_json,
};
use crate::lua_rc::{names_distinct, LuaRc, Workspace};

verus! {

/// The string stored in an entry's `source` member.
pub open spec fn spec_source_str(src: AddonSource) -> Seq<char> {
    match src {
        AddonSource::Short(id) => id@,
        AddonSource::Url(u) => u@,
    }
}

/// A stored source string reconstructs to this source: strings that look
/// like URLs become explicit URLs, every other string a short identifier.
pub open spec fn source_matches_str(src: AddonSource, s: Seq<char>) -> bool {
    if spec_is_url(s) {
        src matches AddonSource::Url(u) && u@ == s
    } else {
        src matches AddonSource::Short(id) && id@ == s
    }
}

/// The string content of an object member, `None` when the member is absent
/// or not a string.
pub open spec fn member_str(e: Map<Seq<char>, serde_json::Value>, k: Seq<char>) -> Option<
    Seq<char>,
> {
    if e.dom().contains(k) {
        json_str(e[k])
    } else {
        None
    }
}

/// The member is absent or holds a string.
pub open spec fn opt_str_member_ok(e: Map<Seq<char>, serde_json::Value>, k: Seq<char>) -> bool {
    e.dom().contains(k) ==> json_str(e[k]) is Some
}

/// An object member, `None` when the value is not an object or lacks it.
pub open spec fn member_of(v: serde_json::Value, k: Seq<char>) -> Option<serde_json::Value> {
    if json_is_object(v) && json_entries(v).dom().contains(k) {
        Some(json_entries(v)[k])
    } else {
        None
    }
}

/// The members of an object held under `k`, empty when `k` is absent or not
/// an object.
pub open spec fn member_obj_entries(e: Map<Seq<char>, serde_json::Value>, k: Seq<char>) -> Map<
    Seq<char>,
    serde_json::Value,
> {
    if e.dom().contains(k) && json_is_object(e[k]) {
        json_entries(e[k])
    } else {
        no_entries()
    }
}

/// A manifest entry decodes when it is an object whose `source`, `branch`
/// and `checksum` members, where present, are strings, under a
/// filesystem-safe name.
pub open spec fn entry_decodable(name: Seq<char>, v: serde_json::Value) -> bool {
    &&& json_is_object(v)
    &&& opt_str_member_ok(json_entries(v), "source"@)
    &&& opt_str_member_ok(json_entries(v), "branch"@)
    &&& opt_str_member_ok(json_entries(v), "checksum"@)
    &&& spec_fs_safe(name)
}

/// What a manifest entry decodes to: the map key names the addon, the
/// `source` member (or, absent that, the name itself) names the source, and
/// `branch` and `checksum` carry the declared target.
pub open spec fn entry_decoded(name: Seq<char>, v: serde_json::Value, a: Addon) -> bool {
    &&& a.name@ == name
    &&& source_matches_str(
        a.source,
        match member_str(json_entries(v), "source"@) {
            Some(s) => s,
            None => name,
        },
    )
    &&& opt_str_view(a.branch) == member_str(json_entries(v), "branch"@)
    &&& opt_str_view(a.checksum) == member_str(json_entries(v), "checksum"@)
}

/// Decode one manifest entry.
pub fn decode_entry(name: &str, v: &serde_json::Value) -> (r: Result<Addon, Error>)
    ensures
        match r {
            Ok(a) => a.wf() && entry_decodable(name@, *v) && entry_decoded(name@, *v, a),
            Err(_) => !entry_decodable(name@, *v),
        },
{
    if !json_is_obj(v) {
        return Err(Error::Json("manifest entry is not an object".to_owned()));
    }
    let source_str: String = match json_get(v, "source") {
        Some(sv) => match json_as_str(sv) {
            Some(s) => s.to_owned(),
            None => {
                return Err(Error::Json("manifest entry source is not a string".to_owned()));
            },
        },
        None => name.to_owned(),
    };
    let branch: Option<String> = match json_get(v, "branch") {
        Some(bv) => match json_as_str(bv) {
            Some(s) => Some(s.to_owned()),
            None => {
                return Err(Error::Json("manifest entry branch is not a string".to_owned()));
            },
        },
        None => None,
    };
    let checksum: Option<String> = match json_get(v, "checksum") {
        Some(cv) => match json_as_str(cv) {
            Some(s) => Some(s.to_owned()),
            None => {
                return Err(Error::Json("manifest entry checksum is not a string".to_owned()));
            },
        },
        None => None,
    };
    let source = if is_url(source_str.as_str()) {
        AddonSource::Url(source_str)
    } else {
        AddonSource::Short(source_str)
    };
    Addon::new(source, Some(name.to_owned()), branch, checksum)
}

/// A manifest document decodes when it is an object and its `workspace`
/// member, if any, is an object whose `addons` member, if any, is an object
/// of decodable entries and whose `userThirdParty` member, if any, is an
/// array of strings.
pub open spec fn doc_decodable(doc: serde_json::Value) -> bool {
    &&& json_is_object(doc)
    &&& match member_of(doc, "workspace"@) {
        Some(w) => {
            &&& json_is_object(w)
            &&& match member_of(w, "addons"@) {
                Some(ao) => {
                    &&& json_is_object(ao)
                    &&& forall|k: Seq<char>|
                        json_entries(ao).dom().contains(k) ==> entry_decodable(
                            k,
                            #[trigger] json_entries(ao)[k],
                        )
                },
                None => true,
            }
            &&& match member_of(w, "userThirdParty"@) {
                Some(ua) => {
                    &&& json_arr(ua) is Some
                    &&& forall|i: int|
                        0 <= i < json_arr(ua).unwrap().len() ==> json_str(
                            #[trigger] json_arr(ua).unwrap()[i],
                        ) is Some
                },
                None => true,
            }
        },
        None => true,
    }
}

/// What a manifest model loaded from `doc` holds: the document itself is
/// retained verbatim, the addon set mirrors the `workspace.addons` object
/// entry for entry, and the search list mirrors `workspace.userThirdParty`.
pub open spec fn decoded_ok(doc: serde_json::Value, m: LuaRc) -> bool {
    &&& m.doc == Some(doc)
    &&& doc_decodable(doc)
    &&& match member_of(doc, "workspace"@) {
        Some(w) => {
            &&& match member_of(w, "addons"@) {
                Some(ao) => {
                    &&& forall|i: int|
                        0 <= i < m.workspace.addons@.len() ==> {
                            let a = #[trigger] m.workspace.addons@[i];
                            json_entries(ao).dom().contains(a.name@) && entry_decoded(
                                a.name@,
                                json_entries(ao)[a.name@],
                                a,
                            )
                        }
                    &&& forall|k: Seq<char>|
                        #[trigger] json_entries(ao).dom().contains(k) ==> m.has_addon(k)
                },
                None => m.workspace.addons@.len() == 0,
            }
            &&& match member_of(w, "userThirdParty"@) {
                Some(ua) => {
                    &&& m.workspace.user_third_party@.len() == json_arr(ua).unwrap().len()
                    &&& forall|i: int|
                        0 <= i < m.workspace.user_third_party@.len() ==> Some(
                            (#[trigger] m.workspace.user_third_party@[i])@,
                        ) == json_str(json_arr(ua).unwrap()[i])
                },
                None => m.workspace.user_third_party@.len() == 0,
            }
        },
        None => m.workspace.addons@.len() == 0 && m.workspace.user_third_party@.len() == 0,
    }
}

/// The member names the codec owns are pairwise distinct.
pub proof fn lemma_keys_distinct()
    ensures
        "source"@ != "branch"@,
        "source"@ != "checksum"@,
        "branch"@ != "checksum"@,
        "workspace"@ != "addons"@,
        "workspace"@ != "userThirdParty"@,
        "addons"@ != "userThirdParty"@,
{
    reveal_strlit("source");
    reveal_strlit("branch");
    reveal_strlit("checksum");
    reveal_strlit("workspace");
    reveal_strlit("addons");
    reveal_strlit("userThirdParty");
    assert("source"@.len() == 6);
    assert("branch"@.len() == 6);
    assert("checksum"@.len() == 8);
    assert("workspace"@.len() == 9);
    assert("addons"@.len() == 6);
    assert("userThirdParty"@.len() == 14);
    assert("source"@[0] == 's');
    assert("branch"@[0] == 'b');
    assert("addons"@[0] == 'a');
    assert("source"@ != "branch"@) by {
        if "source"@ == "branch"@ {
            assert("source"@[0] == "branch"@[0]);
        }
    }
    assert("workspace"@ != "addons"@);
}

/// The members of the retained document, empty for a fresh manifest.
pub open spec fn doc_entries_of(m: LuaRc) -> Map<Seq<char>, serde_json::Value> {
    match m.doc {
        Some(d) => json_entries(d),
        None => no_entries(),
    }
}

/// The members of the retained `workspace` object.
pub open spec fn ws_base(m: LuaRc) -> Map<Seq<char>, serde_json::Value> {
    member_obj_entries(doc_entries_of(m), "workspace"@)
}

/// The members of the retained `workspace.addons` object.
pub open spec fn addons_base(m: LuaRc) -> Map<Seq<char>, serde_json::Value> {
    member_obj_entries(ws_base(m), "addons"@)
}

/// The retained members of the entry named `n`.
pub open spec fn entry_base(m: LuaRc, n: Seq<char>) -> Map<Seq<char>, serde_json::Value> {
    member_obj_entries(addons_base(m), n)
}

/// Whether `k` is the name of one of the addons in `s`.
pub open spec fn addon_name_in(s: Seq<Addon>, k: Seq<char>) -> bool {
    exists|j: int| 0 <= j < s.len() && (#[trigger] s[j]).name@ == k
}

/// A written entry: `source` holds the source string, `branch` and
/// `checksum` are present exactly where declared, and every other member it
/// had before the save keeps its value.
pub open spec fn encoded_entry_ok(
    e: serde_json::Value,
    a: Addon,
    base: Map<Seq<char>, serde_json::Value>,
) -> bool {
    &&& json_is_object(e)
    &&& json_entries(e).dom().contains("source"@)
    &&& json_str(json_entries(e)["source"@]) == Some(spec_source_str(a.source))
    &&& (a.branch matches Some(b) ==> json_entries(e).dom().contains("branch"@) && json_str(
        json_entries(e)["branch"@],
    ) == Some(b@))
    &&& (a.branch is None ==> !json_entries(e).dom().contains("branch"@))
    &&& (a.checksum matches Some(c) ==> json_entries(e).dom().contains("checksum"@) && json_str(
        json_entries(e)["checksum"@],
    ) == Some(c@))
    &&& (a.checksum is None ==> !json_entries(e).dom().contains("checksum"@))
    &&& json_entries(e).remove("source"@).remove("branch"@).remove("checksum"@) == base.remove(
        "source"@,
    ).remove("branch"@).remove("checksum"@)
}

/// A written search list: an array of the list's strings, in order.
pub open spec fn utp_encoded(v: serde_json::Value, utp: Seq<String>) -> bool {
    &&& json_arr(v) is Some
    &&& json_arr(v).unwrap().len() == utp.len()
    &&& forall|i: int|
        0 <= i < utp.len() ==> json_str(#[trigger] json_arr(v).unwrap()[i]) == Some(utp[i]@)
}

/// What a saved manifest document holds: `workspace.addons` mirrors the
/// addon set entry for entry and `workspace.userThirdParty` the search
/// list, while every other member of the document, of the workspace, and of
/// each kept entry keeps the value it was loaded with.
pub open spec fn encoded_ok(m: LuaRc, r: serde_json::Value) -> bool {
    &&& json_is_object(r)
    &&& json_entries(r).dom().contains("workspace"@)
    &&& json_entries(r).remove("workspace"@) == doc_entries_of(m).remove("workspace"@)
    &&& {
        let w = json_entries(r)["workspace"@];
        &&& json_is_object(w)
        &&& json_entries(w).dom().contains("addons"@)
        &&& json_entries(w).remove("addons"@).remove("userThirdParty"@) == ws_base(m).remove(
            "addons"@,
        ).remove("userThirdParty"@)
        &&& (m.workspace.user_third_party@.len() > 0 ==> json_entries(w).dom().contains(
            "userThirdParty"@,
        ) && utp_encoded(json_entries(w)["userThirdParty"@], m.workspace.user_third_party@))
        &&& (m.workspace.user_third_party@.len() == 0 ==> !json_entries(w).dom().contains(
            "userThirdParty"@,
        ))
        &&& {
            let ao = json_entries(w)["addons"@];
            &&& json_is_object(ao)
            &&& forall|k: Seq<char>|
                #[trigger] json_entries(ao).dom().contains(k) <==> m.has_addon(k)
            &&& forall|i: int|
                0 <= i < m.workspace.addons@.len() ==> encoded_entry_ok(
                    json_entries(ao)[(#[trigger] m.workspace.addons@[i]).name@],
                    m.workspace.addons@[i],
                    entry_base(m, m.workspace.addons@[i].name@),
                )
        }
    }
}

/// Take a member out of an object, handing back the member itself when it
/// is an object and a fresh empty object otherwise.
fn take_member_object(v: &mut serde_json::Value, key: &str) -> (r: serde_json::Value)
    requires
        json_is_object(*old(v)),
    ensures
        json_is_object(*final(v)),
        json_entries(*final(v)) == json_entries(*old(v)).remove(key@),
        json_is_object(r),
        json_entries(r) == member_obj_entries(json_entries(*old(v)), key@),
{
    match json_remove(v, key) {
        Some(x) => {
            if json_is_obj(&x) {
                x
            } else {
                json_new_object()
            }
        },
        None => json_new_object(),
    }
}

/// Write an addon's declared fields into its entry object, leaving every
/// other member of the entry alone.
fn set_entry_fields(entry: &mut serde_json::Value, a: &Addon)
    requires
        json_is_object(*old(entry)),
    ensures
        encoded_entry_ok(*final(entry), *a, json_entries(*old(entry))),
{
    let sref: &String = match &a.source {
        AddonSource::Short(id) => id,
        AddonSource::Url(u) => u,
    };
    let _ = json_insert(entry, "source", json_string(sref.as_str()));
    match &a.branch {
        Some(b) => {
            let _ = json_insert(entry, "branch", json_string(b.as_str()));
        },
        None => {
            let _ = json_remove(entry, "branch");
        },
    }
    match &a.checksum {
        Some(c) => {
            let _ = json_insert(entry, "checksum", json_string(c.as_str()));
        },
        None => {
            let _ = json_remove(entry, "checksum");
        },
    }
    proof {
        lemma_keys_distinct();
        assert(json_entries(*entry).remove("source"@).remove("branch"@).remove("checksum"@)
            =~= json_entries(*old(entry)).remove("source"@).remove("branch"@).remove(
            "checksum"@,
        ));
    }
}

impl LuaRc {
    /// Load the manifest model out of a parsed document.  The document is
    /// retained whole, so that saving reproduces everything the engine does
    /// not touch.  Fails exactly on a document that does not decode.
    #[verifier::loop_isolation(false)]
    pub fn from_value(doc: serde_json::Value) -> (r: Result<LuaRc, Error>)
        ensures
            match r {
                Ok(m) => m.wf() && decoded_ok(doc, m),
                Err(_) => !doc_decodable(doc),
            },
    {
        if !json_is_obj(&doc) {
            return Err(Error::Json("manifest document is not an object".to_owned()));
        }
        let ghost gdoc = doc;
        let mut addons: Vec<Addon> = Vec::new();
        let mut user_third_party: Vec<String> = Vec::new();
        let w = match json_get(&doc, "workspace") {
            Some(w) => w,
            None => {
                let m = LuaRc {
                    workspace: Workspace { addons, user_third_party },
                    doc: Some(doc),
                };
                assert(member_of(gdoc, "workspace"@) is None);
                return Ok(m);
            },
        };
        let ghost gw = *w;
        assert(member_of(gdoc, "workspace"@) == Some(gw));
        if !json_is_obj(w) {
            return Err(Error::Json("workspace is not an object".to_owned()));
        }
        let ghost mut ao_member: Option<serde_json::Value> = None;
        let ghost mut gentries: Seq<(&String, &serde_json::Value)> = Seq::empty();
        match json_get(w, "addons") {
            Some(ao) => {
                proof {
                    ao_member = Some(*ao);
                }
                assert(member_of(gw, "addons"@) == Some(*ao));
                if !json_is_obj(ao) {
                    return Err(Error::Json("workspace.addons is not an object".to_owned()));
                }
                let entries = json_object_entries(ao);
                proof {
                    gentries = entries@;
                }
                let n = entries.len();
                let mut i: usize = 0;
                while i < n
                    invariant
                        n == entries@.len(),
                        i <= n,
                        json_is_object(*ao),
                        forall|j: int|
                            0 <= j < n ==> json_entries(*ao).contains_pair(
                                (#[trigger] entries@[j]).0@,
                                *entries@[j].1,
                            ),
                        forall|j: int, j2: int|
                            0 <= j < j2 < n ==> (#[trigger] entries@[j]).0@ != (
                            #[trigger] entries@[j2]).0@,
                        addons@.len() == i,
                        forall|j: int|
                            0 <= j < i ==> (#[trigger] addons@[j]).wf() && addons@[j].name@
                                == entries@[j].0@ && entry_decoded(
                                entries@[j].0@,
                                json_entries(*ao)[entries@[j].0@],
                                addons@[j],
                            ) && entry_decodable(
                                entries@[j].0@,
                                json_entries(*ao)[entries@[j].0@],
                            ),
                    decreases n - i,
                {
                    let (name, ev) = entries[i];
                    match decode_entry(name.as_str(), ev) {
                        Ok(a) => {
                            addons.push(a);
                        },
                        Err(e) => {
                            proof {
                                assert(json_entries(*ao).contains_pair(
                                    entries@[i as int].0@,
                                    *entries@[i as int].1,
                                ));
                                assert(!entry_decodable(
                                    entries@[i as int].0@,
                                    json_entries(*ao)[entries@[i as int].0@],
                                ));
                                assert(!doc_decodable(gdoc));
                            }
                            return Err(e);
                        },
                    }
                    i += 1;
                }
            },
            None => {
                assert(member_of(gw, "addons"@) is None);
            },
        }
        let ghost mut ua_member: Option<serde_json::Value> = None;
        let ghost mut gitems: Seq<serde_json::Value> = Seq::empty();
        match json_get(w, "userThirdParty") {
            Some(ua) => {
                proof {
                    ua_member = Some(*ua);
                }
                assert(member_of(gw, "userThirdParty"@) == Some(*ua));
                match json_as_array(ua) {
                    Some(items) => {
                        proof {
                            gitems = items@;
                        }
                        let n = items.len();
                        let mut i: usize = 0;
                        while i < n
                            invariant
                                n == items@.len(),
                                i <= n,
                                json_arr(*ua) == Some(items@),
                                user_third_party@.len() == i,
                                forall|j: int|
                                    0 <= j < i ==> Some((#[trigger] user_third_party@[j])@)
                                        == json_str(items@[j]),
                            decreases n - i,
                        {
                            match json_as_str(&items[i]) {
                                Some(s) => {
                                    user_third_party.push(s.to_owned());
                                },
                                None => {
                                    proof {
                                        assert(json_str(json_arr(*ua).unwrap()[i as int]) is None);
                                        assert(!doc_decodable(gdoc));
                                    }
                                    return Err(
                                        Error::Json(
                                            "workspace.userThirdParty holds a non-string".to_owned(),
                                        ),
                                    );
                                },
                            }
                            i += 1;
                        }
                    },
                    None => {
                        return Err(
                            Error::Json("workspace.userThirdParty is not an array".to_owned()),
                        );
                    },
                }
            },
            None => {
                assert(member_of(gw, "userThirdParty"@) is None);
            },
        }
        let m = LuaRc { workspace: Workspace { addons, user_third_party }, doc: Some(doc) };
        proof {
            assert(names_distinct(m.workspace.addons@));
            assert(crate::lua_rc::all_wf(m.workspace.addons@));
            match ao_member {
                Some(gao) => {
                    assert(member_of(gw, "addons"@) == Some(gao));
                    assert forall|k: Seq<char>| #[trigger] json_entries(gao).dom().contains(
                        k,
                    ) implies entry_decodable(k, json_entries(gao)[k]) && m.has_addon(k) by {
                        let j = choose|j: int|
                            0 <= j < gentries.len() && (#[trigger] gentries[j]).0@ == k;
                        assert(json_entries(gao).contains_pair(gentries[j].0@, *gentries[j].1));
                        assert(m.workspace.addons@[j].name@ == k);
                        assert(entry_decodable(gentries[j].0@, json_entries(gao)[gentries[j].0@]));
                        assert(m.has_addon(k));
                    }
                },
                None => {
                    assert(member_of(gw, "addons"@) is None);
                    assert(m.workspace.addons@.len() == 0);
                },
            }
            match ua_member {
                Some(gua) => {
                    assert(member_of(gw, "userThirdParty"@) == Some(gua));
                    assert(json_arr(gua) is Some);
                    assert forall|i: int|
                        0 <= i < json_arr(gua).unwrap().len() implies json_str(
                            #[trigger] json_arr(gua).unwrap()[i],
                        ) is Some by {
                        assert(json_arr(gua).unwrap() == gitems);
                        assert(json_str(gitems[i]) == Some(user_third_party@[i]@));
                    }
                },
                None => {
                    assert(member_of(gw, "userThirdParty"@) is None);
                    assert(m.workspace.user_third_party@.len() == 0);
                },
            }
            assert(doc_decodable(gdoc));
            assert(decoded_ok(gdoc, m));
        }
        Ok(m)
    }

    /// Parse manifest text and load the model out of it.
    pub fn from_json_str(s: &str) -> (r: Result<LuaRc, Error>)
        ensures
            match r {
                Ok(m) => m.wf() && (parsed_json(s@) matches Some(d) && decoded_ok(d, m)),
                Err(_) => match parsed_json(s@) {
                    Some(d) => !doc_decodable(d),
                    None => true,
                },
            },
    {
        match json_parse(s) {
            Ok(doc) => LuaRc::from_value(doc),
            Err(e) => Err(Error::Json(e)),
        }
    }

    /// Write the manifest model back into a document: the retained document
    /// with `workspace.addons` and `workspace.userThirdParty` replaced by
    /// the model's state and everything else untouched; see [`encoded_ok`].
    #[verifier::loop_isolation(false)]
    pub fn into_value(self) -> (r: serde_json::Value)
        requires
            self.wf(),
        ensures
            encoded_ok(self, r),
    {
        proof {
            lemma_keys_distinct();
        }
        let ghost m = self;
        let LuaRc { workspace, doc } = self;
        let Workspace { addons, user_third_party } = workspace;
        let mut doc = match doc {
            Some(d) => d,
            None => json_new_object(),
        };
        let ghost doc_base = json_entries(doc);
        let mut ws = take_member_object(&mut doc, "workspace");
        let mut old_addons = take_member_object(&mut ws, "addons");
        let ghost base0 = json_entries(old_addons);
        proof {
            assert(doc_base == doc_entries_of(m));
            assert(json_entries(ws) == ws_base(m).remove("addons"@));
            assert(base0 =~= addons_base(m)) by {
                assert(json_entries(ws).dom() =~= ws_base(m).dom().remove("addons"@));
            }
        }
        let mut addons_obj = json_new_object();
        let n = addons.len();
        let mut i: usize = 0;
        while i < n
            invariant
                i <= n,
                n == addons@.len(),
                json_is_object(old_addons),
                json_is_object(addons_obj),
                forall|k: Seq<char>|
                    #[trigger] json_entries(old_addons).dom().contains(k) <==> (base0.dom().contains(
                        k,
                    ) && !addon_name_in(addons@.take(i as int), k)),
                forall|k: Seq<char>|
                    json_entries(old_addons).dom().contains(k)
                        ==> #[trigger] json_entries(old_addons)[k] == base0[k],
                forall|k: Seq<char>|
                    #[trigger] json_entries(addons_obj).dom().contains(k) <==> addon_name_in(
                        addons@.take(i as int),
                        k,
                    ),
                forall|j: int|
                    0 <= j < i ==> encoded_entry_ok(
                        json_entries(addons_obj)[(#[trigger] addons@[j]).name@],
                        addons@[j],
                        member_obj_entries(base0, addons@[j].name@),
                    ),
            decreases n - i,
        {
            let a = &addons[i];
            let ghost pre_old = json_entries(old_addons);
            let ghost pre_obj = json_entries(addons_obj);
            proof {
                assert(!addon_name_in(addons@.take(i as int), a.name@)) by {
                    if addon_name_in(addons@.take(i as int), a.name@) {
                        let j = choose|j: int|
                            0 <= j < i && (#[trigger] addons@.take(i as int)[j]).name@ == a.name@;
                        assert(addons@[j].name@ == addons@[i as int].name@);
                    }
                }
                assert(member_obj_entries(pre_old, a.name@) =~= member_obj_entries(
                    base0,
                    a.name@,
                ));
            }
            let mut entry = take_member_object(&mut old_addons, a.name.as_str());
            set_entry_fields(&mut entry, a);
            let _ = json_insert(&mut addons_obj, a.name.as_str(), entry);
            proof {
                assert(addons@.take(i + 1) == addons@.take(i as int).push(addons@[i as int]));
                assert forall|k: Seq<char>| true implies (addon_name_in(addons@.take(i + 1), k)
                    <==> (addon_name_in(addons@.take(i as int), k) || k == a.name@)) by {
                    if addon_name_in(addons@.take(i + 1), k) {
                        let j = choose|j: int|
                            0 <= j < i + 1 && (#[trigger] addons@.take(i + 1)[j]).name@ == k;
                        if j < i {
                            assert(addons@.take(i as int)[j].name@ == k);
                        }
                    }
                    if addon_name_in(addons@.take(i as int), k) {
                        let j = choose|j: int|
                            0 <= j < i && (#[trigger] addons@.take(i as int)[j]).name@ == k;
                        assert(addons@.take(i + 1)[j].name@ == k);
                    }
                    if k == a.name@ {
                        assert(addons@.take(i + 1)[i as int].name@ == k);
                    }
                }
                assert forall|j: int| 0 <= j < i + 1 implies encoded_entry_ok(
                    json_entries(addons_obj)[(#[trigger] addons@[j]).name@],
                    addons@[j],
                    member_obj_entries(base0, addons@[j].name@),
                ) by {
                    if j < i {
                        assert(addons@[j].name@ != a.name@) by {
                            if addons@[j].name@ == a.name@ {
                                crate::lua_rc::lemma_unique_name_index(
                                    addons@,
                                    a.name@,
                                    j,
                                    i as int,
                                );
                            }
                        }
                        assert(json_entries(addons_obj)[addons@[j].name@]
                            == pre_obj[addons@[j].name@]);
                    }
                }
            }
            i += 1;
        }
        proof {
            assert(addons@.take(n as int) == addons@);
        }
        let _ = json_insert(&mut ws, "addons", addons_obj);
        if user_third_party.len() > 0 {
            let mut items: Vec<serde_json::Value> = Vec::new();
            let un = user_third_party.len();
            let mut j: usize = 0;
            while j < un
                invariant
                    j <= un,
                    un == user_third_party@.len(),
                    items@.len() == j,
                    forall|x: int|
                        0 <= x < j ==> json_str(#[trigger] items@[x]) == Some(
                            user_third_party@[x]@,
                        ),
                decreases un - j,
            {
                items.push(json_string(user_third_party[j].as_str()));
                j += 1;
            }
            let _ = json_insert(&mut ws, "userThirdParty", json_array(items));
        } else {
            let _ = json_remove(&mut ws, "userThirdParty");
        }
        proof {
            assert(json_entries(ws).remove("addons"@).remove("userThirdParty"@) =~= ws_base(
                m,
            ).remove("addons"@).remove("userThirdParty"@));
        }
        let _ = json_insert(&mut doc, "workspace", ws);
        proof {
            assert(json_entries(doc).remove("workspace"@) =~= doc_entries_of(m).remove(
                "workspace"@,
            ));
            assert(json_entries(doc)["workspace"@] == ws);
        }
        doc
    }

    /// Render the manifest as indented JSON text.
    pub fn to_json_string(self) -> (r: String)
        requires
            self.wf(),
        ensures
            exists|v: serde_json::Value|
                encoded_ok(self, v) && r@ == crate::json::pretty_json(v),
    {
        let v = self.into_value();
        crate::json::json_pretty(&v)
    }
}

/// Unknown top-level members ride through a save: every member of the
/// loaded document other than `workspace` keeps its value in the saved one.
pub proof fn lemma_unknown_fields_round_trip(m: LuaRc, out: serde_json::Value, k: Seq<char>)
    requires
        encoded_ok(m, out),
        k != "workspace"@,
    ensures
        json_entries(out).dom().contains(k) == doc_entries_of(m).dom().contains(k),
        json_entries(out).dom().contains(k) ==> json_entries(out)[k] == doc_entries_of(m)[k],
{
    assert(json_entries(out).remove("workspace"@).dom().contains(k) == doc_entries_of(m).remove(
        "workspace"@,
    ).dom().contains(k));
    if json_entries(out).dom().contains(k) {
        assert(json_entries(out).remove("workspace"@)[k] == json_entries(out)[k]);
        assert(doc_entries_of(m).remove("workspace"@)[k] == doc_entries_of(m)[k]);
    }
}

/// Unknown workspace members ride through a save: every member of the
/// loaded `workspace` object other than `addons` and `userThirdParty`
/// keeps its value in the saved one.
pub proof fn lemma_unknown_workspace_fields(m: LuaRc, out: serde_json::Value, k: Seq<char>)
    requires
        encoded_ok(m, out),
        k != "addons"@,
        k != "userThirdParty"@,
    ensures
        json_entries(json_entries(out)["workspace"@]).dom().contains(k) == ws_base(
            m,
        ).dom().contains(k),
        json_entries(json_entries(out)["workspace"@]).dom().contains(k) ==> json_entries(
            json_entries(out)["workspace"@],
        )[k] == ws_base(m)[k],
{
    let w = json_entries(out)["workspace"@];
    assert(json_entries(w).remove("addons"@).remove("userThirdParty"@).dom().contains(k)
        == ws_base(m).remove("addons"@).remove("userThirdParty"@).dom().contains(k));
    if json_entries(w).dom().contains(k) {
        assert(json_entries(w).remove("addons"@).remove("userThirdParty"@)[k] == json_entries(
            w,
        )[k]);
        assert(ws_base(m).remove("addons"@).remove("userThirdParty"@)[k] == ws_base(m)[k]);
    }
}

/// The source's tag agrees with its string form: explicit URLs look like
/// URLs and short identifiers do not.  Every source a parser or the codec
/// builds satisfies this.
pub open spec fn source_tag_ok(src: AddonSource) -> bool {
    match src {
        AddonSource::Url(u) => spec_is_url(u@),
        AddonSource::Short(id) => !spec_is_url(id@),
    }
}

/// A saved entry decodes back to the addon it was written from: saving and
/// re-loading a manifest reproduces its addon set entry for entry.
pub proof fn lemma_entry_round_trip(m: LuaRc, out: serde_json::Value, i: int)
    requires
        m.wf(),
        encoded_ok(m, out),
        0 <= i < m.workspace.addons@.len(),
        source_tag_ok(m.workspace.addons@[i].source),
    ensures
        ({
            let a = m.workspace.addons@[i];
            let e = json_entries(json_entries(json_entries(out)["workspace"@])["addons"@])[a.name@];
            entry_decodable(a.name@, e) && entry_decoded(a.name@, e, a)
        }),
{
    let a = m.workspace.addons@[i];
    let e = json_entries(json_entries(json_entries(out)["workspace"@])["addons"@])[a.name@];
    assert(encoded_entry_ok(e, a, entry_base(m, a.name@)));
    assert(a.wf());
    lemma_keys_distinct();
}

/// Unknown entry members ride through a save: every member of a kept
/// entry's loaded object other than `source`, `branch` and `checksum`
/// keeps its value in the saved entry.
pub proof fn lemma_unknown_entry_fields(
    m: LuaRc,
    out: serde_json::Value,
    i: int,
    k: Seq<char>,
)
    requires
        encoded_ok(m, out),
        0 <= i < m.workspace.addons@.len(),
        k != "source"@,
        k != "branch"@,
        k != "checksum"@,
    ensures
        ({
            let e = json_entries(json_entries(json_entries(out)["workspace"@])["addons"@])[
                m.workspace.addons@[i].name@];
            &&& json_entries(e).dom().contains(k) == entry_base(
                m,
                m.workspace.addons@[i].name@,
            ).dom().contains(k)
            &&& json_entries(e).dom().contains(k) ==> json_entries(e)[k] == entry_base(
                m,
                m.workspace.addons@[i].name@,
            )[k]
        }),
{
    let name = m.workspace.addons@[i].name@;
    let e = json_entries(json_entries(json_entries(out)["workspace"@])["addons"@])[name];
    assert(encoded_entry_ok(e, m.workspace.addons@[i], entry_base(m, name)));
    assert(json_entries(e).remove("source"@).remove("branch"@).remove("checksum"@).dom().contains(
        k,
    ) == entry_base(m, name).remove("source"@).remove("branch"@).remove(
        "checksum"@,
    ).dom().contains(k));
    if json_entries(e).dom().contains(k) {
        assert(json_entries(e).remove("source"@).remove("branch"@).remove("checksum"@)[k]
            == json_entries(e)[k]);
        assert(entry_base(m, name).remove("source"@).remove("branch"@).remove("checksum"@)[k]
            == entry_base(m, name)[k]);
    }
}

} // verus!
