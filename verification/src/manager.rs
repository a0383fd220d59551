//! The reconciliation engine's decision logic: for each addon, what the
//! add, update, remove and clean operations must do, stated over the
//! manifest model and the branch/revision observations that the caller
//! gathers from the checkout.  The surrounding binary executes the planned
//! version-control and file-system actions and feeds their outcomes back.

use vstd::prelude::*;

use crate::addon::{opt_str_view, spec_source_url, Addon};
use crate::git::GitStep;
use crate::lua_rc::LuaRc;
use crate::strutil::str_eq;

verus! {

/// A desired-state selector: an explicit list of addons, or every addon the
/// manifest currently knows.
pub enum SomeOrAll<S> {
    Listed(Vec<S>),
    All,
}

/// What an update run must do for one addon; first match wins.
#[derive(Debug, Clone, PartialEq, Eq)]
pub enum UpdateDecision {
    /// A branch is declared and the checkout sits on another: fetch, switch
    /// to it, pull, and pin afterwards if a checksum is also declared.
    SwitchToDeclared(String),
    /// No branch is declared and the checkout left the default branch:
    /// fetch, switch back to the default, pull, and pin if declared.
    SwitchToDefault(String),
    /// On the intended branch but not at the declared revision: fetch and
    /// hard-reset to it.
    PinChecksum(String),
    /// On the intended branch with no pin: the remote tip of the default
    /// branch must be consulted; see [`follow_latest_steps`].
    FollowLatest,
    /// Already at the declared revision: nothing to do.
    UpToDate,
}

/// The shape of an update decision, stripped of its payload.
#[derive(Debug, Clone, Copy, PartialEq, Eq)]
pub enum DecisionKind {
    SwitchDeclared,
    SwitchDefault,
    Pin,
    Follow,
    NoAction,
}

/// The kind of decision a value of [`UpdateDecision`] carries.
pub open spec fn decision_kind(d: UpdateDecision) -> DecisionKind {
    match d {
        UpdateDecision::SwitchToDeclared(_) => DecisionKind::SwitchDeclared,
        UpdateDecision::SwitchToDefault(_) => DecisionKind::SwitchDefault,
        UpdateDecision::PinChecksum(_) => DecisionKind::Pin,
        UpdateDecision::FollowLatest => DecisionKind::Follow,
        UpdateDecision::UpToDate => DecisionKind::NoAction,
    }
}

/// The tail of the decision tree, reached once the checkout is on the
/// intended branch: pin to a differing declared checksum, follow the remote
/// tip when nothing is pinned, do nothing when the pin already holds.
pub open spec fn spec_decide_pinned(
    declared_checksum: Option<Seq<char>>,
    current_revision: Seq<char>,
) -> DecisionKind {
    match declared_checksum {
        Some(c) => if c != current_revision {
            DecisionKind::Pin
        } else {
            DecisionKind::NoAction
        },
        None => DecisionKind::Follow,
    }
}

/// The update decision tree, evaluated in order, first match winning: a
/// declared branch that differs from the current one wins over everything;
/// with no declared branch, a checkout away from the default branch is
/// brought back; otherwise the declared checksum decides.
pub open spec fn spec_decide(
    declared_branch: Option<Seq<char>>,
    declared_checksum: Option<Seq<char>>,
    current_branch: Seq<char>,
    default_branch: Seq<char>,
    current_revision: Seq<char>,
) -> DecisionKind {
    match declared_branch {
        Some(b) => if b != current_branch {
            DecisionKind::SwitchDeclared
        } else {
            spec_decide_pinned(declared_checksum, current_revision)
        },
        None => if current_branch != default_branch {
            DecisionKind::SwitchDefault
        } else {
            spec_decide_pinned(declared_checksum, current_revision)
        },
    }
}

/// Decide what an update run must do for one addon, from its declaration
/// and the observed state of its checkout.
pub fn decide_update(
    declared: &Addon,
    current_branch: &str,
    default_branch: &str,
    current_revision: &str,
) -> (d: UpdateDecision)
    ensures
        decision_kind(d) == spec_decide(
            opt_str_view(declared.branch),
            opt_str_view(declared.checksum),
            current_branch@,
            default_branch@,
            current_revision@,
        ),
        (d matches UpdateDecision::SwitchToDeclared(x) ==> Some(x@) == opt_str_view(
            declared.branch,
        )),
        (d matches UpdateDecision::SwitchToDefault(x) ==> x@ == default_branch@),
        (d matches UpdateDecision::PinChecksum(x) ==> Some(x@) == opt_str_view(declared.checksum)),
{
    match &declared.branch {
        Some(b) => {
            if !str_eq(b.as_str(), current_branch) {
                return UpdateDecision::SwitchToDeclared(b.clone());
            }
        },
        None => {
            if !str_eq(current_branch, default_branch) {
                return UpdateDecision::SwitchToDefault(default_branch.to_owned());
            }
        },
    }
    match &declared.checksum {
        Some(c) => if !str_eq(c.as_str(), current_revision) {
            UpdateDecision::PinChecksum(c.clone())
        } else {
            UpdateDecision::UpToDate
        },
        None => UpdateDecision::FollowLatest,
    }
}

/// The steps of a branch-switching plan: fetch, switch to the branch, pull,
/// then hard-reset when a checksum is declared.
pub open spec fn switch_steps_ok(s: Seq<GitStep>, b: Seq<char>, c: Option<Seq<char>>) -> bool {
    &&& s.len() == (if c is Some {
        4int
    } else {
        3int
    })
    &&& s[0] is Fetch
    &&& (s[1] matches GitStep::Switch(x) && x@ == b)
    &&& (s[2] matches GitStep::Pull(f) && f == false)
    &&& (c matches Some(cv) ==> (s[3] matches GitStep::ResetHard(x) && x@ == cv))
}

/// The ordered version-control sub-steps that carry a decision out.  A
/// [`UpdateDecision::FollowLatest`] plan is empty here: the remote tip must
/// first be consulted, and [`follow_latest_steps`] finishes the plan.
pub fn update_steps(d: &UpdateDecision, declared_checksum: &Option<String>) -> (r: Vec<GitStep>)
    ensures
        (d matches UpdateDecision::SwitchToDeclared(b) ==> switch_steps_ok(
            r@,
            b@,
            opt_str_view(*declared_checksum),
        )),
        (d matches UpdateDecision::SwitchToDefault(b) ==> switch_steps_ok(
            r@,
            b@,
            opt_str_view(*declared_checksum),
        )),
        (d matches UpdateDecision::PinChecksum(c) ==> r@.len() == 2 && r@[0] is Fetch && (r@[1]
            matches GitStep::ResetHard(x) && x@ == c@)),
        d is FollowLatest ==> r@.len() == 0,
        d is UpToDate ==> r@.len() == 0,
{
    let mut r: Vec<GitStep> = Vec::new();
    match d {
        UpdateDecision::SwitchToDeclared(b) => {
            r.push(GitStep::Fetch);
            r.push(GitStep::Switch(b.clone()));
            r.push(GitStep::Pull(false));
            if let Some(c) = declared_checksum {
                r.push(GitStep::ResetHard(c.clone()));
            }
        },
        UpdateDecision::SwitchToDefault(b) => {
            r.push(GitStep::Fetch);
            r.push(GitStep::Switch(b.clone()));
            r.push(GitStep::Pull(false));
            if let Some(c) = declared_checksum {
                r.push(GitStep::ResetHard(c.clone()));
            }
        },
        UpdateDecision::PinChecksum(c) => {
            r.push(GitStep::Fetch);
            r.push(GitStep::ResetHard(c.clone()));
        },
        UpdateDecision::FollowLatest => {},
        UpdateDecision::UpToDate => {},
    }
    r
}

/// Finish a follow-the-default-branch plan once the remote tip is known: a
/// tip that differs from the current revision is fetched and hard-reset to;
/// an equal tip needs no action.
pub fn follow_latest_steps(latest: &str, current_revision: &str) -> (r: Vec<GitStep>)
    ensures
        latest@ != current_revision@ ==> r@.len() == 2 && r@[0] is Fetch && (r@[1]
            matches GitStep::ResetHard(x) && x@ == latest@),
        latest@ == current_revision@ ==> r@.len() == 0,
{
    let mut r: Vec<GitStep> = Vec::new();
    if !str_eq(latest, current_revision) {
        r.push(GitStep::Fetch);
        r.push(GitStep::ResetHard(latest.to_owned()));
    }
    r
}

/// Pinned-checksum convergence: when an update decides to hard-reset to the
/// declared checksum and that reset succeeds, the checkout sits at that
/// revision, and a second evaluation of the same declaration decides no
/// action — no further fetch or reset.
pub proof fn lemma_pin_convergence(
    declared_branch: Option<Seq<char>>,
    declared_checksum: Seq<char>,
    current_branch: Seq<char>,
    default_branch: Seq<char>,
    current_revision: Seq<char>,
)
    requires
        spec_decide(
            declared_branch,
            Some(declared_checksum),
            current_branch,
            default_branch,
            current_revision,
        ) == DecisionKind::Pin,
    ensures
        spec_decide(
            declared_branch,
            Some(declared_checksum),
            current_branch,
            default_branch,
            declared_checksum,
        ) == DecisionKind::NoAction,
{
}

/// Whether a branch drift is observed: a branch is declared and the
/// observed current branch differs.  A failed observation counts as no
/// drift.
pub open spec fn spec_branch_diff(declared: Addon, observed: Option<Seq<char>>) -> bool {
    match (opt_str_view(declared.branch), observed) {
        (Some(b), Some(ob)) => ob != b,
        _ => false,
    }
}

/// Whether a checksum drift is observed: a checksum is declared and the
/// observed current revision differs.  A failed observation counts as no
/// drift.
pub open spec fn spec_checksum_diff(declared: Addon, observed: Option<Seq<char>>) -> bool {
    match (opt_str_view(declared.checksum), observed) {
        (Some(c), Some(oc)) => oc != c,
        _ => false,
    }
}

/// Drift between a declaration and the observed checkout: the declared
/// branch or the declared checksum is present and differs from what is on
/// disk.  Add reports this as an available update; it does not act on it.
pub fn drift(
    declared: &Addon,
    observed_branch: &Option<String>,
    observed_revision: &Option<String>,
) -> (r: bool)
    ensures
        r == (spec_branch_diff(*declared, opt_str_view(*observed_branch)) || spec_checksum_diff(
            *declared,
            opt_str_view(*observed_revision),
        )),
{
    let branch_diff = match (&declared.branch, observed_branch) {
        (Some(b), Some(ob)) => !str_eq(ob.as_str(), b.as_str()),
        _ => false,
    };
    let checksum_diff = match (&declared.checksum, observed_revision) {
        (Some(c), Some(oc)) => !str_eq(oc.as_str(), c.as_str()),
        _ => false,
    };
    branch_diff || checksum_diff
}

/// A fresh install is due when the checkout directory is missing or the
/// manifest has no entry for the name.
pub open spec fn spec_fresh_install(m: LuaRc, a: Addon, dir_exists: bool) -> bool {
    !dir_exists || !m.has_addon(a.name@)
}

/// Add is idempotent on disk: once an addon's entry is in the manifest and
/// its checkout directory exists, a second add of the same declaration is
/// not a fresh install, so it clones nothing.
pub proof fn lemma_add_idempotent(m: LuaRc, a: Addon, dir_exists: bool)
    requires
        m.has_addon(a.name@),
        dir_exists,
    ensures
        !spec_fresh_install(m, a, dir_exists),
{
}

/// The plan for cloning one addon afresh: where to clone from, the
/// temporary directory name keyed by the pinned checksum (or a freshly
/// generated token when none is pinned), and the directory the checkout
/// finally lives in.
#[derive(Debug, Clone, PartialEq, Eq)]
pub struct ClonePlan {
    pub url: String,
    pub temp_name: String,
    pub dest_name: String,
}

/// Relies on uuid::Uuid::now_v7 and its `Display` form: a fresh token in
/// the 36-character hyphenated format.  The value depends on the clock, so
/// nothing is assumed of it beyond its length.
#[verifier::external_body]
fn fresh_token() -> (r: String)
    ensures
        r@.len() == 36,
{
    uuid::Uuid::now_v7().to_string()
}

/// What the first manifest creation does with one entry found in the
/// addons directory.
#[derive(Debug, Clone, PartialEq, Eq)]
pub enum ScanAction {
    /// A checkout carrying the marker files, whose revision could be read:
    /// register it in the fresh manifest pinned to that revision.
    Register(String),
    /// Not a recognisable checkout: delete it as invalid.
    RemoveInvalid,
    /// A checkout whose revision could not be read: leave it and report.
    Skip,
}

/// Classify one entry of the addons directory while a manifest is created
/// for the first time: an entry with both marker files registers under its
/// observed revision when a non-empty one was read and is otherwise left
/// reported; any other directory or file there is deleted as invalid.
pub fn classify_scan_entry(
    has_markers: bool,
    is_dir: bool,
    is_file: bool,
    observed_revision: Option<String>,
) -> (r: ScanAction)
    ensures
        (has_markers && (observed_revision matches Some(c) && c@.len() > 0)) ==> (r
            matches ScanAction::Register(x) && Some(x@) == opt_str_view(observed_revision)),
        (has_markers && !(observed_revision matches Some(c) && c@.len() > 0)) ==> r is Skip,
        (!has_markers && (is_dir || is_file)) ==> r is RemoveInvalid,
        (!has_markers && !is_dir && !is_file) ==> r is Skip,
{
    if has_markers {
        match observed_revision {
            Some(c) => {
                if c.as_str().unicode_len() > 0 {
                    ScanAction::Register(c)
                } else {
                    ScanAction::Skip
                }
            },
            None => ScanAction::Skip,
        }
    } else if is_dir || is_file {
        ScanAction::RemoveInvalid
    } else {
        ScanAction::Skip
    }
}

/// Whether `n` occurs among the views of `names`.
pub open spec fn name_in(names: Seq<String>, n: Seq<char>) -> bool {
    exists|i: int| 0 <= i < names.len() && (#[trigger] names[i])@ == n
}

/// The reconciliation engine's state for one run: the project root and the
/// manifest document it owns for the duration of the operation.
pub struct Manager {
    pub base: String,
    pub config: LuaRc,
}

impl Manager {
    /// Take ownership of a loaded manifest for one reconciliation run.
    pub fn new(base: String, config: LuaRc) -> (r: Manager)
        requires
            config.wf(),
        ensures
            r.base == base,
            r.config == config,
    {
        Manager { base, config }
    }

    /// The checkout directory of the addon named `name`.
    pub fn checkout_path(&self, name: &str) -> (r: String)
        ensures
            r@ == self.base@ + "/"@ + crate::spec_addons_dir() + "/"@ + name@,
    {
        let mut r = self.base.clone();
        r.append("/");
        r.append(crate::addons_dir());
        r.append("/");
        r.append(name);
        r
    }

    /// The first half of adding one addon: merge the declaration into the
    /// manifest unconditionally, and report whether a fresh install is due
    /// (the checkout directory is missing or the manifest had no entry).
    pub fn add_begin(&mut self, addon: Addon, dir_exists: bool) -> (fresh: bool)
        requires
            old(self).config.wf(),
            addon.wf(),
        ensures
            final(self).config.wf(),
            fresh == spec_fresh_install(old(self).config, addon, dir_exists),
            final(self).config.addon_map() == (if old(self).config.has_addon(addon.name@) {
                old(self).config.addon_map().insert(
                    addon.name@,
                    crate::addon::spec_merge(old(self).config.addon_map()[addon.name@], addon),
                )
            } else {
                old(self).config.addon_map().insert(addon.name@, addon)
            }),
            final(self).config.has_addon(addon.name@),
            final(self).config.workspace.user_third_party == old(
                self,
            ).config.workspace.user_third_party,
            final(self).config.doc == old(self).config.doc,
            final(self).base == old(self).base,
    {
        let fresh = !dir_exists || !self.config.contains_addon(addon.name.as_str());
        self.config.update_addon(addon);
        fresh
    }

    /// The clone plan for the manifest entry named `name`: clone from the
    /// entry's source URL into a temporary directory keyed by its checksum,
    /// or by a fresh token when no checksum is pinned; the checkout is then
    /// moved into place under the entry's name.  An addon the manifest does
    /// not know is not cloned.
    pub fn clone_plan(&self, name: &str) -> (r: Option<ClonePlan>)
        requires
            self.config.wf(),
        ensures
            match r {
                Some(p) => {
                    &&& self.config.has_addon(name@)
                    &&& p.url@ == spec_source_url(self.config.addon_map()[name@].source)
                    &&& (self.config.addon_map()[name@].checksum matches Some(c) ==> p.temp_name@
                        == c@)
                    &&& p.dest_name@ == self.config.addon_map()[name@].name@
                },
                None => !self.config.has_addon(name@),
            },
    {
        match self.config.get_addon(name) {
            Some(addon) => {
                let temp_name = match &addon.checksum {
                    Some(c) => c.clone(),
                    None => fresh_token(),
                };
                Some(
                    ClonePlan {
                        url: addon.clone_url(),
                        temp_name,
                        dest_name: addon.name.clone(),
                    },
                )
            },
            None => None,
        }
    }

    /// The names an update or removal run targets: the listed addons' names,
    /// or every name in the manifest.
    pub fn target_names(&self, sel: &SomeOrAll<Addon>) -> (r: Vec<String>)
        ensures
            match sel {
                SomeOrAll::Listed(list) => r@.len() == list@.len() && forall|i: int|
                    0 <= i < r@.len() ==> (#[trigger] r@[i])@ == list@[i].name@,
                SomeOrAll::All => r@.len() == self.config.workspace.addons@.len() && forall|i: int|
                    0 <= i < r@.len() ==> (#[trigger] r@[i])@
                        == self.config.workspace.addons@[i].name@,
            },
    {
        match sel {
            SomeOrAll::Listed(list) => {
                let n = list.len();
                let mut r: Vec<String> = Vec::new();
                let mut i: usize = 0;
                while i < n
                    invariant
                        n == list@.len(),
                        i <= n,
                        r@.len() == i,
                        forall|j: int| 0 <= j < i ==> (#[trigger] r@[j])@ == list@[j].name@,
                    decreases n - i,
                {
                    r.push(list[i].name.clone());
                    i += 1;
                }
                r
            },
            SomeOrAll::All => self.config.addon_names(),
        }
    }

    /// Remove the manifest entries of every listed name.  Entries of other
    /// names, the search list and the retained document are untouched.
    pub fn remove_entries(&mut self, names: &Vec<String>)
        requires
            old(self).config.wf(),
        ensures
            final(self).config.wf(),
            forall|n: Seq<char>|
                #[trigger] final(self).config.has_addon(n) <==> (old(self).config.has_addon(n)
                    && !name_in(names@, n)),
            forall|n: Seq<char>|
                final(self).config.has_addon(n) ==> #[trigger] final(self).config.addon_map()[n]
                    == old(self).config.addon_map()[n],
            final(self).config.workspace.user_third_party == old(
                self,
            ).config.workspace.user_third_party,
            final(self).config.doc == old(self).config.doc,
            final(self).base == old(self).base,
    {
        let ghost pre = *self;
        let n = names.len();
        let mut i: usize = 0;
        while i < n
            invariant
                n == names@.len(),
                i <= n,
                self.config.wf(),
                self.base == pre.base,
                self.config.workspace.user_third_party == pre.config.workspace.user_third_party,
                self.config.doc == pre.config.doc,
                forall|m: Seq<char>|
                    #[trigger] self.config.has_addon(m) <==> (pre.config.has_addon(m) && !name_in(
                        names@.take(i as int),
                        m,
                    )),
                forall|m: Seq<char>|
                    self.config.has_addon(m) ==> #[trigger] self.config.addon_map()[m]
                        == pre.config.addon_map()[m],
            decreases n - i,
        {
            let ghost before = *self;
            self.config.remove_addon(names[i].as_str());
            proof {
                assert forall|m: Seq<char>| #[trigger] self.config.has_addon(m) implies (
                pre.config.has_addon(m) && !name_in(names@.take(i + 1), m)) by {
                    assert(before.config.has_addon(m) && m != names@[i as int]@);
                    assert forall|k: int| 0 <= k < i + 1 implies (#[trigger] names@.take(
                        i + 1,
                    )[k])@ != m by {
                        assert(names@.take(i + 1)[k] == names@[k]);
                        if k < i {
                            assert(names@.take(i as int)[k] == names@[k]);
                        }
                    }
                }
                assert forall|m: Seq<char>|
                    pre.config.has_addon(m) && !name_in(names@.take(i + 1), m) implies #[trigger] self.config.has_addon(
                    m,
                ) by {
                    assert forall|k: int| 0 <= k < i implies (#[trigger] names@.take(
                        i as int,
                    )[k])@ != m by {
                        assert(names@.take(i + 1)[k] == names@[k]);
                        assert(names@.take(i as int)[k] == names@[k]);
                    }
                    assert(names@.take(i + 1)[i as int] == names@[i as int]);
                    assert(m != names@[i as int]@);
                }
            }
            i += 1;
        }
        proof {
            assert(names@.take(n as int) == names@);
        }
    }

    /// Remove-all leaves nothing: when the targeted names cover every entry
    /// in the manifest, removing them empties the addon set.
    pub proof fn lemma_remove_all_clears(pre: LuaRc, post: LuaRc, names: Seq<String>)
        requires
            forall|n: Seq<char>|
                #[trigger] post.has_addon(n) <==> (pre.has_addon(n) && !name_in(names, n)),
            forall|n: Seq<char>| #[trigger] pre.has_addon(n) ==> name_in(names, n),
        ensures
            forall|n: Seq<char>| !(#[trigger] post.has_addon(n)),
            post.workspace.addons@.len() == 0,
    {
        if post.workspace.addons@.len() > 0 {
            assert(post.has_addon(post.workspace.addons@[0].name@));
        }
    }

    /// The orphans among the on-disk checkout directory entries: exactly
    /// those whose name no manifest entry bears, in scan order.  Clean
    /// deletes these and leaves every known checkout untouched.
    pub fn orphans(&self, on_disk: &Vec<String>) -> (r: Vec<String>)
        requires
            self.config.wf(),
        ensures
            forall|i: int|
                0 <= i < r@.len() ==> !self.config.has_addon((#[trigger] r@[i])@) && name_in(
                    on_disk@,
                    r@[i]@,
                ),
            forall|j: int|
                0 <= j < on_disk@.len() && !self.config.has_addon((#[trigger] on_disk@[j])@)
                    ==> name_in(r@, on_disk@[j]@),
    {
        let n = on_disk.len();
        let mut r: Vec<String> = Vec::new();
        let mut i: usize = 0;
        while i < n
            invariant
                n == on_disk@.len(),
                i <= n,
                self.config.wf(),
                forall|k: int|
                    0 <= k < r@.len() ==> !self.config.has_addon((#[trigger] r@[k])@) && name_in(
                        on_disk@,
                        r@[k]@,
                    ),
                forall|j: int|
                    0 <= j < i && !self.config.has_addon((#[trigger] on_disk@[j])@) ==> name_in(
                        r@,
                        on_disk@[j]@,
                    ),
            decreases n - i,
        {
            if !self.config.contains_addon(on_disk[i].as_str()) {
                let ghost rpre = r@;
                r.push(on_disk[i].clone());
                proof {
                    assert(r@[r@.len() - 1]@ == on_disk@[i as int]@);
                    assert(forall|k: int| 0 <= k < rpre.len() ==> r@[k] == rpre[k]);
                }
            }
            i += 1;
        }
        r
    }
}

} // verus!
