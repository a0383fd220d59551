use llam::addon::{Addon, AddonSource};
use llam::git::{GitStep, ResetType};
use llam::lua_rc::LuaRc;
use llam::manager::{
    classify_scan_entry, decide_update, drift, follow_latest_steps, update_steps, Manager,
    ScanAction, SomeOrAll, UpdateDecision,
};

fn addon(name: &str, branch: Option<&str>, checksum: Option<&str>) -> Addon {
    Addon::new(
        AddonSource::Short(String::from(name)),
        None,
        branch.map(String::from),
        checksum.map(String::from),
    )
    .unwrap()
}

fn manager_with(addons: Vec<Addon>) -> Manager {
    let mut config = LuaRc::new_empty();
    for a in addons {
        config.update_addon(a);
    }
    Manager::new(String::from("/proj"), config)
}

#[test]
fn declared_branch_differs_switches_and_pulls() {
    // An addon at revision R1 on branch "main" with `{branch: "dev"}`
    // declared: fetch, switch to "dev", pull, and stop there.
    let a = addon("fixture", Some("dev"), None);
    let d = decide_update(&a, "main", "main", "r1");
    assert_eq!(d, UpdateDecision::SwitchToDeclared(String::from("dev")));
    let steps = update_steps(&d, &a.checksum);
    assert_eq!(
        steps,
        vec![
            GitStep::Fetch,
            GitStep::Switch(String::from("dev")),
            GitStep::Pull(false),
        ]
    );
}

#[test]
fn declared_branch_with_checksum_pins_after_pull() {
    let a = addon("fixture", Some("dev"), Some("abc123"));
    let d = decide_update(&a, "main", "main", "r1");
    assert_eq!(d, UpdateDecision::SwitchToDeclared(String::from("dev")));
    let steps = update_steps(&d, &a.checksum);
    assert_eq!(steps.len(), 4);
    assert_eq!(steps[3], GitStep::ResetHard(String::from("abc123")));
}

#[test]
fn no_declared_branch_off_default_switches_back() {
    let a = addon("fixture", None, None);
    let d = decide_update(&a, "feature", "main", "r1");
    assert_eq!(d, UpdateDecision::SwitchToDefault(String::from("main")));
    let steps = update_steps(&d, &a.checksum);
    assert_eq!(
        steps,
        vec![
            GitStep::Fetch,
            GitStep::Switch(String::from("main")),
            GitStep::Pull(false),
        ]
    );
}

#[test]
fn pinned_checksum_convergence() {
    // Declared `{checksum: "abc123"}`, current revision "def456", current
    // branch equal to the default: one fetch and one hard reset.
    let a = addon("fixture", None, Some("abc123"));
    let d = decide_update(&a, "main", "main", "def456");
    assert_eq!(d, UpdateDecision::PinChecksum(String::from("abc123")));
    let steps = update_steps(&d, &a.checksum);
    assert_eq!(
        steps,
        vec![GitStep::Fetch, GitStep::ResetHard(String::from("abc123"))]
    );
    // A second run with the revision now at the pin does nothing.
    let d2 = decide_update(&a, "main", "main", "abc123");
    assert_eq!(d2, UpdateDecision::UpToDate);
    assert!(update_steps(&d2, &a.checksum).is_empty());
}

#[test]
fn unpinned_on_default_branch_follows_the_remote_tip() {
    let a = addon("fixture", None, None);
    let d = decide_update(&a, "main", "main", "r1");
    assert_eq!(d, UpdateDecision::FollowLatest);
    assert!(update_steps(&d, &a.checksum).is_empty());
    assert_eq!(
        follow_latest_steps("r2", "r1"),
        vec![GitStep::Fetch, GitStep::ResetHard(String::from("r2"))]
    );
    assert!(follow_latest_steps("r1", "r1").is_empty());
}

#[test]
fn drift_reports_branch_or_checksum_differences() {
    let a = addon("fixture", Some("dev"), Some("abc"));
    assert!(!drift(&a, &Some(String::from("dev")), &Some(String::from("abc"))));
    assert!(drift(&a, &Some(String::from("main")), &Some(String::from("abc"))));
    assert!(drift(&a, &Some(String::from("dev")), &Some(String::from("zzz"))));
    // A failed observation counts as no drift, as does an undeclared field.
    assert!(!drift(&a, &None, &None));
    let b = addon("fixture", None, None);
    assert!(!drift(&b, &Some(String::from("main")), &Some(String::from("zzz"))));
}

#[test]
fn add_is_a_fresh_install_only_without_directory_or_entry() {
    let mut m = manager_with(vec![]);
    // First add: no entry yet, so a fresh install even with a directory.
    assert!(m.add_begin(addon("lovr", None, None), true));
    // Second add of the same declaration with the directory in place: no clone.
    assert!(!m.add_begin(addon("lovr", None, None), true));
    // A missing directory forces a re-install even with an entry.
    assert!(m.add_begin(addon("lovr", None, None), false));
}

#[test]
fn clone_plan_uses_checksum_or_fresh_token_for_the_temp_dir() {
    let m = manager_with(vec![addon("pinned", None, Some("abc123")), addon("loose", None, None)]);
    let p = m.clone_plan("pinned").unwrap();
    assert_eq!(p.temp_name, "abc123");
    assert_eq!(p.url, "https://github.com/LLS-Addons/pinned.git");
    assert_eq!(p.dest_name, "pinned");
    let q = m.clone_plan("loose").unwrap();
    assert_eq!(q.temp_name.len(), 36);
    assert!(m.clone_plan("unknown").is_none());
}

#[test]
fn checkout_path_joins_root_addons_dir_and_name() {
    let m = manager_with(vec![]);
    assert_eq!(m.checkout_path("lovr"), "/proj/addons/lovr");
}

#[test]
fn remove_all_clears_the_manifest() {
    let mut m = manager_with(vec![
        addon("a", None, None),
        addon("b", None, None),
        addon("c", None, None),
    ]);
    let names = m.target_names(&SomeOrAll::All);
    assert_eq!(names, vec!["a", "b", "c"]);
    m.remove_entries(&names);
    assert!(m.config.get_addons().is_empty());
}

#[test]
fn remove_listed_removes_only_those() {
    let mut m = manager_with(vec![addon("a", None, None), addon("b", None, None)]);
    let sel = SomeOrAll::Listed(vec![addon("a", None, None), addon("missing", None, None)]);
    let names = m.target_names(&sel);
    m.remove_entries(&names);
    let left: Vec<&str> = m.config.get_addons().iter().map(|a| a.name.as_str()).collect();
    assert_eq!(left, vec!["b"]);
}

#[test]
fn clean_deletes_exactly_the_unknown_checkouts() {
    // Checkouts {a, b, c} with manifest keys {a, c}: exactly b is deleted.
    let m = manager_with(vec![addon("a", None, None), addon("c", None, None)]);
    let on_disk = vec![String::from("a"), String::from("b"), String::from("c")];
    assert_eq!(m.orphans(&on_disk), vec!["b"]);
}

#[test]
fn scan_classification_matches_the_bootstrap_rules() {
    assert_eq!(
        classify_scan_entry(true, true, false, Some(String::from("sha1"))),
        ScanAction::Register(String::from("sha1"))
    );
    assert_eq!(classify_scan_entry(true, true, false, Some(String::new())), ScanAction::Skip);
    assert_eq!(classify_scan_entry(true, true, false, None), ScanAction::Skip);
    assert_eq!(classify_scan_entry(false, true, false, None), ScanAction::RemoveInvalid);
    assert_eq!(classify_scan_entry(false, false, true, None), ScanAction::RemoveInvalid);
    assert_eq!(classify_scan_entry(false, false, false, None), ScanAction::Skip);
}

#[test]
fn register_third_party_appends_exactly_once() {
    let mut m = manager_with(vec![]);
    m.config.register_third_party();
    assert_eq!(m.config.workspace.user_third_party, vec!["addons"]);
    m.config.register_third_party();
    assert_eq!(m.config.workspace.user_third_party, vec!["addons"]);
}

#[test]
fn reset_type_flag_words() {
    assert_eq!(ResetType::Soft.flag(), "soft");
    assert_eq!(ResetType::Hard.flag(), "hard");
}
