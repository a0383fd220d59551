use llam::addon::{Addon, AddonSource};
use llam::lua_rc::LuaRc;

fn addon(name: &str, branch: Option<&str>, checksum: Option<&str>) -> Addon {
    Addon::new(
        AddonSource::Short(String::from(name)),
        None,
        branch.map(String::from),
        checksum.map(String::from),
    )
    .unwrap()
}

#[test]
fn update_addon_appends_new_names() {
    let mut m = LuaRc::new_empty();
    m.update_addon(addon("a", None, None));
    m.update_addon(addon("b", Some("dev"), None));
    assert_eq!(m.get_addons().len(), 2);
    assert!(m.contains_addon("a"));
    assert!(m.contains_addon("b"));
    assert!(!m.contains_addon("c"));
}

#[test]
fn update_addon_merges_existing_entries_without_losing_fields() {
    let mut m = LuaRc::new_empty();
    m.update_addon(addon("a", None, Some("abc123")));
    // A later declaration that only sets the branch keeps the checksum.
    m.update_addon(addon("a", Some("dev"), None));
    assert_eq!(m.get_addons().len(), 1);
    let a = m.get_addon("a").unwrap();
    assert_eq!(a.branch.as_deref(), Some("dev"));
    assert_eq!(a.checksum.as_deref(), Some("abc123"));
}

#[test]
fn remove_addon_removes_only_that_entry() {
    let mut m = LuaRc::new_empty();
    m.update_addon(addon("a", None, None));
    m.update_addon(addon("b", None, None));
    assert!(m.remove_addon("a"));
    assert!(!m.remove_addon("a"));
    assert!(!m.contains_addon("a"));
    assert!(m.contains_addon("b"));
}

#[test]
fn addon_names_come_in_manifest_order() {
    let mut m = LuaRc::new_empty();
    m.update_addon(addon("z", None, None));
    m.update_addon(addon("a", None, None));
    assert_eq!(m.addon_names(), vec!["z", "a"]);
}
