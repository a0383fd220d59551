use llam::addon::{Addon, AddonSource};
use llam::json::json_pretty;
use llam::lua_rc::LuaRc;

const DOC: &str = r#"{
  "$schema": "https://example.com/schema.json",
  "completion": { "enable": false, "customKey": 7 },
  "workspace": {
    "library": ["lib"],
    "maxPreload": 4000,
    "userThirdParty": ["addons"],
    "addons": {
      "lovr": {
        "source": "lovr",
        "checksum": "abc123",
        "note": "kept by hand"
      },
      "busted": {
        "source": "https://example.com/owner/busted.git",
        "branch": "dev"
      }
    }
  }
}"#;

fn reparse(text: &str) -> serde_json::Value {
    serde_json::from_str(text).unwrap()
}

#[test]
fn load_reads_entries_and_search_list() {
    let m = LuaRc::from_json_str(DOC).unwrap();
    assert_eq!(m.get_addons().len(), 2);
    let lovr = m.get_addon("lovr").unwrap();
    assert!(matches!(lovr.source, AddonSource::Short(_)));
    assert_eq!(lovr.checksum.as_deref(), Some("abc123"));
    assert_eq!(lovr.branch, None);
    let busted = m.get_addon("busted").unwrap();
    assert!(matches!(busted.source, AddonSource::Url(_)));
    assert_eq!(busted.branch.as_deref(), Some("dev"));
    assert_eq!(m.workspace.user_third_party, vec!["addons"]);
}

#[test]
fn unknown_fields_round_trip_unchanged() {
    // Loading and immediately re-saving reproduces every unrecognised
    // top-level, workspace-level and entry-level member.
    let m = LuaRc::from_json_str(DOC).unwrap();
    let v = m.into_value();
    let out = reparse(&json_pretty(&v));
    let orig = reparse(DOC);

    assert_eq!(out.get("$schema"), orig.get("$schema"));
    assert_eq!(out.get("completion"), orig.get("completion"));
    let ws_out = out.get("workspace").unwrap();
    let ws_orig = orig.get("workspace").unwrap();
    assert_eq!(ws_out.get("library"), ws_orig.get("library"));
    assert_eq!(ws_out.get("maxPreload"), ws_orig.get("maxPreload"));
    assert_eq!(ws_out.get("userThirdParty"), ws_orig.get("userThirdParty"));
    let lovr_out = ws_out.get("addons").unwrap().get("lovr").unwrap();
    assert_eq!(
        lovr_out.get("note").and_then(|v| v.as_str()),
        Some("kept by hand")
    );
    assert_eq!(lovr_out.get("checksum").and_then(|v| v.as_str()), Some("abc123"));
    assert_eq!(lovr_out.get("branch"), None);
    // The whole document is reproduced value for value.
    assert_eq!(out, orig);
}

#[test]
fn updates_show_up_in_the_saved_document_without_touching_the_rest() {
    let mut m = LuaRc::from_json_str(DOC).unwrap();
    m.update_addon(
        Addon::new(
            AddonSource::Short(String::from("lovr")),
            None,
            Some(String::from("dev")),
            None,
        )
        .unwrap(),
    );
    let out = reparse(&json_pretty(&m.into_value()));
    let lovr = out
        .get("workspace")
        .unwrap()
        .get("addons")
        .unwrap()
        .get("lovr")
        .unwrap();
    assert_eq!(lovr.get("branch").and_then(|v| v.as_str()), Some("dev"));
    // The merge kept the pinned checksum, and the unknown member survived.
    assert_eq!(lovr.get("checksum").and_then(|v| v.as_str()), Some("abc123"));
    assert_eq!(lovr.get("note").and_then(|v| v.as_str()), Some("kept by hand"));
    // Unrelated members are untouched.
    assert_eq!(out.get("completion"), reparse(DOC).get("completion"));
}

#[test]
fn removed_entries_leave_the_saved_addons_object() {
    let mut m = LuaRc::from_json_str(DOC).unwrap();
    assert!(m.remove_addon("busted"));
    let out = reparse(&json_pretty(&m.into_value()));
    let addons = out.get("workspace").unwrap().get("addons").unwrap();
    assert!(addons.get("busted").is_none());
    assert!(addons.get("lovr").is_some());
}

#[test]
fn fresh_manifest_saves_a_complete_document() {
    let mut m = LuaRc::new_empty();
    m.update_addon(
        Addon::new(AddonSource::Short(String::from("lovr")), None, None, None).unwrap(),
    );
    m.register_third_party();
    let out = reparse(&json_pretty(&m.into_value()));
    let ws = out.get("workspace").unwrap();
    assert!(ws.get("addons").unwrap().get("lovr").is_some());
    assert_eq!(
        ws.get("userThirdParty").unwrap().as_array().unwrap().len(),
        1
    );
}

#[test]
fn empty_search_list_is_omitted() {
    let m = LuaRc::new_empty();
    let out = reparse(&json_pretty(&m.into_value()));
    assert!(out.get("workspace").unwrap().get("userThirdParty").is_none());
}

#[test]
fn malformed_documents_are_rejected() {
    assert!(LuaRc::from_json_str("not json").is_err());
    assert!(LuaRc::from_json_str("[1, 2]").is_err());
    assert!(LuaRc::from_json_str(r#"{"workspace": 3}"#).is_err());
    assert!(LuaRc::from_json_str(r#"{"workspace": {"addons": []}}"#).is_err());
    assert!(LuaRc::from_json_str(r#"{"workspace": {"addons": {"a": {"branch": 1}}}}"#).is_err());
    assert!(LuaRc::from_json_str(r#"{"workspace": {"userThirdParty": "addons"}}"#).is_err());
    assert!(LuaRc::from_json_str(r#"{"workspace": {"addons": {"bad name": {}}}}"#).is_err());
}

#[test]
fn missing_source_member_falls_back_to_the_entry_name() {
    let m = LuaRc::from_json_str(r#"{"workspace": {"addons": {"lovr": {}}}}"#).unwrap();
    let a = m.get_addon("lovr").unwrap();
    assert!(matches!(a.source, AddonSource::Short(ref s) if s == "lovr"));
}
