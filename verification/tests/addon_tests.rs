use llam::addon::{Addon, AddonSource};

#[test]
fn short_source_resolves_into_addon_organisation() {
    let src = AddonSource::Short(String::from("lovr"));
    assert_eq!(src.clone_url(), "https://github.com/LLS-Addons/lovr.git");
    assert_eq!(src.name(), "lovr");
}

#[test]
fn short_source_with_owner_resolves_into_hosting_site() {
    let src = AddonSource::Short(String::from("someone/love2d"));
    assert_eq!(src.clone_url(), "https://github.com/someone/love2d.git");
    assert_eq!(src.name(), "love2d");
}

#[test]
fn url_source_keeps_url_and_derives_name() {
    let src = AddonSource::Url(String::from("https://example.com/things/busted.git"));
    assert_eq!(src.clone_url(), "https://example.com/things/busted.git");
    assert_eq!(src.name(), "busted");
}

#[test]
fn url_source_without_git_suffix() {
    let src = AddonSource::Url(String::from("https://example.com/things/busted"));
    assert_eq!(src.name(), "busted");
}

#[test]
fn parse_distinguishes_urls_from_short_identifiers() {
    let a = Addon::parse("https://example.com/owner/repo.git").unwrap();
    assert!(matches!(a.source, AddonSource::Url(_)));
    assert_eq!(a.name, "repo");

    let b = Addon::parse("git@example.com:owner/repo.git").unwrap();
    assert!(matches!(b.source, AddonSource::Url(_)));

    let c = Addon::parse("lovr").unwrap();
    assert!(matches!(c.source, AddonSource::Short(_)));
    assert_eq!(c.name, "lovr");
    assert!(c.branch.is_none());
    assert!(c.checksum.is_none());
}

#[test]
fn parse_rejects_unsafe_names() {
    assert!(Addon::parse("").is_err());
    assert!(Addon::parse("bad name").is_err());
    assert!(Addon::parse("https://example.com/owner/").is_err());
    assert!(Addon::parse(".").is_err());
    assert!(Addon::parse("..").is_err());
}

#[test]
fn explicit_name_wins_over_derived_name() {
    let a = Addon::new(
        AddonSource::Short(String::from("lovr")),
        Some(String::from("renamed")),
        None,
        None,
    )
    .unwrap();
    assert_eq!(a.name, "renamed");
}

#[test]
fn merge_keeps_fields_the_declaration_leaves_unset() {
    let mut entry = Addon::new(
        AddonSource::Short(String::from("lovr")),
        None,
        None,
        Some(String::from("abc123")),
    )
    .unwrap();
    let declaration = Addon::new(
        AddonSource::Short(String::from("lovr")),
        None,
        Some(String::from("dev")),
        None,
    )
    .unwrap();
    entry.merge(&declaration);
    assert_eq!(entry.name, "lovr");
    assert_eq!(entry.branch.as_deref(), Some("dev"));
    assert_eq!(entry.checksum.as_deref(), Some("abc123"));
}

#[test]
fn merge_overwrites_fields_the_declaration_sets() {
    let mut entry = Addon::new(
        AddonSource::Short(String::from("lovr")),
        None,
        Some(String::from("main")),
        Some(String::from("abc123")),
    )
    .unwrap();
    let declaration = Addon::new(
        AddonSource::Short(String::from("lovr")),
        None,
        Some(String::from("dev")),
        Some(String::from("def456")),
    )
    .unwrap();
    entry.merge(&declaration);
    assert_eq!(entry.branch.as_deref(), Some("dev"));
    assert_eq!(entry.checksum.as_deref(), Some("def456"));
}

#[test]
fn same_target_compares_name_branch_and_checksum() {
    let a = Addon::new(AddonSource::Short(String::from("x")), None, None, None).unwrap();
    let b = Addon::new(
        AddonSource::Url(String::from("https://example.com/other/x.git")),
        None,
        None,
        None,
    )
    .unwrap();
    assert!(a.same_target(&b));
    let c = Addon::new(
        AddonSource::Short(String::from("x")),
        None,
        Some(String::from("dev")),
        None,
    )
    .unwrap();
    assert!(!a.same_target(&c));
}
