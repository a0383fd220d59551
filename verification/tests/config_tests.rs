use llam::cli::split_set;
use llam::config::{
    default_true, disabled, enabled, zero, CheckThirdParty, Severity,
};
use llam::diagnostics::{Ambiguity, Diagnostic, Luadoc, Unused};
use llam::error::Error;

#[test]
fn persistence_default_predicates() {
    assert!(enabled(&true));
    assert!(!enabled(&false));
    assert!(disabled(&false));
    assert!(!disabled(&true));
    assert!(zero(&0));
    assert!(!zero(&7));
    assert!(default_true());
}

#[test]
fn severity_parses_case_insensitively() {
    assert_eq!(Severity::parse("error").unwrap(), Severity::Error);
    assert_eq!(Severity::parse("ERROR").unwrap(), Severity::Error);
    assert_eq!(Severity::parse("Warning").unwrap(), Severity::Warning);
    assert_eq!(Severity::parse("information").unwrap(), Severity::Information);
    assert_eq!(Severity::parse("hint").unwrap(), Severity::Hint);
    assert_eq!(Severity::parse("Error!").unwrap(), Severity::ErrorBang);
    assert_eq!(Severity::parse("warning!").unwrap(), Severity::WarningBang);
    assert_eq!(Severity::parse("information!").unwrap(), Severity::InformationBang);
    assert_eq!(Severity::parse("HINT!").unwrap(), Severity::HintBang);
    assert!(Severity::parse("fatal").is_err());
    assert!(Severity::parse("").is_err());
}

#[test]
fn check_third_party_accepts_four_strings_and_false() {
    assert_eq!(CheckThirdParty::parse_str("Ask").unwrap(), CheckThirdParty::Ask);
    assert_eq!(CheckThirdParty::parse_str("Apply").unwrap(), CheckThirdParty::Apply);
    assert_eq!(
        CheckThirdParty::parse_str("ApplyInMemory").unwrap(),
        CheckThirdParty::ApplyInMemory
    );
    assert_eq!(CheckThirdParty::parse_str("Disable").unwrap(), CheckThirdParty::Disable);
    assert!(CheckThirdParty::parse_str("ask").is_err());
    assert!(CheckThirdParty::parse_str("other").is_err());
    assert_eq!(CheckThirdParty::from_bool(false).unwrap(), CheckThirdParty::False);
    assert!(CheckThirdParty::from_bool(true).is_err());
    assert_eq!(CheckThirdParty::Ask.as_setting_str(), Some("Ask"));
    assert_eq!(CheckThirdParty::False.as_setting_str(), None);
}

#[test]
fn diagnostics_parse_group_and_name() {
    assert_eq!(
        Diagnostic::parse("ambiguity:ambiguity-1").unwrap(),
        Diagnostic::Ambiguity(Ambiguity::Ambiguity1)
    );
    assert_eq!(
        Diagnostic::parse("ambiguity:count-down-loop").unwrap(),
        Diagnostic::Ambiguity(Ambiguity::CountDownLoop)
    );
    assert_eq!(
        Diagnostic::parse("unused:unused-local").unwrap(),
        Diagnostic::Unused(Unused::UnusedLocal)
    );
    // The one name the tool accepts in its non-kebab form.
    assert_eq!(
        Diagnostic::parse("luadoc:DuplicateDocField").unwrap(),
        Diagnostic::Luadoc(Luadoc::DuplicateDocField)
    );
    assert!(Diagnostic::parse("luadoc:duplicate-doc-field").is_err());
    assert!(Diagnostic::parse("no-colon-here").is_err());
    assert!(Diagnostic::parse("unknown:unused-local").is_err());
    assert!(Diagnostic::parse("unused:unknown").is_err());
}

#[test]
fn split_set_splits_at_the_first_equals() {
    let (k, v) = split_set("key=value").unwrap();
    assert_eq!(k, "key");
    assert_eq!(v, "value");
    let (k, v) = split_set("a=b=c").unwrap();
    assert_eq!(k, "a");
    assert_eq!(v, "b=c");
    assert!(split_set("no-equals").is_err());
}

#[test]
fn error_messages_carry_their_context_chain() {
    let inner = Error::custom(String::from("boom"));
    let outer = Error::context(String::from("cloning lovr"), inner);
    assert_eq!(outer.message(), "cloning lovr: boom");
}
