//! The diagnostics a project can enable, disable or re-rank, and the
//! verified parser for their `<group>:<name>` command-line form.

use vstd::prelude::*;

use crate::strutil::{find_char, str_eq};

verus! {

#[derive(Debug, Clone, Copy, PartialEq, Eq, PartialOrd, Ord, Hash)]
pub enum Ambiguity {
    Ambiguity1,
    CountDownLoop,
    DifferentRequires,
    NewfieldCall,
    NewlineCall,
}

#[derive(Debug, Clone, Copy, PartialEq, Eq, PartialOrd, Ord, Hash)]
pub enum Await {
    AwaitInSync,
    NotYieldable,
}

#[derive(Debug, Clone, Copy, PartialEq, Eq, PartialOrd, Ord, Hash)]
pub enum Codestyle {
    CodestyleCheck,
    NameStyleCheck,
    SpellCheck,
}

#[derive(Debug, Clone, Copy, PartialEq, Eq, PartialOrd, Ord, Hash)]
pub enum Conventions {
    GlobalElement,
}

#[derive(Debug, Clone, Copy, PartialEq, Eq, PartialOrd, Ord, Hash)]
pub enum Duplicate {
    DuplicateIndex,
    DuplicateSetField,
}

#[derive(Debug, Clone, Copy, PartialEq, Eq, PartialOrd, Ord, Hash)]
pub enum Global {
    GlobalInNilEnv,
    LowercaseGlobal,
    UndefinedEnvChild,
    UndefinedGlobal,
}

#[derive(Debug, Clone, Copy, PartialEq, Eq, PartialOrd, Ord, Hash)]
pub enum Luadoc {
    CastTypeMismatch,
    CircleDocClass,
    DocFieldNoClass,
    DuplicateDocAlias,
    DuplicateDocField,
    DuplicateDocParam,
    IncompleteSignatureDoc,
    MissingGlobalDoc,
    MissingLocalExportDoc,
    UndefinedDocClass,
    UndefinedDocName,
    UndefinedDocParam,
    UnknownCastVariable,
    UnknownDiagCode,
    UnknownOperator,
}

#[derive(Debug, Clone, Copy, PartialEq, Eq, PartialOrd, Ord, Hash)]
pub enum Redefined {
    RedefinedLocal,
}

#[derive(Debug, Clone, Copy, PartialEq, Eq, PartialOrd, Ord, Hash)]
pub enum Strict {
    CloseNonObject,
    Deprecated,
    DiscardReturns,
}

#[derive(Debug, Clone, Copy, PartialEq, Eq, PartialOrd, Ord, Hash)]
pub enum Strong {
    NoUnknown,
}

#[derive(Debug, Clone, Copy, PartialEq, Eq, PartialOrd, Ord, Hash)]
pub enum TypeCheck {
    AssignTypeMismatch,
    CastLocalType,
    CastTypeMismatch,
    InjectField,
    NeedCheckNil,
    ParamTypeMismatch,
    ReturnTypeMismatch,
    UndefinedField,
}

#[derive(Debug, Clone, Copy, PartialEq, Eq, PartialOrd, Ord, Hash)]
pub enum Unbalanced {
    MissingFields,
    MissingParameter,
    MissingReturn,
    MissingReturnValue,
    RedundantParameter,
    RedundantReturnValue,
    RedundantValue,
    UnbalancedAssignments,
}

#[derive(Debug, Clone, Copy, PartialEq, Eq, PartialOrd, Ord, Hash)]
pub enum Unused {
    CodeAfterBreak,
    EmptyBlock,
    RedundantReturn,
    TrailingSpace,
    UnreachableCode,
    UnusedFunction,
    UnusedLabel,
    UnusedLocal,
    UnusedVararg,
}

/// One diagnostic, tagged by its group.
#[derive(Debug, Clone, Copy, PartialEq, Eq, PartialOrd, Ord, Hash)]
pub enum Diagnostic {
    Ambiguity(Ambiguity),
    Await(Await),
    Codestyle(Codestyle),
    Conventions(Conventions),
    Duplicate(Duplicate),
    Global(Global),
    Luadoc(Luadoc),
    Redefined(Redefined),
    Strict(Strict),
    Strong(Strong),
    TypeCheck(TypeCheck),
    Unbalanced(Unbalanced),
    Unused(Unused),
}

/// The groups a diagnostic can belong to.
#[derive(Debug, Clone, Copy, PartialEq, Eq, PartialOrd, Ord, Hash)]
pub enum DiagnosticGroup {
    Ambiguity,
    Await,
    Codestyle,
    Conventions,
    Duplicate,
    Global,
    Luadoc,
    Redefined,
    Strict,
    Strong,
    TypeCheck,
    Unbalanced,
    Unused,
}

/// What a `<group>:<name>` pair parses to, `None` for any other pair.
/// The one non-kebab name under `luadoc` is as the tool accepts it.
pub open spec fn spec_parse_diag(group: Seq<char>, name: Seq<char>) -> Option<Diagnostic> {
    if group == "ambiguity"@ {
        if name == "ambiguity-1"@ {
            Some(Diagnostic::Ambiguity(Ambiguity::Ambiguity1))
        } else if name == "count-down-loop"@ {
            Some(Diagnostic::Ambiguity(Ambiguity::CountDownLoop))
        } else if name == "different-requires"@ {
            Some(Diagnostic::Ambiguity(Ambiguity::DifferentRequires))
        } else if name == "newfield-call"@ {
            Some(Diagnostic::Ambiguity(Ambiguity::NewfieldCall))
        } else if name == "newline-call"@ {
            Some(Diagnostic::Ambiguity(Ambiguity::NewlineCall))
        } else {
            None
        }
    } else if group == "await"@ {
        if name == "await-in-sync"@ {
            Some(Diagnostic::Await(Await::AwaitInSync))
        } else if name == "not-yieldable"@ {
            Some(Diagnostic::Await(Await::NotYieldable))
        } else {
            None
        }
    } else if group == "codestyle"@ {
        if name == "codestyle-check"@ {
            Some(Diagnostic::Codestyle(Codestyle::CodestyleCheck))
        } else if name == "name-style-check"@ {
            Some(Diagnostic::Codestyle(Codestyle::NameStyleCheck))
        } else if name == "spell-check"@ {
            Some(Diagnostic::Codestyle(Codestyle::SpellCheck))
        } else {
            None
        }
    } else if group == "conventions"@ {
        if name == "global-element"@ {
            Some(Diagnostic::Conventions(Conventions::GlobalElement))
        } else {
            None
        }
    } else if group == "duplicate"@ {
        if name == "duplicate-index"@ {
            Some(Diagnostic::Duplicate(Duplicate::DuplicateIndex))
        } else if name == "duplicate-set-field"@ {
            Some(Diagnostic::Duplicate(Duplicate::DuplicateSetField))
        } else {
            None
        }
    } else if group == "global"@ {
        if name == "global-in-nil-env"@ {
            Some(Diagnostic::Global(Global::GlobalInNilEnv))
        } else if name == "lowercase-global"@ {
            Some(Diagnostic::Global(Global::LowercaseGlobal))
        } else if name == "undefined-env-child"@ {
            Some(Diagnostic::Global(Global::UndefinedEnvChild))
        } else if name == "undefined-global"@ {
            Some(Diagnostic::Global(Global::UndefinedGlobal))
        } else {
            None
        }
    } else if group == "luadoc"@ {
        if name == "cast-type-mismatch"@ {
            Some(Diagnostic::Luadoc(Luadoc::CastTypeMismatch))
        } else if name == "circle-doc-class"@ {
            Some(Diagnostic::Luadoc(Luadoc::CircleDocClass))
        } else if name == "doc-field-no-class"@ {
            Some(Diagnostic::Luadoc(Luadoc::DocFieldNoClass))
        } else if name == "duplicate-doc-alias"@ {
            Some(Diagnostic::Luadoc(Luadoc::DuplicateDocAlias))
        } else if name == "DuplicateDocField"@ {
            Some(Diagnostic::Luadoc(Luadoc::DuplicateDocField))
        } else if name == "duplicate-doc-param"@ {
            Some(Diagnostic::Luadoc(Luadoc::DuplicateDocParam))
        } else if name == "incomplete-signature-doc"@ {
            Some(Diagnostic::Luadoc(Luadoc::IncompleteSignatureDoc))
        } else if name == "missing-global-doc"@ {
            Some(Diagnostic::Luadoc(Luadoc::MissingGlobalDoc))
        } else if name == "missing-local-export-doc"@ {
            Some(Diagnostic::Luadoc(Luadoc::MissingLocalExportDoc))
        } else if name == "undefined-doc-class"@ {
            Some(Diagnostic::Luadoc(Luadoc::UndefinedDocClass))
        } else if name == "undefined-doc-name"@ {
            Some(Diagnostic::Luadoc(Luadoc::UndefinedDocName))
        } else if name == "undefined-doc-param"@ {
            Some(Diagnostic::Luadoc(Luadoc::UndefinedDocParam))
        } else if name == "unknown-cast-variable"@ {
            Some(Diagnostic::Luadoc(Luadoc::UnknownCastVariable))
        } else if name == "unknown-diag-code"@ {
            Some(Diagnostic::Luadoc(Luadoc::UnknownDiagCode))
        } else if name == "unknown-operator"@ {
            Some(Diagnostic::Luadoc(Luadoc::UnknownOperator))
        } else {
            None
        }
    } else if group == "redefined"@ {
        if name == "redefined-local"@ {
            Some(Diagnostic::Redefined(Redefined::RedefinedLocal))
        } else {
            None
        }
    } else if group == "strict"@ {
        if name == "close-non-object"@ {
            Some(Diagnostic::Strict(Strict::CloseNonObject))
        } else if name == "deprecated"@ {
            Some(Diagnostic::Strict(Strict::Deprecated))
        } else if name == "discard-returns"@ {
            Some(Diagnostic::Strict(Strict::DiscardReturns))
        } else {
            None
        }
    } else if group == "strong"@ {
        if name == "no-unknown"@ {
            Some(Diagnostic::Strong(Strong::NoUnknown))
        } else {
            None
        }
    } else if group == "typecheck"@ {
        if name == "assign-type-mismatch"@ {
            Some(Diagnostic::TypeCheck(TypeCheck::AssignTypeMismatch))
        } else if name == "cast-local-type"@ {
            Some(Diagnostic::TypeCheck(TypeCheck::CastLocalType))
        } else if name == "cast-type-mismatch"@ {
            Some(Diagnostic::TypeCheck(TypeCheck::CastTypeMismatch))
        } else if name == "inject-field"@ {
            Some(Diagnostic::TypeCheck(TypeCheck::InjectField))
        } else if name == "need-check-nil"@ {
            Some(Diagnostic::TypeCheck(TypeCheck::NeedCheckNil))
        } else if name == "param-type-mismatch"@ {
            Some(Diagnostic::TypeCheck(TypeCheck::ParamTypeMismatch))
        } else if name == "return-type-mismatch"@ {
            Some(Diagnostic::TypeCheck(TypeCheck::ReturnTypeMismatch))
        } else if name == "undefined-field"@ {
            Some(Diagnostic::TypeCheck(TypeCheck::UndefinedField))
        } else {
            None
        }
    } else if group == "unbalanced"@ {
        if name == "missing-fields"@ {
            Some(Diagnostic::Unbalanced(Unbalanced::MissingFields))
        } else if name == "missing-parameter"@ {
            Some(Diagnostic::Unbalanced(Unbalanced::MissingParameter))
        } else if name == "missing-return"@ {
            Some(Diagnostic::Unbalanced(Unbalanced::MissingReturn))
        } else if name == "missing-return-value"@ {
            Some(Diagnostic::Unbalanced(Unbalanced::MissingReturnValue))
        } else if name == "redundant-parameter"@ {
            Some(Diagnostic::Unbalanced(Unbalanced::RedundantParameter))
        } else if name == "redundant-return-value"@ {
            Some(Diagnostic::Unbalanced(Unbalanced::RedundantReturnValue))
        } else if name == "redundant-value"@ {
            Some(Diagnostic::Unbalanced(Unbalanced::RedundantValue))
        } else if name == "unbalanced-assignments"@ {
            Some(Diagnostic::Unbalanced(Unbalanced::UnbalancedAssignments))
        } else {
            None
        }
    } else if group == "unused"@ {
        if name == "code-after-break"@ {
            Some(Diagnostic::Unused(Unused::CodeAfterBreak))
        } else if name == "empty-block"@ {
            Some(Diagnostic::Unused(Unused::EmptyBlock))
        } else if name == "redundant-return"@ {
            Some(Diagnostic::Unused(Unused::RedundantReturn))
        } else if name == "trailing-space"@ {
            Some(Diagnostic::Unused(Unused::TrailingSpace))
        } else if name == "unreachable-code"@ {
            Some(Diagnostic::Unused(Unused::UnreachableCode))
        } else if name == "unused-function"@ {
            Some(Diagnostic::Unused(Unused::UnusedFunction))
        } else if name == "unused-label"@ {
            Some(Diagnostic::Unused(Unused::UnusedLabel))
        } else if name == "unused-local"@ {
            Some(Diagnostic::Unused(Unused::UnusedLocal))
        } else if name == "unused-vararg"@ {
            Some(Diagnostic::Unused(Unused::UnusedVararg))
        } else {
            None
        }
    } else {
        None
    }
}

/// Position of the first `:` in `s`, or `-1` when there is none.
pub open spec fn first_colon(s: Seq<char>) -> int
    decreases s.len(),
{
    if s.len() == 0 {
        -1
    } else if s[0] == ':' {
        0
    } else if first_colon(s.drop_first()) == -1 {
        -1
    } else {
        first_colon(s.drop_first()) + 1
    }
}

pub proof fn lemma_first_colon(s: Seq<char>)
    ensures
        -1 <= first_colon(s) < s.len(),
        first_colon(s) >= 0 ==> s[first_colon(s)] == ':',
        forall|j: int| 0 <= j < first_colon(s) ==> #[trigger] s[j] != ':',
        first_colon(s) == -1 ==> forall|j: int| 0 <= j < s.len() ==> #[trigger] s[j] != ':',
    decreases s.len(),
{
    if s.len() == 0 {
    } else if s[0] == ':' {
    } else {
        lemma_first_colon(s.drop_first());
        let t = s.drop_first();
        assert forall|j: int| 0 <= j < first_colon(s) implies #[trigger] s[j] != ':' by {
            if j > 0 {
                assert(t[j - 1] == s[j]);
            }
        }
        if first_colon(s) == -1 {
            assert forall|j: int| 0 <= j < s.len() implies #[trigger] s[j] != ':' by {
                if j > 0 {
                    assert(t[j - 1] == s[j]);
                }
            }
        } else {
            assert(t[first_colon(t)] == s[first_colon(s)]);
        }
    }
}

/// What a diagnostic argument parses to: split at the first `:` into group
/// and name, `None` when there is no `:` or the pair is unknown.
pub open spec fn spec_parse_diag_str(s: Seq<char>) -> Option<Diagnostic> {
    if first_colon(s) == -1 {
        None
    } else {
        spec_parse_diag(s.take(first_colon(s)), s.skip(first_colon(s) + 1))
    }
}

impl Diagnostic {
    /// Parse the `<group>:<name>` command-line form of a diagnostic; fails
    /// on, and only on, a string without `:` or with an unknown pair.
    pub fn parse(s: &str) -> (r: Result<Diagnostic, String>)
        ensures
            match r {
                Ok(d) => spec_parse_diag_str(s@) == Some(d),
                Err(_) => spec_parse_diag_str(s@) is None,
            },
    {
        proof {
            lemma_first_colon(s@);
        }
        let i = match find_char(s, ':') {
            Some(i) => i,
            None => {
                assert(first_colon(s@) == -1) by {
                    if first_colon(s@) >= 0 {
                        assert(s@[first_colon(s@)] == ':');
                    }
                }
                return Err("diagnostics must be of the format of <group>:<name>".to_owned());
            },
        };
        assert(i == first_colon(s@)) by {
            let fc = first_colon(s@);
            if fc < i {
                assert(s@[fc] == ':');
            } else if i < fc {
                assert(s@[i as int] != ':');
            }
        }
        let n = s.unicode_len();
        let group = s.substring_char(0, i);
        let name = s.substring_char(i + 1, n);
        assert(group@ =~= s@.take(i as int));
        assert(name@ =~= s@.skip(i as int + 1));
        match parse_diag_parts(group, name) {
            Some(d) => Ok(d),
            None => Err("invalid lua diagnostic".to_owned()),
        }
    }
}

/// Look a split diagnostic argument up; mirrors [`spec_parse_diag`] branch
/// for branch.
#[verifier::rlimit(40)]
fn parse_diag_parts(group: &str, name: &str) -> (r: Option<Diagnostic>)
    ensures
        r == spec_parse_diag(group@, name@),
{
    if str_eq(group, "ambiguity") {
        if str_eq(name, "ambiguity-1") {
            Some(Diagnostic::Ambiguity(Ambiguity::Ambiguity1))
        } else if str_eq(name, "count-down-loop") {
            Some(Diagnostic::Ambiguity(Ambiguity::CountDownLoop))
        } else if str_eq(name, "different-requires") {
            Some(Diagnostic::Ambiguity(Ambiguity::DifferentRequires))
        } else if str_eq(name, "newfield-call") {
            Some(Diagnostic::Ambiguity(Ambiguity::NewfieldCall))
        } else if str_eq(name, "newline-call") {
            Some(Diagnostic::Ambiguity(Ambiguity::NewlineCall))
        } else {
            None
        }
    } else if str_eq(group, "await") {
        if str_eq(name, "await-in-sync") {
            Some(Diagnostic::Await(Await::AwaitInSync))
        } else if str_eq(name, "not-yieldable") {
            Some(Diagnostic::Await(Await::NotYieldable))
        } else {
            None
        }
    } else if str_eq(group, "codestyle") {
        if str_eq(name, "codestyle-check") {
            Some(Diagnostic::Codestyle(Codestyle::CodestyleCheck))
        } else if str_eq(name, "name-style-check") {
            Some(Diagnostic::Codestyle(Codestyle::NameStyleCheck))
        } else if str_eq(name, "spell-check") {
            Some(Diagnostic::Codestyle(Codestyle::SpellCheck))
        } else {
            None
        }
    } else if str_eq(group, "conventions") {
        if str_eq(name, "global-element") {
            Some(Diagnostic::Conventions(Conventions::GlobalElement))
        } else {
            None
        }
    } else if str_eq(group, "duplicate") {
        if str_eq(name, "duplicate-index") {
            Some(Diagnostic::Duplicate(Duplicate::DuplicateIndex))
        } else if str_eq(name, "duplicate-set-field") {
            Some(Diagnostic::Duplicate(Duplicate::DuplicateSetField))
        } else {
            None
        }
    } else if str_eq(group, "global") {
        if str_eq(name, "global-in-nil-env") {
            Some(Diagnostic::Global(Global::GlobalInNilEnv))
        } else if str_eq(name, "lowercase-global") {
            Some(Diagnostic::Global(Global::LowercaseGlobal))
        } else if str_eq(name, "undefined-env-child") {
            Some(Diagnostic::Global(Global::UndefinedEnvChild))
        } else if str_eq(name, "undefined-global") {
            Some(Diagnostic::Global(Global::UndefinedGlobal))
        } else {
            None
        }
    } else if str_eq(group, "luadoc") {
        if str_eq(name, "cast-type-mismatch") {
            Some(Diagnostic::Luadoc(Luadoc::CastTypeMismatch))
        } else if str_eq(name, "circle-doc-class") {
            Some(Diagnostic::Luadoc(Luadoc::CircleDocClass))
        } else if str_eq(name, "doc-field-no-class") {
            Some(Diagnostic::Luadoc(Luadoc::DocFieldNoClass))
        } else if str_eq(name, "duplicate-doc-alias") {
            Some(Diagnostic::Luadoc(Luadoc::DuplicateDocAlias))
        } else if str_eq(name, "DuplicateDocField") {
            Some(Diagnostic::Luadoc(Luadoc::DuplicateDocField))
        } else if str_eq(name, "duplicate-doc-param") {
            Some(Diagnostic::Luadoc(Luadoc::DuplicateDocParam))
        } else if str_eq(name, "incomplete-signature-doc") {
            Some(Diagnostic::Luadoc(Luadoc::IncompleteSignatureDoc))
        } else if str_eq(name, "missing-global-doc") {
            Some(Diagnostic::Luadoc(Luadoc::MissingGlobalDoc))
        } else if str_eq(name, "missing-local-export-doc") {
            Some(Diagnostic::Luadoc(Luadoc::MissingLocalExportDoc))
        } else if str_eq(name, "undefined-doc-class") {
            Some(Diagnostic::Luadoc(Luadoc::UndefinedDocClass))
        } else if str_eq(name, "undefined-doc-name") {
            Some(Diagnostic::Luadoc(Luadoc::UndefinedDocName))
        } else if str_eq(name, "undefined-doc-param") {
            Some(Diagnostic::Luadoc(Luadoc::UndefinedDocParam))
        } else if str_eq(name, "unknown-cast-variable") {
            Some(Diagnostic::Luadoc(Luadoc::UnknownCastVariable))
        } else if str_eq(name, "unknown-diag-code") {
            Some(Diagnostic::Luadoc(Luadoc::UnknownDiagCode))
        } else if str_eq(name, "unknown-operator") {
            Some(Diagnostic::Luadoc(Luadoc::UnknownOperator))
        } else {
            None
        }
    } else if str_eq(group, "redefined") {
        if str_eq(name, "redefined-local") {
            Some(Diagnostic::Redefined(Redefined::RedefinedLocal))
        } else {
            None
        }
    } else if str_eq(group, "strict") {
        if str_eq(name, "close-non-object") {
            Some(Diagnostic::Strict(Strict::CloseNonObject))
        } else if str_eq(name, "deprecated") {
            Some(Diagnostic::Strict(Strict::Deprecated))
        } else if str_eq(name, "discard-returns") {
            Some(Diagnostic::Strict(Strict::DiscardReturns))
        } else {
            None
        }
    } else if str_eq(group, "strong") {
        if str_eq(name, "no-unknown") {
            Some(Diagnostic::Strong(Strong::NoUnknown))
        } else {
            None
        }
    } else if str_eq(group, "typecheck") {
        if str_eq(name, "assign-type-mismatch") {
            Some(Diagnostic::TypeCheck(TypeCheck::AssignTypeMismatch))
        } else if str_eq(name, "cast-local-type") {
            Some(Diagnostic::TypeCheck(TypeCheck::CastLocalType))
        } else if str_eq(name, "cast-type-mismatch") {
            Some(Diagnostic::TypeCheck(TypeCheck::CastTypeMismatch))
        } else if str_eq(name, "inject-field") {
            Some(Diagnostic::TypeCheck(TypeCheck::InjectField))
        } else if str_eq(name, "need-check-nil") {
            Some(Diagnostic::TypeCheck(TypeCheck::NeedCheckNil))
        } else if str_eq(name, "param-type-mismatch") {
            Some(Diagnostic::TypeCheck(TypeCheck::ParamTypeMismatch))
        } else if str_eq(name, "return-type-mismatch") {
            Some(Diagnostic::TypeCheck(TypeCheck::ReturnTypeMismatch))
        } else if str_eq(name, "undefined-field") {
            Some(Diagnostic::TypeCheck(TypeCheck::UndefinedField))
        } else {
            None
        }
    } else if str_eq(group, "unbalanced") {
        if str_eq(name, "missing-fields") {
            Some(Diagnostic::Unbalanced(Unbalanced::MissingFields))
        } else if str_eq(name, "missing-parameter") {
            Some(Diagnostic::Unbalanced(Unbalanced::MissingParameter))
        } else if str_eq(name, "missing-return") {
            Some(Diagnostic::Unbalanced(Unbalanced::MissingReturn))
        } else if str_eq(name, "missing-return-value") {
            Some(Diagnostic::Unbalanced(Unbalanced::MissingReturnValue))
        } else if str_eq(name, "redundant-parameter") {
            Some(Diagnostic::Unbalanced(Unbalanced::RedundantParameter))
        } else if str_eq(name, "redundant-return-value") {
            Some(Diagnostic::Unbalanced(Unbalanced::RedundantReturnValue))
        } else if str_eq(name, "redundant-value") {
            Some(Diagnostic::Unbalanced(Unbalanced::RedundantValue))
        } else if str_eq(name, "unbalanced-assignments") {
            Some(Diagnostic::Unbalanced(Unbalanced::UnbalancedAssignments))
        } else {
            None
        }
    } else if str_eq(group, "unused") {
        if str_eq(name, "code-after-break") {
            Some(Diagnostic::Unused(Unused::CodeAfterBreak))
        } else if str_eq(name, "empty-block") {
            Some(Diagnostic::Unused(Unused::EmptyBlock))
        } else if str_eq(name, "redundant-return") {
            Some(Diagnostic::Unused(Unused::RedundantReturn))
        } else if str_eq(name, "trailing-space") {
            Some(Diagnostic::Unused(Unused::TrailingSpace))
        } else if str_eq(name, "unreachable-code") {
            Some(Diagnostic::Unused(Unused::UnreachableCode))
        } else if str_eq(name, "unused-function") {
            Some(Diagnostic::Unused(Unused::UnusedFunction))
        } else if str_eq(name, "unused-label") {
            Some(Diagnostic::Unused(Unused::UnusedLabel))
        } else if str_eq(name, "unused-local") {
            Some(Diagnostic::Unused(Unused::UnusedLocal))
        } else if str_eq(name, "unused-vararg") {
            Some(Diagnostic::Unused(Unused::UnusedVararg))
        } else {
            None
        }
    } else {
        None
    }
}

} // verus!
