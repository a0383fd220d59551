//! Vocabulary of the editor-settings sections that share the manifest file.
//! The engine itself never interprets these; they are carried for the
//! surrounding tooling, and their values ride through a load/save round
//! trip inside the retained document.

use vstd::prelude::*;

use crate::strutil::str_eq;

verus! {

/// A flag that still holds its default of `true` is omitted when settings
/// are persisted.
pub fn enabled(ctx: &bool) -> (r: bool)
    ensures
        r == *ctx,
{
    *ctx
}

/// A flag that still holds its default of `false` is omitted when settings
/// are persisted.
pub fn disabled(ctx: &bool) -> (r: bool)
    ensures
        r == !*ctx,
{
    !*ctx
}

/// A count that still holds its default of zero is omitted when settings
/// are persisted.
pub fn zero(ctx: &usize) -> (r: bool)
    ensures
        r == (*ctx == 0),
{
    *ctx == 0
}

/// The default of the flags that start enabled.
pub fn default_true() -> (r: bool)
    ensures
        r,
{
    true
}

#[derive(Debug, Clone, Copy, PartialEq, Eq)]
pub enum Snippet {
    Disable,
    Replace,
    Both,
}

impl Default for Snippet {
    fn default() -> (r: Snippet)
        ensures
            r is Disable,
    {
        Snippet::Disable
    }
}

#[derive(Debug, Clone, Copy, PartialEq, Eq)]
pub enum Show {
    Disable,
    Enable,
    Fallback,
}

impl Default for Show {
    fn default() -> (r: Show)
        ensures
            r is Fallback,
    {
        Show::Fallback
    }
}

#[derive(Debug, Clone, Copy, PartialEq, Eq)]
pub enum FileState {
    Any,
    Opened,
    NoneState,
    Fallback,
}

impl Default for FileState {
    fn default() -> (r: FileState)
        ensures
            r is Fallback,
    {
        FileState::Fallback
    }
}

#[derive(Debug, Clone, Copy, PartialEq, Eq)]
pub enum GroupSeverity {
    Error,
    Warning,
    Information,
    Hint,
    Fallback,
}

impl Default for GroupSeverity {
    fn default() -> (r: GroupSeverity)
        ensures
            r is Fallback,
    {
        GroupSeverity::Fallback
    }
}

/// A diagnostic severity; the bang forms override a user setting.
#[derive(Debug, Clone, Copy, PartialEq, Eq)]
pub enum Severity {
    Error,
    Warning,
    Information,
    Hint,
    ErrorBang,
    WarningBang,
    InformationBang,
    HintBang,
}

#[derive(Debug, Clone, Copy, PartialEq, Eq)]
pub enum Files {
    Enable,
    Opened,
    Disable,
}

impl Default for Files {
    fn default() -> (r: Files)
        ensures
            r is Opened,
    {
        Files::Opened
    }
}

#[derive(Debug, Clone, Copy, PartialEq, Eq)]
pub enum FileStatus {
    Any,
    Opened,
    NoneStatus,
    AnyBang,
    OpenedBang,
    NoneBang,
}

#[derive(Debug, Clone, Copy, PartialEq, Eq)]
pub enum Event {
    OnChange,
    OnSave,
    NoneEvent,
}

#[derive(Debug, Clone, Copy, PartialEq, Eq)]
pub enum Index {
    Enable,
    Auto,
    Disable,
}

#[derive(Debug, Clone, Copy, PartialEq, Eq)]
pub enum ParamName {
    All,
    Literal,
    Disable,
}

#[derive(Debug, Clone, Copy, PartialEq, Eq)]
pub enum SemiColon {
    All,
    SameLine,
    Disable,
}

#[derive(Debug, Clone, Copy, PartialEq, Eq)]
pub enum Status {
    Default,
    Enable,
    Disable,
}

#[derive(Debug, Clone, Copy, PartialEq, Eq)]
pub enum Encoding {
    Utf8,
    Ansi,
    Utf16le,
    Utf16be,
}

/// The `workspace.checkThirdParty` setting; `False` stands for the JSON
/// value `false`, the only boolean the setting accepts.
#[derive(Debug, Clone, Copy, PartialEq, Eq)]
pub enum CheckThirdParty {
    Ask,
    Apply,
    ApplyInMemory,
    Disable,
    False,
}

/// What a `checkThirdParty` string parses to, `None` for any other string.
pub open spec fn spec_parse_check_third_party(s: Seq<char>) -> Option<CheckThirdParty> {
    if s == "Ask"@ {
        Some(CheckThirdParty::Ask)
    } else if s == "Apply"@ {
        Some(CheckThirdParty::Apply)
    } else if s == "ApplyInMemory"@ {
        Some(CheckThirdParty::ApplyInMemory)
    } else if s == "Disable"@ {
        Some(CheckThirdParty::Disable)
    } else {
        None
    }
}

impl CheckThirdParty {
    /// Parse the string form of the setting; fails on, and only on, a
    /// string that is none of the four accepted values.
    pub fn parse_str(s: &str) -> (r: Result<CheckThirdParty, String>)
        ensures
            match r {
                Ok(v) => spec_parse_check_third_party(s@) == Some(v),
                Err(_) => spec_parse_check_third_party(s@) is None,
            },
    {
        if str_eq(s, "Ask") {
            Ok(CheckThirdParty::Ask)
        } else if str_eq(s, "Apply") {
            Ok(CheckThirdParty::Apply)
        } else if str_eq(s, "ApplyInMemory") {
            Ok(CheckThirdParty::ApplyInMemory)
        } else if str_eq(s, "Disable") {
            Ok(CheckThirdParty::Disable)
        } else {
            Err("unknown checkThirdParty value".to_owned())
        }
    }

    /// Interpret the boolean form of the setting: `false` is accepted,
    /// `true` is rejected.
    pub fn from_bool(v: bool) -> (r: Result<CheckThirdParty, String>)
        ensures
            v ==> r is Err,
            !v ==> (r matches Ok(c) && c is False),
    {
        if v {
            Err("checkThirdParty cannot be set to `true`".to_owned())
        } else {
            Ok(CheckThirdParty::False)
        }
    }

    /// The string this setting serializes to, `None` for the variant that
    /// serializes to the boolean `false`.
    pub fn as_setting_str(&self) -> (r: Option<&'static str>)
        ensures
            *self is Ask ==> (r matches Some(s) && s@ == "Ask"@),
            *self is Apply ==> (r matches Some(s) && s@ == "Apply"@),
            *self is ApplyInMemory ==> (r matches Some(s) && s@ == "ApplyInMemory"@),
            *self is Disable ==> (r matches Some(s) && s@ == "Disable"@),
            *self is False ==> r is None,
    {
        match self {
            CheckThirdParty::Ask => Some("Ask"),
            CheckThirdParty::Apply => Some("Apply"),
            CheckThirdParty::ApplyInMemory => Some("ApplyInMemory"),
            CheckThirdParty::Disable => Some("Disable"),
            CheckThirdParty::False => None,
        }
    }
}

/// Each string-valued setting round-trips through its string form.
pub proof fn lemma_check_third_party_round_trip(c: CheckThirdParty)
    requires
        !(c is False),
    ensures
        match c {
            CheckThirdParty::Ask => spec_parse_check_third_party("Ask"@) == Some(c),
            CheckThirdParty::Apply => spec_parse_check_third_party("Apply"@) == Some(c),
            CheckThirdParty::ApplyInMemory => spec_parse_check_third_party("ApplyInMemory"@)
                == Some(c),
            CheckThirdParty::Disable => spec_parse_check_third_party("Disable"@) == Some(c),
            CheckThirdParty::False => true,
        },
{
    reveal_strlit("Ask");
    reveal_strlit("Apply");
    reveal_strlit("ApplyInMemory");
    reveal_strlit("Disable");
    assert("Ask"@.len() == 3);
    assert("Apply"@.len() == 5);
    assert("ApplyInMemory"@.len() == 13);
    assert("Disable"@.len() == 7);
}

/// ASCII lowercasing of one character.
pub open spec fn spec_lower_char(c: char) -> char {
    match c {
        'A' => 'a',
        'B' => 'b',
        'C' => 'c',
        'D' => 'd',
        'E' => 'e',
        'F' => 'f',
        'G' => 'g',
        'H' => 'h',
        'I' => 'i',
        'J' => 'j',
        'K' => 'k',
        'L' => 'l',
        'M' => 'm',
        'N' => 'n',
        'O' => 'o',
        'P' => 'p',
        'Q' => 'q',
        'R' => 'r',
        'S' => 's',
        'T' => 't',
        'U' => 'u',
        'V' => 'v',
        'W' => 'w',
        'X' => 'x',
        'Y' => 'y',
        'Z' => 'z',
        _ => c,
    }
}

/// ASCII lowercasing of a string's characters.
pub open spec fn spec_lower(s: Seq<char>) -> Seq<char> {
    Seq::new(s.len(), |i: int| spec_lower_char(s[i]))
}

/// Executable counterpart of [`spec_lower_char`].
fn lower_char(c: char) -> (r: char)
    ensures
        r == spec_lower_char(c),
{
    match c {
        'A' => 'a',
        'B' => 'b',
        'C' => 'c',
        'D' => 'd',
        'E' => 'e',
        'F' => 'f',
        'G' => 'g',
        'H' => 'h',
        'I' => 'i',
        'J' => 'j',
        'K' => 'k',
        'L' => 'l',
        'M' => 'm',
        'N' => 'n',
        'O' => 'o',
        'P' => 'p',
        'Q' => 'q',
        'R' => 'r',
        'S' => 's',
        'T' => 't',
        'U' => 'u',
        'V' => 'v',
        'W' => 'w',
        'X' => 'x',
        'Y' => 'y',
        'Z' => 'z',
        _ => c,
    }
}

/// Equality of two strings up to ASCII case.
pub fn str_eq_ignore_case(a: &str, b: &str) -> (r: bool)
    ensures
        r == (spec_lower(a@) == spec_lower(b@)),
{
    let alen = a.unicode_len();
    let blen = b.unicode_len();
    if alen != blen {
        assert(spec_lower(a@).len() != spec_lower(b@).len());
        return false;
    }
    let mut i: usize = 0;
    while i < alen
        invariant
            alen == a@.len(),
            alen == b@.len(),
            i <= alen,
            forall|j: int| 0 <= j < i ==> spec_lower(a@)[j] == spec_lower(b@)[j],
        decreases alen - i,
    {
        if lower_char(a.get_char(i)) != lower_char(b.get_char(i)) {
            assert(spec_lower(a@)[i as int] != spec_lower(b@)[i as int]);
            return false;
        }
        i += 1;
    }
    assert(spec_lower(a@) =~= spec_lower(b@));
    true
}

/// What a severity string parses to, after ASCII lowercasing, `None` for
/// any other string.
pub open spec fn spec_parse_severity(s: Seq<char>) -> Option<Severity> {
    if s == "error"@ {
        Some(Severity::Error)
    } else if s == "warning"@ {
        Some(Severity::Warning)
    } else if s == "information"@ {
        Some(Severity::Information)
    } else if s == "hint"@ {
        Some(Severity::Hint)
    } else if s == "error!"@ {
        Some(Severity::ErrorBang)
    } else if s == "warning!"@ {
        Some(Severity::WarningBang)
    } else if s == "information!"@ {
        Some(Severity::InformationBang)
    } else if s == "hint!"@ {
        Some(Severity::HintBang)
    } else {
        None
    }
}

impl Severity {
    /// Parse a severity, case-insensitively; fails on, and only on, a
    /// string that lowercases to none of the eight accepted values.
    pub fn parse(s: &str) -> (r: Result<Severity, String>)
        ensures
            match r {
                Ok(v) => spec_parse_severity(spec_lower(s@)) == Some(v),
                Err(_) => spec_parse_severity(spec_lower(s@)) is None,
            },
    {
        proof {
            lemma_lowercase_severity_literals();
        }
        if str_eq_ignore_case(s, "error") {
            Ok(Severity::Error)
        } else if str_eq_ignore_case(s, "warning") {
            Ok(Severity::Warning)
        } else if str_eq_ignore_case(s, "information") {
            Ok(Severity::Information)
        } else if str_eq_ignore_case(s, "hint") {
            Ok(Severity::Hint)
        } else if str_eq_ignore_case(s, "error!") {
            Ok(Severity::ErrorBang)
        } else if str_eq_ignore_case(s, "warning!") {
            Ok(Severity::WarningBang)
        } else if str_eq_ignore_case(s, "information!") {
            Ok(Severity::InformationBang)
        } else if str_eq_ignore_case(s, "hint!") {
            Ok(Severity::HintBang)
        } else {
            Err("invalid diagnostic severity".to_owned())
        }
    }
}

/// The eight severity literals are already lowercase.
proof fn lemma_lowercase_severity_literals()
    ensures
        spec_lower("error"@) == "error"@,
        spec_lower("warning"@) == "warning"@,
        spec_lower("information"@) == "information"@,
        spec_lower("hint"@) == "hint"@,
        spec_lower("error!"@) == "error!"@,
        spec_lower("warning!"@) == "warning!"@,
        spec_lower("information!"@) == "information!"@,
        spec_lower("hint!"@) == "hint!"@,
{
    reveal_strlit("error");
    reveal_strlit("warning");
    reveal_strlit("information");
    reveal_strlit("hint");
    reveal_strlit("error!");
    reveal_strlit("warning!");
    reveal_strlit("information!");
    reveal_strlit("hint!");
    assert(spec_lower("error"@) =~= "error"@);
    assert(spec_lower("warning"@) =~= "warning"@);
    assert(spec_lower("information"@) =~= "information"@);
    assert(spec_lower("hint"@) =~= "hint"@);
    assert(spec_lower("error!"@) =~= "error!"@);
    assert(spec_lower("warning!"@) =~= "warning!"@);
    assert(spec_lower("information!"@) =~= "information!"@);
    assert(spec_lower("hint!"@) =~= "hint!"@);
}

} // verus!
