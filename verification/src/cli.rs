//! The command-line surface as plain data: the parsed invocation that the
//! binary hands to the engine, and the verified `key=value` splitter its
//! argument parsing uses.

use vstd::prelude::*;

use crate::addon::Addon;
use crate::config::Severity;
use crate::diagnostics::Diagnostic;
use crate::manager::SomeOrAll;
use crate::strutil::find_char;

verus! {

/// A parsed invocation: an optional project-root override and the chosen
/// subcommand.
pub struct LLAM {
    pub path: Option<String>,
    pub command: Subcommand,
}

/// The subcommands the manager offers.
pub enum Subcommand {
    /// Add one or more addons.
    Add { addons: Vec<Addon> },
    /// Remove one or more addons, or all of them.
    Remove(ListOrAll),
    /// Update one, many, or all addons.
    Update(ListOrAll),
    /// Remove any checkout that is not in the manifest.
    Clean,
    /// Change a manifest setting.
    Config { subcommand: Config },
}

/// An explicit addon list or the request to act on all of them.
pub struct ListOrAll {
    pub addons: Vec<Addon>,
    pub all: bool,
}

impl ListOrAll {
    /// The selector this argument group denotes.
    pub fn into_selector(self) -> (r: SomeOrAll<Addon>)
        ensures
            self.all ==> r is All,
            !self.all ==> (r matches SomeOrAll::Listed(v) && v == self.addons),
    {
        if self.all {
            SomeOrAll::All
        } else {
            SomeOrAll::Listed(self.addons)
        }
    }
}

/// The settings subcommands.
pub enum Config {
    /// Change a diagnostic setting.
    Diagnostic { setting: DiagnosticSetting },
    /// Change the doc-name pattern settings.
    Doc { setting: DocSetting },
}

/// The diagnostic settings that can be changed.
pub enum DiagnosticSetting {
    /// Disable diagnostics.
    Disable { diagnostics: Vec<Diagnostic> },
    /// Re-enable diagnostics that were disabled.
    Enable { diagnostics: Vec<Diagnostic> },
    /// Declare variables as globals.
    AddGlobal { globals: Vec<String> },
    /// Remove declared globals.
    RemoveGlobal { globals: Vec<String> },
    /// Set the severity of diagnostics.
    Severity { severity: Vec<Setting<Diagnostic, Severity>> },
}

/// The doc-name pattern settings that can be changed.
pub enum DocSetting {
    /// Patterns marking table keys as package private.
    Package { patterns: Vec<String> },
    /// Patterns marking table keys as private.
    Private { patterns: Vec<String> },
    /// Patterns marking table keys as protected.
    Protected { patterns: Vec<String> },
}

/// One `key=value` assignment.
pub struct Setting<K, V> {
    pub key: K,
    pub value: V,
}

/// Split a `key=value` argument at its first `=`; fails on, and only on, a
/// string without `=`.
pub fn split_set(s: &str) -> (r: Result<(String, String), String>)
    ensures
        match r {
            Ok(kv) => exists|i: int|
                {
                    &&& 0 <= i < s@.len()
                    &&& #[trigger] s@[i] == '='
                    &&& (forall|j: int| 0 <= j < i ==> s@[j] != '=')
                    &&& kv.0@ == s@.take(i)
                    &&& kv.1@ == s@.skip(i + 1)
                },
            Err(_) => forall|j: int| 0 <= j < s@.len() ==> s@[j] != '=',
        },
{
    match find_char(s, '=') {
        Some(i) => {
            let n = s.unicode_len();
            let key = s.substring_char(0, i).to_owned();
            let value = s.substring_char(i + 1, n).to_owned();
            proof {
                assert(key@ =~= s@.take(i as int));
                assert(value@ =~= s@.skip(i as int + 1));
            }
            Ok((key, value))
        },
        None => Err("invalid set value, expected [key]=[value]".to_owned()),
    }
}

} // verus!
