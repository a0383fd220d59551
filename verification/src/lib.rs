//! Manager for externally hosted Lua language-server addons.
//!
//! The library reconciles a declared set of addons (name, source, branch,
//! pinned revision) against the persisted manifest document and the on-disk
//! checkout directories.  All decision logic lives here and is verified; the
//! surrounding binary performs the file-system and version-control calls and
//! feeds their observations back in.

pub mod addon;
pub mod cli;
pub mod codec;
pub mod config;
pub mod diagnostics;
pub mod error;
pub mod git;
pub mod json;
pub mod lua_rc;
pub mod manager;
pub mod strutil;

pub use addon::Addon;
pub use addon::AddonSource;
pub use error::Error;
pub use lua_rc::LuaRc;
pub use lua_rc::Workspace;
pub use manager::Manager;
pub use manager::SomeOrAll;

use vstd::prelude::*;

verus! {

/// Name of the directory, under the project root, that holds one checkout
/// per addon.
pub open spec fn spec_addons_dir() -> Seq<char> {
    "addons"@
}

/// Executable counterpart of [`spec_addons_dir`].
pub fn addons_dir() -> (r: &'static str)
    ensures
        r@ == spec_addons_dir(),
{
    "addons"
}

} // verus!
