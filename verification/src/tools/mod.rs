//! The tool registry: the external binaries the workspace needs, the
//! decision whether each is installed or updated, and the check after an
//! installation. Downloads and process runs happen outside the library.

pub mod binary_crates;
pub mod rustup;

pub use binary_crates::BinaryCrate;
pub use rustup::Rustup;

use vstd::prelude::*;
use vstd::string::*;

verus! {

/// What to do for one required tool.
#[derive(Debug, PartialEq, Copy, Clone)]
pub enum ToolAction {
    /// The tool is present; update it, which is idempotent.
    Update,
    /// The tool is missing; install it.
    Install,
}

/// Decide what installation does for one tool: present tools are updated,
/// missing tools are installed.
pub fn install(is_installed: bool) -> (r: ToolAction)
    ensures
        r == (if is_installed {
            ToolAction::Update
        } else {
            ToolAction::Install
        }),
{
    if is_installed {
        ToolAction::Update
    } else {
        ToolAction::Install
    }
}

/// Check a tool after installing it: one still missing is an error naming
/// it.
pub fn check_installed_after(name: &str, now_installed: bool) -> (r: Result<(), String>)
    ensures
        now_installed ==> r is Ok,
        !now_installed ==> (r matches Err(m) && m@ == "tool "@ + name@
            + " is still missing after install"@),
{
    if now_installed {
        Ok(())
    } else {
        let mut m = "tool ".to_owned();
        m.append(name);
        m.append(" is still missing after install");
        Err(m)
    }
}

} // verus!
