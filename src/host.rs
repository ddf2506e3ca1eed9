use vstd::prelude::*;
use zed_extension_api::{LanguageServerId, Worktree};

verus! {

/// A worktree handle handed over by the editor; opaque here.
#[verifier::external_type_specification]
#[verifier::external_body]
pub struct ExWorktree(Worktree);

/// The editor's identifier of a language server; opaque here.
#[verifier::external_type_specification]
#[verifier::external_body]
pub struct ExLanguageServerId(LanguageServerId);

/// Relies on `zed_extension_api::Worktree::which`: the path of the named
/// binary on the worktree's `$PATH`, if one is present. The answer depends on
/// the user's machine, so nothing is promised of it.
#[verifier::external_body]
pub(crate) fn which(worktree: &Worktree, binary_name: &str) -> (r: Option<String>) {
    worktree.which(binary_name)
}

/// Relies on `zed_extension_api::Worktree::shell_env`: the worktree's current
/// shell environment as (name, value) pairs. The answer depends on the user's
/// machine, so nothing is promised of it.
#[verifier::external_body]
pub(crate) fn shell_env(worktree: &Worktree) -> (r: Vec<(String, String)>) {
    worktree.shell_env()
}

} // verus!
