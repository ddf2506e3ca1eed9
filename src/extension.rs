use vstd::prelude::*;
use zed_extension_api::{LanguageServerId, Worktree};

use crate::command::{command_from_lookup, not_found_message, stdio_flag, ServerCommand};
use crate::host::{shell_env, which};

verus! {

/// The PHP language server extension. It keeps no state between requests.
pub struct PhpLspExtension {}

impl PhpLspExtension {
    pub fn new() -> (r: Self) {
        PhpLspExtension {  }
    }

    /// Describes how to start `php-lsp` for `worktree`: the binary found on
    /// the worktree's `$PATH`, run with `--stdio` in the worktree's shell
    /// environment. Fails with the not-found message when the lookup finds
    /// nothing; the shell environment is only read once the binary is found.
    pub fn language_server_command(
        &mut self,
        _language_server_id: &LanguageServerId,
        worktree: &Worktree,
    ) -> (r: Result<ServerCommand, String>)
        ensures
            *final(self) == *old(self),
            r is Ok ==> r->Ok_0@.args == seq![stdio_flag()],
            r is Err ==> r->Err_0@ == not_found_message(),
    {
        let found = which(worktree, "php-lsp");
        let env = if found.is_some() {
            shell_env(worktree)
        } else {
            Vec::new()
        };
        command_from_lookup(found, env)
    }
}

} // verus!
