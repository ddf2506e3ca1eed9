//! Launch description for the `php-lsp` language server inside the Zed editor.
//!
//! The library resolves the server binary through the worktree's `$PATH`
//! lookup and describes how the editor should start it: the binary's path,
//! the single `--stdio` flag and the worktree's shell environment.

mod command;
mod extension;
mod host;

pub use command::{
    command_for, command_from_lookup, lemma_command_idempotent, not_found_message, outcome_view,
    stdio_flag, ServerCommand, ServerCommandView,
};
pub use extension::PhpLspExtension;
