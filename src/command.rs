use vstd::prelude::*;

verus! {

/// How the editor should start a language server process.
pub struct ServerCommand {
    /// Path of the executable.
    pub command: String,
    /// Arguments handed to the executable, in order.
    pub args: Vec<String>,
    /// Environment variables as (name, value) pairs.
    pub env: Vec<(String, String)>,
}

/// The mathematical model of a [`ServerCommand`].
pub struct ServerCommandView {
    pub command: Seq<char>,
    pub args: Seq<Seq<char>>,
    pub env: Seq<(Seq<char>, Seq<char>)>,
}

impl View for ServerCommand {
    type V = ServerCommandView;

    open spec fn view(&self) -> ServerCommandView {
        ServerCommandView {
            command: self.command@,
            args: self.args.deep_view(),
            env: self.env.deep_view(),
        }
    }
}

/// The one flag the server is started with: speak LSP over stdin/stdout.
pub open spec fn stdio_flag() -> Seq<char> {
    "--stdio"@
}

/// Message reported when the server binary is not on `$PATH`.
pub open spec fn not_found_message() -> Seq<char> {
    "php-lsp not found in PATH"@
}

/// What resolving the server command yields, given the outcome of the
/// `$PATH` lookup and the shell environment.
pub open spec fn command_for(
    found: Option<Seq<char>>,
    env: Seq<(Seq<char>, Seq<char>)>,
) -> Result<ServerCommandView, Seq<char>> {
    match found {
        Some(path) => Ok(ServerCommandView { command: path, args: seq![stdio_flag()], env }),
        None => Err(not_found_message()),
    }
}

/// The model of a resolution outcome.
pub open spec fn outcome_view(r: Result<ServerCommand, String>) -> Result<ServerCommandView, Seq<char>> {
    match r {
        Ok(c) => Ok(c@),
        Err(e) => Err(e@),
    }
}

/// Builds the launch description from the outcome of the `$PATH` lookup
/// and the shell environment: the found path with `--stdio` and the
/// environment as given, or the not-found message.
pub fn command_from_lookup(found: Option<String>, env: Vec<(String, String)>) -> (r: Result<
    ServerCommand,
    String,
>)
    ensures
        outcome_view(r) == command_for(found.deep_view(), env.deep_view()),
        found is Some <==> r is Ok,
        found is Some ==> r->Ok_0.command@ == found->Some_0@ && r->Ok_0.args@.len() == 1
            && r->Ok_0.args@[0]@ == stdio_flag(),
        found is Some ==> r->Ok_0.env@ == env@,
        found is None ==> r->Err_0@ == not_found_message(),
{
    match found {
        Some(path) => {
            let args = vec!["--stdio".to_owned()];
            assert(args.deep_view() =~= seq![stdio_flag()]);
            Ok(ServerCommand { command: path, args, env })
        },
        None => Err("php-lsp not found in PATH".to_owned()),
    }
}

/// Resolving the command is idempotent: two resolutions against a worktree
/// that reports the same lookup outcome and the same shell environment give
/// outcomes with identical fields.
pub proof fn lemma_command_idempotent(
    first: Result<ServerCommand, String>,
    second: Result<ServerCommand, String>,
    found: Option<Seq<char>>,
    env: Seq<(Seq<char>, Seq<char>)>,
)
    requires
        outcome_view(first) == command_for(found, env),
        outcome_view(second) == command_for(found, env),
    ensures
        first is Ok <==> second is Ok,
        first is Ok ==> first->Ok_0@ == second->Ok_0@,
        first is Err ==> first->Err_0@ == second->Err_0@,
{
}

} // verus!
