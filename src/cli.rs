//! The invocation as the command line hands it over.

use vstd::prelude::*;

verus! {

/// What the user asks the tool to do.
#[derive(Clone, Copy, Debug, PartialEq, Eq, Structural)]
pub enum Command {
    /// Preview a markup target, or build and run an executable.
    Run,
    Test,
    Fix,
    New,
    /// For compiled languages.
    Build,
    Deploy,
}

/// The supported kinds of project, in the order in which inference tries
/// them.
#[derive(Clone, Copy, Debug, PartialEq, Eq, Structural)]
pub enum ProjectType {
    RustNvimConfig,
    Cargo,
    Rust,
    Zenn,
    Markdown,
    LuaNvimConfig,
    Lua,
    TypeScript,
    GAS,
    /// Renders an edited or generated html file.
    WebSite,
    C,
    CPP,
    Swift,
    Python,
}

/// A parsed invocation.
pub struct Cli {
    /// The subcommand; `Run` when none was given.
    pub command: Option<Command>,
    /// Arguments handed on to the underlying tool.
    pub args_passed_to_original: Vec<String>,
    /// The project type the user asserted, if any.
    pub project_type: Option<ProjectType>,
    /// An explicit target file.
    pub tarrget_file: Option<String>,
}

impl Cli {
    /// Completes a parsed invocation: a missing subcommand becomes `Run`.
    pub fn init(cli: Cli) -> (r: Cli)
        ensures
            r.command == Some(match cli.command {
                Some(c) => c,
                None => Command::Run,
            }),
            r.args_passed_to_original@ == cli.args_passed_to_original@,
            r.project_type == cli.project_type,
            r.tarrget_file == cli.tarrget_file,
    {
        let mut cli = cli;
        if cli.command.is_none() {
            cli.command = Some(Command::Run);
        }
        cli
    }
}

} // verus!
