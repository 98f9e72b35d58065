//! The command line of the tool, as plain data, and the context that every
//! command runs with.

use vstd::prelude::*;

use crate::config::Settings;
use crate::text::string_of;

verus! {

/// The greeting of the tool.
pub fn greet() -> (res: String)
    ensures
        res@ == "Hello from figex-cli-core!"@,
{
    string_of("Hello from figex-cli-core!")
}

/// The parsed command line.
#[derive(Debug, Clone)]
pub struct Cli {
    /// Enable verbose output.
    pub verbose: bool,
    /// Path to the config file.
    pub config: Option<String>,
    pub command: Option<Commands>,
}

/// The subcommands.
#[derive(Debug, Clone)]
pub enum Commands {
    /// Connect to the Figma runtime and establish a session.
    Attach,
    /// Diagnose the connection environment.
    Doctor,
    /// Preview a frame overview.
    Inspect { frame: String },
    /// Extract raw frame info and save it as raw.json.
    Extract { frame: String, output: Option<String> },
    /// Generate features.json from extracted raw info.
    Features { input: Option<String>, output: Option<String> },
    /// Normalize to UI IR and generate ui.ir.json.
    Normalize { input: Option<String>, output: Option<String> },
    /// Output a human-readable analysis report (report.md).
    Report { input: Option<String>, output: Option<String> },
}

/// The file a command reads when none is given.
pub open spec fn default_input(c: Commands) -> Option<Seq<char>> {
    match c {
        Commands::Features { .. } => Some("raw.json"@),
        Commands::Normalize { .. } => Some("features.json"@),
        Commands::Report { .. } => Some("ui.ir.json"@),
        _ => None,
    }
}

/// The file a command writes when none is given.
pub open spec fn default_output(c: Commands) -> Option<Seq<char>> {
    match c {
        Commands::Extract { .. } => Some("raw.json"@),
        Commands::Features { .. } => Some("features.json"@),
        Commands::Normalize { .. } => Some("ui.ir.json"@),
        Commands::Report { .. } => Some("report.md"@),
        _ => None,
    }
}

/// The input and output paths a command was given.
pub open spec fn given_paths(c: Commands) -> (Option<String>, Option<String>) {
    match c {
        Commands::Extract { output, .. } => (None, output),
        Commands::Features { input, output } => (input, output),
        Commands::Normalize { input, output } => (input, output),
        Commands::Report { input, output } => (input, output),
        _ => (None, None),
    }
}

/// A given path, else the default.
pub open spec fn path_or(given: Option<String>, default: Option<Seq<char>>) -> Option<Seq<char>> {
    match given {
        Some(p) => Some(p@),
        None => default,
    }
}

/// The input and output files of a command after defaults are applied.
#[derive(Debug, Clone)]
pub struct CommandPaths {
    pub input: Option<String>,
    pub output: Option<String>,
}

fn given_or(given: &Option<String>, default: Option<&str>) -> (res: Option<String>)
    ensures
        match res {
            Some(r) => path_or(*given, match default {
                Some(d) => Some(d@),
                None => None,
            }) == Some(r@),
            None => path_or(*given, match default {
                Some(d) => Some(d@),
                None => None,
            }) is None,
        },
{
    match given {
        Some(p) => Some(p.clone()),
        None => match default {
            Some(d) => Some(string_of(d)),
            None => None,
        },
    }
}

impl Commands {
    /// The files the command reads and writes: the ones given, else
    /// raw.json, features.json, ui.ir.json and report.md along the pipeline.
    pub fn paths(&self) -> (res: CommandPaths)
        ensures
            match res.input {
                Some(p) => path_or(given_paths(*self).0, default_input(*self)) == Some(p@),
                None => path_or(given_paths(*self).0, default_input(*self)) is None,
            },
            match res.output {
                Some(p) => path_or(given_paths(*self).1, default_output(*self)) == Some(p@),
                None => path_or(given_paths(*self).1, default_output(*self)) is None,
            },
    {
        match self {
            Commands::Extract { output, .. } => CommandPaths {
                input: None,
                output: given_or(output, Some("raw.json")),
            },
            Commands::Features { input, output } => CommandPaths {
                input: given_or(input, Some("raw.json")),
                output: given_or(output, Some("features.json")),
            },
            Commands::Normalize { input, output } => CommandPaths {
                input: given_or(input, Some("features.json")),
                output: given_or(output, Some("ui.ir.json")),
            },
            Commands::Report { input, output } => CommandPaths {
                input: given_or(input, Some("ui.ir.json")),
                output: given_or(output, Some("report.md")),
            },
            _ => CommandPaths { input: None, output: None },
        }
    }
}

/// What every command runs with: the resolved settings.
#[derive(Debug, Clone)]
pub struct AppContext {
    pub settings: Settings,
}

impl AppContext {
    pub fn new(settings: Settings) -> (res: AppContext)
        ensures
            res.settings == settings,
    {
        AppContext { settings }
    }
}

/// A path given on the command line is the one used, for every command
/// and for input and output alike; the pipeline's default file applies
/// only where none is given, and commands without files have none.
pub proof fn law_given_paths_are_used(c: Commands)
    ensures
        ({
            let input = path_or(given_paths(c).0, default_input(c));
            let output = path_or(given_paths(c).1, default_output(c));
            &&& c matches Commands::Extract { output: Some(p), .. } ==> output == Some(p@)
            &&& c matches Commands::Extract { output: None, .. } ==> output == Some("raw.json"@)
            &&& c matches Commands::Extract { .. } ==> input is None
            &&& c matches Commands::Features { input: Some(p), .. } ==> input == Some(p@)
            &&& c matches Commands::Features { output: Some(p), .. } ==> output == Some(p@)
            &&& c matches Commands::Features { input: None, .. } ==> input == Some("raw.json"@)
            &&& c matches Commands::Features { output: None, .. } ==> output == Some(
                "features.json"@,
            )
            &&& c matches Commands::Normalize { input: Some(p), .. } ==> input == Some(p@)
            &&& c matches Commands::Normalize { output: Some(p), .. } ==> output == Some(p@)
            &&& c matches Commands::Normalize { input: None, .. } ==> input == Some(
                "features.json"@,
            )
            &&& c matches Commands::Normalize { output: None, .. } ==> output == Some(
                "ui.ir.json"@,
            )
            &&& c matches Commands::Report { input: Some(p), .. } ==> input == Some(p@)
            &&& c matches Commands::Report { output: Some(p), .. } ==> output == Some(p@)
            &&& c matches Commands::Report { input: None, .. } ==> input == Some("ui.ir.json"@)
            &&& c matches Commands::Report { output: None, .. } ==> output == Some("report.md"@)
            &&& (c is Attach || c is Doctor || c is Inspect) ==> (input is None && output is None)
        }),
{
}

} // verus!
