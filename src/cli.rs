//! The commands of the management front end.
use vstd::prelude::*;

verus! {

/// A shell that completions can be generated for.
#[derive(Debug, Clone, Copy, PartialEq, Eq, Structural)]
pub enum ShellType {
    Bash,
    Elvish,
    Fish,
    Nushell,
    Powershell,
    Zsh,
}

/// The name of a shell, as the user writes it.
pub open spec fn shell_name(s: ShellType) -> Seq<char> {
    match s {
        ShellType::Bash => "bash"@,
        ShellType::Elvish => "elvish"@,
        ShellType::Fish => "fish"@,
        ShellType::Nushell => "nushell"@,
        ShellType::Powershell => "powershell"@,
        ShellType::Zsh => "zsh"@,
    }
}

impl ShellType {
    /// The name of the shell, as the user writes it.
    pub fn name(&self) -> (r: &'static str)
        ensures
            r@ == shell_name(*self),
    {
        match self {
            ShellType::Bash => "bash",
            ShellType::Elvish => "elvish",
            ShellType::Fish => "fish",
            ShellType::Nushell => "nushell",
            ShellType::Powershell => "powershell",
            ShellType::Zsh => "zsh",
        }
    }
}

/// A parsed command line of the management front end.
#[derive(Debug, Clone, Copy, PartialEq, Eq, Structural)]
pub struct Cli {
    pub command: Option<Commands>,
}

/// The subcommands of the management front end.
#[derive(Debug, Clone, Copy, PartialEq, Eq, Structural)]
pub enum Commands {
    /// Print shell completions, or instructions for installing them.
    Completions { shell: Option<ShellType>, help: bool },
    /// Install the shim and its directories, or remove them.
    Setup { auto_download: bool, force: bool, uninstall: bool },
    /// List the installed components.
    List,
}

/// What the front end does for a parsed command line.
#[derive(Debug, Clone, Copy, PartialEq, Eq, Structural)]
pub enum Task {
    /// Print the front end's help.
    Help,
    /// Print the completion script for a shell.
    CompletionScript { shell: ShellType },
    /// Print how to install completions for a shell.
    CompletionInstructions { shell: ShellType },
    /// Print the help of the completions subcommand.
    CompletionsHelp,
    /// Remove the installed directories.
    Uninstall,
    /// Create the directories (anew when forced) and install the shim.
    Install { force: bool, auto_download: bool },
    /// List the installed components.
    List,
}

impl Cli {
    /// The task for this command line. Uninstalling takes precedence over
    /// the other set-up flags.
    pub fn task(&self) -> (r: Task)
        ensures
            r == match self.command {
                None => Task::Help,
                Some(Commands::Completions { shell: None, .. }) => Task::CompletionsHelp,
                Some(Commands::Completions { shell: Some(s), help }) => if help {
                    Task::CompletionInstructions { shell: s }
                } else {
                    Task::CompletionScript { shell: s }
                },
                Some(Commands::Setup { auto_download, force, uninstall }) => if uninstall {
                    Task::Uninstall
                } else {
                    Task::Install { force, auto_download }
                },
                Some(Commands::List) => Task::List,
            },
    {
        match self.command {
            None => Task::Help,
            Some(Commands::Completions { shell: None, .. }) => Task::CompletionsHelp,
            Some(Commands::Completions { shell: Some(s), help }) => if help {
                Task::CompletionInstructions { shell: s }
            } else {
                Task::CompletionScript { shell: s }
            },
            Some(Commands::Setup { auto_download, force, uninstall }) => if uninstall {
                Task::Uninstall
            } else {
                Task::Install { force, auto_download }
            },
            Some(Commands::List) => Task::List,
        }
    }
}

} // verus!
