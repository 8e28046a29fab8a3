//! The commands of the program, and the session that each of them opens.

use crate::pdf::{building, opened, watching, Action, ActionView, Session, SessionView};
use vstd::prelude::*;

verus! {

/// What the program was asked to do.
#[derive(Debug, PartialEq, Eq)]
pub struct Cli {
    /// The command, where one was given.
    pub command: Option<Commands>,
}

/// A command, each with the path of the source where one was given.
#[derive(Debug, PartialEq, Eq)]
pub enum Commands {
    /// Build the document once.
    Build { src: Option<String> },
    /// Build the document whenever the source changes.
    Watch { src: Option<String> },
}

/// The path of the source where a command names none.
pub open spec fn default_source() -> Seq<char> {
    "resume.yaml"@
}

/// The source that a command works on.
pub open spec fn source_of(src: Option<String>) -> Seq<char> {
    match src {
        Some(path) => path@,
        None => default_source(),
    }
}

impl Default for Commands {
    /// Without a command the program builds once, from the default source.
    fn default() -> (command: Commands)
        ensures
            command == (Commands::Build { src: None }),
    {
        Commands::Build { src: None }
    }
}

impl Commands {
    /// The source that the command works on: the one it names, or
    /// `resume.yaml`.
    pub open spec fn source(&self) -> Seq<char> {
        match self {
            Commands::Build { src } => source_of(*src),
            Commands::Watch { src } => source_of(*src),
        }
    }

    /// The session that the command opens, and the first action of it.
    pub open spec fn outcome(&self) -> (SessionView, ActionView) {
        match self {
            Commands::Build { .. } => (
                building(opened(self.source())),
                ActionView::Read { path: self.source() },
            ),
            Commands::Watch { .. } => (
                watching(opened(self.source())),
                ActionView::Watch { path: self.source() },
            ),
        }
    }

    /// Returns the source that the command works on.
    pub fn path(&self) -> (path: &str)
        ensures
            path@ == self.source(),
    {
        match self {
            Commands::Build { src } => or_default(src),
            Commands::Watch { src } => or_default(src),
        }
    }

    /// Opens a session on the source of the command and begins what the
    /// command asks for: a build, or watching. The name of the source must
    /// end in `.yaml`.
    pub fn exec(&self) -> (r: (Session, Action))
        requires
            ".yaml"@.is_suffix_of(self.source()),
        ensures
            r.0@ == self.outcome().0,
            r.1@ == self.outcome().1,
    {
        match self {
            Commands::Build { .. } => {
                let mut session = Session::new(self.path());
                let action = session.build();
                (session, action)
            },
            Commands::Watch { .. } => {
                let mut session = Session::new(self.path());
                let action = session.watch();
                (session, action)
            },
        }
    }
}

/// Returns the path in `src`, or the default one.
fn or_default(src: &Option<String>) -> (path: &str)
    ensures
        path@ == source_of(*src),
{
    match src {
        Some(path) => path.as_str(),
        None => "resume.yaml",
    }
}

impl Cli {
    /// The command that is run: the one given, or the default one.
    pub open spec fn chosen(&self) -> Commands {
        match self.command {
            Some(command) => command,
            None => Commands::Build { src: None },
        }
    }

    /// Returns the source that the command to run works on.
    pub fn path(&self) -> (path: &str)
        ensures
            path@ == self.chosen().source(),
    {
        match &self.command {
            Some(command) => command.path(),
            None => or_default(&None),
        }
    }

    /// Runs the command, or the default one where none was given: opens the
    /// session and returns it with its first action. The name of the source
    /// must end in `.yaml`.
    pub fn run(self) -> (r: (Session, Action))
        requires
            ".yaml"@.is_suffix_of(self.chosen().source()),
        ensures
            r.0@ == self.chosen().outcome().0,
            r.1@ == self.chosen().outcome().1,
    {
        let command = match self.command {
            Some(command) => command,
            None => Commands::default(),
        };
        command.exec()
    }
}

} // verus!
