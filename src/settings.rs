use vstd::prelude::*;

use crate::terminal::{identifies, is_identifier, ParseTerminalError, Terminal};

verus! {

#[verifier::external_type_specification]
#[verifier::external_body]
pub struct ExVerbosity(clap_verbosity_flag::Verbosity);

/// Command line options.
#[derive(Debug)]
pub struct Opt {
    pub cmd: Subcommand,
    /// How much to log; carried to the logger untouched.
    pub verbosity: clap_verbosity_flag::Verbosity,
}

/// What the command line asks for.
#[derive(Debug)]
pub enum Subcommand {
    /// Open a terminal at the current directory.
    Term {
        /// The type of terminal.
        terminal: Terminal,
    },
    /// Print out the config location.
    PrintConfigLocation,
}

/// The settings that decide how the commands behave.
#[derive(Debug)]
pub struct Settings {
    /// Terminal to use for creating a new terminal.
    pub create_terminal: Terminal,
}

impl Default for Settings {
    fn default() -> (r: Settings)
        ensures
            r.create_terminal is Alacritty,
    {
        Settings { create_terminal: Terminal::Alacritty }
    }
}

/// The characters of an optional string.
pub open spec fn opt_chars(o: Option<&str>) -> Option<Seq<char>> {
    match o {
        Some(s) => Some(s@),
        None => None,
    }
}

/// The terminal identifier that decides, of the one in the config file and
/// the one in the environment: the environment's where it has one.
pub open spec fn layered(file: Option<Seq<char>>, env: Option<Seq<char>>) -> Option<Seq<char>> {
    if env is Some {
        env
    } else {
        file
    }
}

impl Settings {
    /// Resolves the settings from the terminal identifier of the config file
    /// and that of the environment, each absent where its source does not set
    /// it. The environment takes precedence over the file, and the file over
    /// the default terminal, Alacritty. Only the identifier that decides is
    /// read.
    pub fn resolve(file: Option<&str>, env: Option<&str>) -> (r: Result<Settings, ParseTerminalError>)
        ensures
            layered(opt_chars(file), opt_chars(env)) matches Some(s) ==> {
                &&& (r is Ok <==> is_identifier(s))
                &&& (r matches Ok(v) ==> identifies(s, v.create_terminal))
            },
            layered(opt_chars(file), opt_chars(env)) is None ==> (r matches Ok(v) && v.create_terminal is Alacritty),
            r is Err ==> r == Err::<Settings, ParseTerminalError>(ParseTerminalError::Unrecognized),
    {
        let chosen = match env {
            Some(e) => Some(e),
            None => file,
        };
        match chosen {
            None => Ok(Settings::default()),
            Some(s) => match Terminal::parse(s) {
                Ok(t) => Ok(Settings { create_terminal: t }),
                Err(e) => Err(e),
            },
        }
    }

    /// Applies the command line: a terminal named there replaces the one
    /// configured; other subcommands leave the settings as they are.
    pub fn merge_opt(&mut self, opt: &Opt)
        ensures
            opt.cmd matches Subcommand::Term { terminal } ==> final(self).create_terminal == terminal,
            opt.cmd is PrintConfigLocation ==> *final(self) == *old(self),
    {
        match &opt.cmd {
            Subcommand::Term { terminal } => {
                self.create_terminal = terminal.duplicate();
            },
            Subcommand::PrintConfigLocation => {},
        }
    }
}

} // verus!
