//! Launching a terminal in the current directory through i3's command channel:
//! choosing the terminal driver from layered settings, making the working
//! directory safe to quote, and rendering the command line that i3 executes.

pub mod command;
pub mod path;
pub mod settings;
pub mod strings;
pub mod terminal;

use vstd::prelude::*;

verus! {

/// A condition that does not stop the launch but that the user should hear of.
#[derive(Debug, Clone, Copy, PartialEq, Eq, Structural)]
pub enum Warning {
    /// The working directory holds characters other than visible ASCII,
    /// whose handling by i3 is unverified.
    NonGraphicPath,
    /// xterm is started without a working directory.
    XTermIgnoresPath,
}

impl Warning {
    /// A message for the user.
    pub fn message(&self) -> (r: &'static str)
        ensures
            *self is NonGraphicPath ==> r@ == "I'm not sure whether non-ascii-graphic is handled correctly by i3, check you're in the right directory"@,
            *self is XTermIgnoresPath ==> r@ == "I can't get the escaping to work for xterm so just opening a terminal. PRs welcome!"@,
    {
        match self {
            Warning::NonGraphicPath => "I'm not sure whether non-ascii-graphic is handled correctly by i3, check you're in the right directory",
            Warning::XTermIgnoresPath => "I can't get the escaping to work for xterm so just opening a terminal. PRs welcome!",
        }
    }
}

} // verus!
