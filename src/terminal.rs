use vstd::prelude::*;
use vstd::string::StrSliceExecFns;
use vstd::string::StringExecFns;

use crate::strings::{starts_with, str_equal};
use crate::Warning;

verus! {

/// A terminal emulator, and how to start it in a given directory.
#[derive(Debug)]
pub enum Terminal {
    Alacritty,
    Urxvt,
    GnomeTerminal,
    XTerm,
    Custom {
        /// The template for starting the terminal at the given location.
        template: String,
    },
}

/// Why an identifier names no terminal.
#[derive(Debug, Clone, Copy, PartialEq, Eq, Structural)]
pub enum ParseTerminalError {
    /// Neither a known terminal nor of the form `custom(..)`.
    Unrecognized,
}

impl ParseTerminalError {
    /// A message that names the accepted forms.
    pub fn message(&self) -> (r: &'static str)
        ensures
            r@ == "terminal must be one of \"alacritty\", \"urxvt\", \"gnome-terminal\", \"xterm\", or of form \"custom(.. your command here ..)\""@,
    {
        "terminal must be one of \"alacritty\", \"urxvt\", \"gnome-terminal\", \"xterm\", or of form \"custom(.. your command here ..)\""
    }
}

pub open spec fn custom_open() -> Seq<char> {
    "custom("@
}

pub open spec fn custom_close() -> Seq<char> {
    ")"@
}

/// `s` is `custom(` followed by a body and `)`.
pub open spec fn is_custom_form(s: Seq<char>) -> bool {
    &&& s.len() >= custom_open().len() + custom_close().len()
    &&& s.subrange(0, custom_open().len() as int) == custom_open()
    &&& s.subrange(s.len() - custom_close().len(), s.len() as int) == custom_close()
}

/// The body of an identifier of the form `custom(<body>)`.
pub open spec fn custom_body(s: Seq<char>) -> Seq<char> {
    s.subrange(custom_open().len() as int, s.len() - custom_close().len())
}

/// One of the fixed names of the known terminals.
pub open spec fn is_known_name(s: Seq<char>) -> bool {
    s == "alacritty"@ || s == "urxvt"@ || s == "gnome-terminal"@ || s == "xterm"@
}

/// Whether `s` is an identifier of some terminal.
pub open spec fn is_identifier(s: Seq<char>) -> bool {
    is_known_name(s) || is_custom_form(s)
}

/// `s` is an identifier, and the terminal it stands for is `t`.
pub open spec fn identifies(s: Seq<char>, t: Terminal) -> bool {
    if s == "alacritty"@ {
        t is Alacritty
    } else if s == "urxvt"@ {
        t is Urxvt
    } else if s == "gnome-terminal"@ {
        t is GnomeTerminal
    } else if s == "xterm"@ {
        t is XTerm
    } else if is_custom_form(s) {
        t is Custom && t->Custom_template@ == custom_body(s)
    } else {
        false
    }
}

/// `t` and `u` are the same terminal: the same variant, and for custom
/// templates the same template text.
pub open spec fn same_terminal(t: Terminal, u: Terminal) -> bool {
    match t {
        Terminal::Alacritty => u is Alacritty,
        Terminal::Urxvt => u is Urxvt,
        Terminal::GnomeTerminal => u is GnomeTerminal,
        Terminal::XTerm => u is XTerm,
        Terminal::Custom { template } => u is Custom && u->Custom_template@ == template@,
    }
}

/// An identifier stands for one terminal only. So what `parse` reads from
/// the identifier that `identifier` writes for a terminal is that terminal.
pub proof fn lemma_identifier_names_one_terminal(s: Seq<char>, t: Terminal, u: Terminal)
    requires
        identifies(s, t),
        identifies(s, u),
    ensures
        same_terminal(t, u),
{
}

/// The four known names differ from one another, and none of them has the
/// form `custom(..)`; so each names its own terminal.
pub proof fn lemma_known_names_distinct()
    ensures
        "alacritty"@ != "urxvt"@,
        "alacritty"@ != "gnome-terminal"@,
        "alacritty"@ != "xterm"@,
        "urxvt"@ != "gnome-terminal"@,
        "urxvt"@ != "xterm"@,
        "gnome-terminal"@ != "xterm"@,
        !is_custom_form("alacritty"@),
        !is_custom_form("urxvt"@),
        !is_custom_form("gnome-terminal"@),
        !is_custom_form("xterm"@),
{
    reveal_strlit("alacritty");
    reveal_strlit("urxvt");
    reveal_strlit("gnome-terminal");
    reveal_strlit("xterm");
    reveal_strlit("custom(");
    reveal_strlit(")");
    assert("alacritty"@.len() != "urxvt"@.len());
    assert("alacritty"@.len() != "gnome-terminal"@.len());
    assert("alacritty"@.len() != "xterm"@.len());
    assert("urxvt"@.len() != "gnome-terminal"@.len());
    assert("urxvt"@[0] != "xterm"@[0]);
    assert("gnome-terminal"@.len() != "xterm"@.len());
    assert("alacritty"@.subrange(0, 7)[0] != "custom("@[0]);
    assert("gnome-terminal"@.subrange(0, 7)[0] != "custom("@[0]);
}

impl Terminal {
    /// Reads a terminal identifier: one of the known names, matched exactly,
    /// or `custom(<template>)`, whose template is kept as written.
    pub fn parse(s: &str) -> (r: Result<Terminal, ParseTerminalError>)
        ensures
            r is Ok <==> is_identifier(s@),
            r matches Ok(t) ==> identifies(s@, t),
            r is Err ==> r == Err::<Terminal, ParseTerminalError>(ParseTerminalError::Unrecognized),
    {
        if str_equal(s, "alacritty") {
            return Ok(Terminal::Alacritty);
        }
        if str_equal(s, "urxvt") {
            return Ok(Terminal::Urxvt);
        }
        if str_equal(s, "gnome-terminal") {
            return Ok(Terminal::GnomeTerminal);
        }
        if str_equal(s, "xterm") {
            return Ok(Terminal::XTerm);
        }
        let open = "custom(";
        let close = ")";
        proof {
            reveal_strlit("custom(");
            reveal_strlit(")");
        }
        let n = s.unicode_len();
        if n < 8 || !starts_with(s, open) || s.get_char(n - 1) != ')' {
            proof {
                if is_custom_form(s@) {
                    assert(s@.subrange(s@.len() - 1, s@.len() as int)[0] == s@[s@.len() - 1]);
                }
            }
            return Err(ParseTerminalError::Unrecognized);
        }
        assert(s@.subrange(s@.len() - 1, s@.len() as int) =~= close@);
        let body = s.substring_char(7, n - 1);
        Ok(Terminal::Custom { template: String::from_str(body) })
    }
}

impl Terminal {
    /// The same terminal, as a new value.
    pub fn duplicate(&self) -> (r: Terminal)
        ensures
            r == *self,
    {
        match self {
            Terminal::Alacritty => Terminal::Alacritty,
            Terminal::Urxvt => Terminal::Urxvt,
            Terminal::GnomeTerminal => Terminal::GnomeTerminal,
            Terminal::XTerm => Terminal::XTerm,
            Terminal::Custom { template } => Terminal::Custom { template: template.clone() },
        }
    }

    /// The identifier that `parse` reads back as this terminal.
    pub fn identifier(&self) -> (id: String)
        ensures
            identifies(id@, *self),
    {
        proof {
            reveal_strlit("alacritty");
            reveal_strlit("urxvt");
            reveal_strlit("gnome-terminal");
            reveal_strlit("xterm");
            reveal_strlit("custom(");
            reveal_strlit(")");
        }
        match self {
            Terminal::Alacritty => String::from_str("alacritty"),
            Terminal::Urxvt => {
                let id = String::from_str("urxvt");
                assert(id@.len() != "alacritty"@.len());
                id
            },
            Terminal::GnomeTerminal => {
                let id = String::from_str("gnome-terminal");
                assert(id@.len() != "alacritty"@.len() && id@.len() != "urxvt"@.len());
                id
            },
            Terminal::XTerm => {
                let id = String::from_str("xterm");
                assert(id@.len() != "alacritty"@.len() && id@.len() != "gnome-terminal"@.len());
                assert(id@[0] != "urxvt"@[0]);
                id
            },
            Terminal::Custom { template } => {
                let id = String::from_str("custom(").concat(template.as_str()).concat(")");
                let ghost b = template@;
                assert(id@.subrange(0, 7) =~= custom_open());
                assert(id@.subrange(id@.len() - 1, id@.len() as int) =~= custom_close());
                assert(custom_body(id@) =~= b);
                assert(id@[0] == 'c');
                assert(id@ != "alacritty"@);
                assert(id@ != "urxvt"@);
                assert(id@ != "gnome-terminal"@);
                assert(id@ != "xterm"@);
                id
            },
        }
    }
}

impl Clone for Terminal {
    fn clone(&self) -> (r: Terminal)
        ensures
            r == *self,
    {
        self.duplicate()
    }
}

impl Default for Terminal {
    fn default() -> (r: Terminal)
        ensures
            r is Alacritty,
    {
        Terminal::Alacritty
    }
}

impl std::str::FromStr for Terminal {
    type Err = ParseTerminalError;

    fn from_str(s: &str) -> (r: Result<Terminal, ParseTerminalError>)
        ensures
            r is Ok <==> is_identifier(s@),
            r matches Ok(t) ==> identifies(s@, t),
            r is Err ==> r == Err::<Terminal, ParseTerminalError>(ParseTerminalError::Unrecognized),
    {
        Terminal::parse(s)
    }
}

impl Terminal {
    /// Pairs this terminal with an already escaped working directory, ready
    /// to be rendered into a command line.
    pub fn display<'a>(&'a self, escaped_path: &'a str) -> (r: TerminalTemplate<'a>)
        ensures
            *r.terminal == *self,
            r.path@ == escaped_path@,
    {
        TerminalTemplate { terminal: self, path: escaped_path }
    }
}

/// A terminal together with the directory it is to be started in.
#[derive(Debug)]
pub struct TerminalTemplate<'a> {
    pub terminal: &'a Terminal,
    pub path: &'a str,
}

/// A command line that starts a terminal.
#[derive(Debug)]
pub struct Rendered {
    pub command: String,
    pub warning: Option<Warning>,
}

/// Why a terminal cannot be rendered.
#[derive(Debug, Clone, Copy, PartialEq, Eq, Structural)]
pub enum TemplateError {
    /// Custom templates are not supported yet.
    Unimplemented,
}

impl TemplateError {
    /// A message for the user.
    pub fn message(&self) -> (r: &'static str)
        ensures
            r@ == "custom terminal templates are not implemented"@,
    {
        "custom terminal templates are not implemented"
    }
}

/// The command line that starts `t` in the directory `path`; empty for a
/// custom template, which cannot be rendered.
pub open spec fn rendered_command(t: Terminal, path: Seq<char>) -> Seq<char> {
    match t {
        Terminal::Alacritty => "alacritty --working-directory '"@ + path + "'"@,
        Terminal::Urxvt => "urxvt --chdir '"@ + path + "'"@,
        Terminal::GnomeTerminal => "gnome-terminal --working-directory='"@ + path + "'"@,
        Terminal::XTerm => "xterm"@,
        Terminal::Custom { .. } => Seq::empty(),
    }
}

/// The warning that rendering `t` brings.
pub open spec fn render_warning(t: Terminal) -> Option<Warning> {
    if t is XTerm {
        Some(Warning::XTermIgnoresPath)
    } else {
        None
    }
}

impl<'a> TerminalTemplate<'a> {
    /// The shell command that starts the terminal in the directory; xterm is
    /// started without one, with a warning that says so.
    pub fn render(&self) -> (r: Result<Rendered, TemplateError>)
        ensures
            r is Err <==> *self.terminal is Custom,
            r is Err ==> r == Err::<Rendered, TemplateError>(TemplateError::Unimplemented),
            r matches Ok(c) ==> c.command@ == rendered_command(*self.terminal, self.path@)
                && c.warning == render_warning(*self.terminal),
    {
        match self.terminal {
            Terminal::Alacritty => Ok(Rendered {
                command: String::from_str("alacritty --working-directory '").concat(self.path).concat("'"),
                warning: None,
            }),
            Terminal::Urxvt => Ok(Rendered {
                command: String::from_str("urxvt --chdir '").concat(self.path).concat("'"),
                warning: None,
            }),
            Terminal::GnomeTerminal => Ok(Rendered {
                command: String::from_str("gnome-terminal --working-directory='").concat(self.path).concat("'"),
                warning: None,
            }),
            Terminal::XTerm => Ok(Rendered {
                command: String::from_str("xterm"),
                warning: Some(Warning::XTermIgnoresPath),
            }),
            Terminal::Custom { .. } => Err(TemplateError::Unimplemented),
        }
    }
}

} // verus!
