use vstd::prelude::*;
use vstd::string::StringExecFns;

use crate::path::{escaped, path_warning, sanitize, SanitizeError};
use crate::settings::Settings;
use crate::terminal::{render_warning, rendered_command, TemplateError, Terminal};
use crate::Warning;

verus! {

/// A command for i3 to run, with what the user should be warned of.
#[derive(Debug)]
pub struct Launch {
    pub command: String,
    pub warnings: Vec<Warning>,
}

/// Why no command could be made.
#[derive(Debug, Clone, Copy, PartialEq, Eq, Structural)]
pub enum TermError {
    Sanitize(SanitizeError),
    Template(TemplateError),
}

impl TermError {
    /// A message for the user.
    pub fn message(&self) -> (r: &'static str)
        ensures
            *self is Sanitize ==> r@ == "i3 does not support paths containing \"'\" (single quote)"@,
            *self is Template ==> r@ == "custom terminal templates are not implemented"@,
    {
        match self {
            TermError::Sanitize(e) => e.message(),
            TermError::Template(e) => e.message(),
        }
    }
}

/// The warning, if any, as a sequence.
pub open spec fn warning_seq(w: Option<Warning>) -> Seq<Warning> {
    match w {
        Some(x) => seq![x],
        None => Seq::empty(),
    }
}

/// The i3 command that starts terminal `t` in directory `cwd`.
pub open spec fn launch_command(t: Terminal, cwd: Seq<char>) -> Seq<char> {
    "exec "@ + rendered_command(t, escaped(cwd))
}

/// The command that asks i3 to start the configured terminal in `cwd`: the
/// directory is sanitized first, so a single quote in it stops everything
/// before a template is looked at; then the terminal's template is rendered.
/// Warnings of the path come before those of the template.
pub fn term_command(settings: &Settings, cwd: &str) -> (r: Result<Launch, TermError>)
    ensures
        cwd@.contains('\'') ==> r == Err::<Launch, TermError>(TermError::Sanitize(SanitizeError::SingleQuote)),
        !cwd@.contains('\'') && settings.create_terminal is Custom ==> r == Err::<Launch, TermError>(
            TermError::Template(TemplateError::Unimplemented),
        ),
        !cwd@.contains('\'') && !(settings.create_terminal is Custom) ==> (r matches Ok(l)
            && l.command@ == launch_command(settings.create_terminal, cwd@)
            && l.warnings@ == warning_seq(path_warning(cwd@)) + warning_seq(render_warning(settings.create_terminal))),
{
    let path = match sanitize(cwd) {
        Ok(p) => p,
        Err(e) => return Err(TermError::Sanitize(e)),
    };
    let template = settings.create_terminal.display(path.as_str());
    let rendered = match template.render() {
        Ok(c) => c,
        Err(e) => return Err(TermError::Template(e)),
    };
    let mut warnings: Vec<Warning> = Vec::new();
    if let Some(w) = path.warning() {
        warnings.push(w);
    }
    if let Some(w) = rendered.warning {
        warnings.push(w);
    }
    assert(warnings@ =~= warning_seq(path_warning(cwd@)) + warning_seq(render_warning(settings.create_terminal)));
    let command = String::from_str("exec ").concat(rendered.command.as_str());
    Ok(Launch { command, warnings })
}

} // verus!
