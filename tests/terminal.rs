use i3ctl::terminal::{ParseTerminalError, Terminal, TemplateError};
use i3ctl::Warning;

fn template_of(t: &Terminal) -> Option<&str> {
    match t {
        Terminal::Custom { template } => Some(template.as_str()),
        _ => None,
    }
}

#[test]
fn parse_known_names() {
    assert!(matches!(Terminal::parse("alacritty"), Ok(Terminal::Alacritty)));
    assert!(matches!(Terminal::parse("urxvt"), Ok(Terminal::Urxvt)));
    assert!(matches!(Terminal::parse("gnome-terminal"), Ok(Terminal::GnomeTerminal)));
    assert!(matches!(Terminal::parse("xterm"), Ok(Terminal::XTerm)));
}

#[test]
fn parse_custom_keeps_body() {
    let t = Terminal::parse("custom(st -d '{}')").unwrap();
    assert_eq!(template_of(&t), Some("st -d '{}'"));
    let t = Terminal::parse("custom()").unwrap();
    assert_eq!(template_of(&t), Some(""));
    let t = Terminal::parse("custom( x )").unwrap();
    assert_eq!(template_of(&t), Some(" x "));
}

#[test]
fn parse_rejects_other_strings() {
    for s in ["", "Alacritty", " alacritty", "alacritty ", "custom(", "custom(x", "custom)", "xcustom(a)", "kitty"] {
        assert_eq!(Terminal::parse(s).unwrap_err(), ParseTerminalError::Unrecognized, "{:?}", s);
    }
    let m = ParseTerminalError::Unrecognized.message();
    assert!(m.contains("custom(.. your command here ..)"));
    for name in ["\"alacritty\"", "\"urxvt\"", "\"gnome-terminal\"", "\"xterm\""] {
        assert!(m.contains(name), "{}", name);
    }
}

#[test]
fn from_str_agrees_with_parse() {
    let t: Terminal = "urxvt".parse().unwrap();
    assert!(matches!(t, Terminal::Urxvt));
    assert!("nope".parse::<Terminal>().is_err());
}

#[test]
fn identifier_parses_back() {
    let all = [
        Terminal::Alacritty,
        Terminal::Urxvt,
        Terminal::GnomeTerminal,
        Terminal::XTerm,
        Terminal::Custom { template: "foot -D '{}'".to_string() },
    ];
    for t in all.iter() {
        let back = Terminal::parse(&t.identifier()).unwrap();
        assert_eq!(back.identifier(), t.identifier());
    }
    assert_eq!(Terminal::GnomeTerminal.identifier(), "gnome-terminal");
    assert_eq!(Terminal::Custom { template: "a)".to_string() }.identifier(), "custom(a))");
}

#[test]
fn default_and_clone() {
    assert!(matches!(Terminal::default(), Terminal::Alacritty));
    let t = Terminal::Custom { template: "abc".to_string() };
    assert_eq!(template_of(&t.clone()), Some("abc"));
}

#[test]
fn render_exact_templates() {
    let p = "/home/alice/proj";
    let r = Terminal::Alacritty.display(p).render().unwrap();
    assert_eq!(r.command, "alacritty --working-directory '/home/alice/proj'");
    assert_eq!(r.warning, None);
    let r = Terminal::Urxvt.display(p).render().unwrap();
    assert_eq!(r.command, "urxvt --chdir '/home/alice/proj'");
    assert_eq!(r.warning, None);
    let r = Terminal::GnomeTerminal.display(p).render().unwrap();
    assert_eq!(r.command, "gnome-terminal --working-directory='/home/alice/proj'");
    assert_eq!(r.warning, None);
}

#[test]
fn render_xterm_ignores_path_and_warns() {
    for p in ["/", "/home/alice/proj", "", "/a\\\\b"] {
        let r = Terminal::XTerm.display(p).render().unwrap();
        assert_eq!(r.command, "xterm");
        assert_eq!(r.warning, Some(Warning::XTermIgnoresPath));
    }
}

#[test]
fn render_custom_is_unimplemented() {
    let t = Terminal::Custom { template: "st".to_string() };
    assert_eq!(t.display("/tmp").render().unwrap_err(), TemplateError::Unimplemented);
    assert_eq!(TemplateError::Unimplemented.message(), "custom terminal templates are not implemented");
}
