use clap_verbosity_flag::Verbosity;
use i3ctl::settings::{Opt, Settings, Subcommand};
use i3ctl::terminal::{ParseTerminalError, Terminal};

fn opt(cmd: Subcommand) -> Opt {
    Opt { cmd, verbosity: Verbosity::new(0, 0, 1) }
}

#[test]
fn resolve_defaults_to_alacritty() {
    let mut s = Settings::resolve(None, None).unwrap();
    s.merge_opt(&opt(Subcommand::PrintConfigLocation));
    assert!(matches!(s.create_terminal, Terminal::Alacritty));
    assert!(matches!(Settings::default().create_terminal, Terminal::Alacritty));
}

#[test]
fn resolve_reads_config_file() {
    let mut s = Settings::resolve(Some("urxvt"), None).unwrap();
    s.merge_opt(&opt(Subcommand::PrintConfigLocation));
    assert!(matches!(s.create_terminal, Terminal::Urxvt));
}

#[test]
fn command_line_wins_over_config_file() {
    let mut s = Settings::resolve(Some("urxvt"), None).unwrap();
    let terminal = Terminal::parse("xterm").unwrap();
    s.merge_opt(&opt(Subcommand::Term { terminal }));
    assert!(matches!(s.create_terminal, Terminal::XTerm));
}

#[test]
fn environment_wins_over_config_file() {
    let s = Settings::resolve(Some("urxvt"), Some("gnome-terminal")).unwrap();
    assert!(matches!(s.create_terminal, Terminal::GnomeTerminal));
    let s = Settings::resolve(Some("not a terminal"), Some("xterm")).unwrap();
    assert!(matches!(s.create_terminal, Terminal::XTerm));
}

#[test]
fn resolve_rejects_invalid_values() {
    assert_eq!(Settings::resolve(Some("kitty"), None).unwrap_err(), ParseTerminalError::Unrecognized);
    assert_eq!(Settings::resolve(Some("urxvt"), Some("Urxvt")).unwrap_err(), ParseTerminalError::Unrecognized);
}
