use nu_ansi_term::{Color, Style};
use rink::config::{Colors, Config, Currency, Limits, Rink};
use rink::style::{FmtToken, Theme};
use rink::themes::Themes;
use std::time::Duration;
use ubyte::ByteUnit;

#[test]
fn rink_defaults() {
    let r = Rink::default();
    assert_eq!(r.prompt, "> ");
    assert!(!r.long_output);
}

#[test]
fn currency_defaults() {
    let c = Currency::default();
    assert!(c.enabled);
    assert!(c.fetch_on_startup);
    assert_eq!(c.endpoint, "https://rinkcalc.app/data/currency.json");
    assert_eq!(c.cache_duration, Duration::from_secs(3600));
    assert_eq!(c.timeout, Duration::from_secs(2));
}

#[test]
fn colors_defaults() {
    let c = Colors::default();
    assert_eq!(c.enabled, None);
    assert_eq!(c.theme, "default");
}

#[test]
fn limits_defaults() {
    let l = Limits::default();
    assert!(!l.enabled);
    assert!(!l.show_metrics);
    assert_eq!(l.memory.as_u64(), 20_000_000);
    assert_eq!(l.memory, ByteUnit::Megabyte(20));
    assert_eq!(l.timeout, Duration::from_secs(10));
}

#[test]
fn default_theme_styles() {
    let c = Config::default();
    let t = &c.default_theme;
    assert_eq!(t.get_style(FmtToken::Error), Style::new().fg(Color::Red));
    assert_eq!(t.get_style(FmtToken::Unit), Style::new().fg(Color::Cyan));
    assert_eq!(t.get_style(FmtToken::Quantity), Style::new().fg(Color::Cyan).dimmed());
    assert_eq!(t.get_style(FmtToken::UserInput), Style::new().bold());
    assert_eq!(t.get_style(FmtToken::DocString), Style::new().italic());
    assert_eq!(t.get_style(FmtToken::Link), Style::new().fg(Color::Blue));
    assert_eq!(t.get_style(FmtToken::Number), Style::default());
    assert_eq!(t.get_style(FmtToken::ListBegin), t.plain);
    assert_eq!(t.get_style(FmtToken::ListSep), t.plain);
    let d = &c.disabled_theme;
    assert_eq!(d.get_style(FmtToken::Error), Style::default());
}

fn red_theme() -> Theme {
    let mut t = Theme::default();
    t.number = Style::new().fg(Color::Red);
    t
}

#[test]
fn theme_selection() {
    let mut c = Config::default();
    // Colours follow NO_COLOR when not set explicitly.
    assert_eq!(c.get_theme(false).error, Style::new().fg(Color::Red));
    assert_eq!(c.get_theme(true).error, Style::default());
    // An explicit setting wins over NO_COLOR.
    c.colors.enabled = Some(true);
    assert_eq!(c.get_theme(true).error, Style::new().fg(Color::Red));
    c.colors.enabled = Some(false);
    assert_eq!(c.get_theme(false).error, Style::default());
    // A user theme of the configured name is used.
    let mut themes = Themes::new();
    themes.insert("red".to_owned(), red_theme());
    c.themes = themes;
    c.colors.enabled = None;
    c.colors.theme = "red".to_owned();
    assert_eq!(c.get_theme(false).number, Style::new().fg(Color::Red));
    // An unknown name falls back to the default theme.
    c.colors.theme = "blue".to_owned();
    assert_eq!(c.get_theme(false).number, Style::default());
    assert_eq!(c.get_theme(false).error, Style::new().fg(Color::Red));
}

#[test]
fn themes_read_after_write() {
    let mut themes = Themes::new();
    assert!(themes.get(&"a".to_owned()).is_none());
    themes.insert("a".to_owned(), red_theme());
    themes.insert("b".to_owned(), Theme::default());
    assert_eq!(themes.get(&"a".to_owned()).unwrap().number, Style::new().fg(Color::Red));
    themes.insert("a".to_owned(), Theme::default());
    assert_eq!(themes.get(&"a".to_owned()).unwrap().number, Style::default());
    assert!(themes.get(&"c".to_owned()).is_none());
}

use rink::config::{read_config, ConfigError, ConfigFile};

#[test]
fn read_config_outcomes() {
    let c = read_config(ConfigFile::Missing).ok().unwrap();
    assert_eq!(c.rink.prompt, "> ");
    assert_eq!(c.colors.theme, "default");
    assert!(c.themes.get(&"default".to_owned()).is_none());
    let e = read_config(ConfigFile::NoDirectory).err().unwrap();
    assert_eq!(e, ConfigError::NoDirectory);
    assert_eq!(e.message(), "Could not find config directory");
    let e = read_config(ConfigFile::Unreadable("denied".to_owned())).err().unwrap();
    assert_eq!(e, ConfigError::Unreadable("denied".to_owned()));
    assert_eq!(e.message(), "Failed to read config.toml");
    let e = read_config(ConfigFile::Parsed(Err("bad".to_owned()))).err().unwrap();
    assert_eq!(e, ConfigError::Invalid("bad".to_owned()));
    assert_eq!(e.message(), "While parsing config.toml");
    let mut given = Config::default();
    given.rink.prompt = "$ ".to_owned();
    let c = read_config(ConfigFile::Parsed(Ok(given))).ok().unwrap();
    assert_eq!(c.rink.prompt, "$ ");
}

#[test]
fn cloned_config_keeps_durations() {
    let c = Config::default();
    let d = c.clone();
    assert_eq!(d.currency.cache_duration, Duration::from_secs(3600));
    assert_eq!(d.limits.timeout, Duration::from_secs(10));
    assert_eq!(d.limits.memory, ByteUnit::Megabyte(20));
}
