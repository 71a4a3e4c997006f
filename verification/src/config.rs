//! The configuration file: its sections, their defaults, and the choice of
//! output theme.

use crate::style::{plain_style, style_of, FmtToken, Theme};
use crate::themes::Themes;
use core::time::Duration;
use nu_ansi_term::{Color, Style};
use ubyte::ByteUnit;
use vstd::prelude::*;

verus! {

/// A byte count of `ubyte`, kept opaque: its field is private.
#[verifier::external_type_specification]
#[verifier::external_body]
pub struct ExByteUnit(ByteUnit);

/// What `Duration::from_secs(secs)` of std returns.
pub uninterp spec fn duration_from_secs(secs: u64) -> Duration;

/// `Duration::from_secs` of std: the duration of `secs` whole seconds.
pub assume_specification[ Duration::from_secs ](secs: u64) -> (d: Duration)
    ensures
        d == duration_from_secs(secs),
;

/// `Clone::clone` of std's `Duration`, a `Copy` type: returns the same duration.
pub assume_specification[ <Duration as Clone>::clone ](d: &Duration) -> (r: Duration)
    ensures
        r == *d,
;

/// `Clone::clone` of `ubyte`'s `ByteUnit`, derived beside `Copy`: returns
/// the same byte count.
pub assume_specification[ <ByteUnit as Clone>::clone ](b: &ByteUnit) -> (r: ByteUnit)
    ensures
        r == *b,
;

/// What `ByteUnit::Megabyte(n)` of `ubyte` returns. The byte count inside
/// is left unsaid: the type's only field is private, so it stays opaque.
pub uninterp spec fn megabytes(n: u64) -> ByteUnit;

/// `ByteUnit::Megabyte` of `ubyte`: `n` megabytes (saturating at `u64::MAX`
/// bytes).
pub assume_specification[ ByteUnit::Megabyte ](n: u64) -> (b: ByteUnit)
    ensures
        b == megabytes(n),
;

/// General settings.
#[derive(Clone)]
pub struct Rink {
    /// Which prompt to render when run interactively.
    pub prompt: String,
    /// Use multi-line output for lists.
    pub long_output: bool,
}

impl Default for Rink {
    fn default() -> (r: Rink)
        ensures
            r.prompt@ == "> "@,
            !r.long_output,
    {
        Rink { prompt: "> ".to_owned(), long_output: false }
    }
}

/// Settings for live currency data.
#[derive(Clone)]
pub struct Currency {
    /// Set to false to disable currency loading entirely.
    pub enabled: bool,
    /// Set to false to only reuse the existing cached currency data.
    pub fetch_on_startup: bool,
    /// Which web endpoint should be used to download currency data?
    pub endpoint: String,
    /// How long to cache for.
    pub cache_duration: Duration,
    /// How long to wait before timing out requests.
    pub timeout: Duration,
}

impl Default for Currency {
    fn default() -> (c: Currency)
        ensures
            c.enabled,
            c.fetch_on_startup,
            c.endpoint@ == "https://rinkcalc.app/data/currency.json"@,
            c.cache_duration == duration_from_secs(3600),
            c.timeout == duration_from_secs(2),
    {
        Currency {
            enabled: true,
            fetch_on_startup: true,
            endpoint: "https://rinkcalc.app/data/currency.json".to_owned(),
            cache_duration: Duration::from_secs(60 * 60),
            timeout: Duration::from_secs(2),
        }
    }
}

/// Settings for coloured output.
#[derive(Clone)]
pub struct Colors {
    /// Whether support for colored output should be enabled.
    pub enabled: Option<bool>,
    /// The name of the current theme.
    pub theme: String,
}

impl Default for Colors {
    fn default() -> (c: Colors)
        ensures
            c.enabled is None,
            c.theme@ == "default"@,
    {
        Colors { enabled: None, theme: "default".to_owned() }
    }
}

/// Settings for the sandbox that queries run in.
#[derive(Clone)]
pub struct Limits {
    /// Whether support for sandboxing is enabled.
    pub enabled: bool,
    /// Whether performance metrics are shown after each query.
    pub show_metrics: bool,
    /// The maximum amount of heap that can be used per query, in megabytes.
    pub memory: ByteUnit,
    /// How long to wait before cancelling a query.
    pub timeout: Duration,
}

impl Default for Limits {
    fn default() -> (l: Limits)
        ensures
            !l.enabled,
            !l.show_metrics,
            l.memory == megabytes(20),
            l.timeout == duration_from_secs(10),
    {
        Limits {
            enabled: false,
            show_metrics: false,
            memory: ByteUnit::Megabyte(20),
            timeout: Duration::from_secs(10),
        }
    }
}

/// `base` with the foreground colour `color`.
pub open spec fn colored(base: Style, color: Color) -> Style {
    Style { foreground: Some(color), ..base }
}

/// The theme used when colours are on and no user theme of the configured
/// name exists.
pub open spec fn builtin_theme() -> Theme {
    Theme {
        plain: plain_style(),
        error: colored(plain_style(), Color::Red),
        unit: colored(plain_style(), Color::Cyan),
        quantity: Style { is_dimmed: true, ..colored(plain_style(), Color::Cyan) },
        number: plain_style(),
        user_input: Style { is_bold: true, ..plain_style() },
        doc_string: Style { is_italic: true, ..plain_style() },
        pow: plain_style(),
        prop_name: colored(plain_style(), Color::Cyan),
        date_time: plain_style(),
        link: colored(plain_style(), Color::Blue),
    }
}

/// The whole configuration.
#[derive(Clone)]
pub struct Config {
    pub rink: Rink,
    pub currency: Currency,
    pub colors: Colors,
    pub limits: Limits,
    pub themes: Themes,
    /// The theme used when colours are on and no user theme of the configured
    /// name exists.
    pub default_theme: Theme,
    /// The theme used when colours are off.
    pub disabled_theme: Theme,
}

/// `c` is the default configuration: every section holds its defaults,
/// there are no user themes, the fallback theme is the built-in one and the
/// colourless theme draws everything unstyled.
pub open spec fn is_default_config(c: Config) -> bool {
    &&& c.rink.prompt@ == "> "@
    &&& !c.rink.long_output
    &&& c.currency.enabled
    &&& c.currency.fetch_on_startup
    &&& c.currency.endpoint@ == "https://rinkcalc.app/data/currency.json"@
    &&& c.currency.cache_duration == duration_from_secs(3600)
    &&& c.currency.timeout == duration_from_secs(2)
    &&& c.colors.enabled is None
    &&& c.colors.theme@ == "default"@
    &&& !c.limits.enabled
    &&& !c.limits.show_metrics
    &&& c.limits.memory == megabytes(20)
    &&& c.limits.timeout == duration_from_secs(10)
    &&& c.themes@ == Map::<Seq<char>, Theme>::empty()
    &&& c.default_theme == builtin_theme()
    &&& forall|token: FmtToken| #[trigger] style_of(c.disabled_theme, token) == plain_style()
}

impl Default for Config {
    fn default() -> (c: Config)
        ensures
            is_default_config(c),
    {
        Config {
            rink: Rink::default(),
            currency: Currency::default(),
            colors: Colors::default(),
            themes: Themes::new(),
            limits: Limits::default(),
            default_theme: Theme {
                plain: Style::new(),
                error: Style::new().fg(Color::Red),
                unit: Style::new().fg(Color::Cyan),
                quantity: Style::new().fg(Color::Cyan).dimmed(),
                number: Style::new(),
                user_input: Style::new().bold(),
                doc_string: Style::new().italic(),
                pow: Style::new(),
                prop_name: Style::new().fg(Color::Cyan),
                date_time: Style::new(),
                link: Style::new().fg(Color::Blue),
            },
            disabled_theme: Theme::default(),
        }
    }
}

/// Whether output is coloured: an explicit setting wins; otherwise colours
/// are on unless the `NO_COLOR` environment variable is set.
pub open spec fn colors_enabled(colors: Colors, no_color_set: bool) -> bool {
    match colors.enabled {
        Some(enabled) => enabled,
        None => !no_color_set,
    }
}

/// The theme that `config` selects: when colours are on, the user theme
/// named in the colour settings, or the built-in default theme if there is
/// none of that name; when colours are off, the colourless theme.
pub open spec fn selected_theme(config: Config, no_color_set: bool) -> Theme {
    if colors_enabled(config.colors, no_color_set) {
        if config.themes@.contains_key(config.colors.theme@) {
            config.themes@[config.colors.theme@]
        } else {
            config.default_theme
        }
    } else {
        config.disabled_theme
    }
}

/// An explicit colour setting decides alone: whether `NO_COLOR` is set then
/// makes no difference to the theme.
pub proof fn lemma_explicit_colors_setting_wins(config: Config, no_color_a: bool, no_color_b: bool)
    requires
        config.colors.enabled is Some,
    ensures
        selected_theme(config, no_color_a) == selected_theme(config, no_color_b),
{
}

/// With colours left to the environment, setting `NO_COLOR` turns them off,
/// and the colourless theme is used.
pub proof fn lemma_no_color_disables(config: Config)
    requires
        config.colors.enabled is None,
    ensures
        selected_theme(config, true) == config.disabled_theme,
{
}

impl Config {
    /// The theme to draw output with; `no_color_set` tells whether the
    /// `NO_COLOR` environment variable is set.
    pub fn get_theme(&self, no_color_set: bool) -> (t: &Theme)
        ensures
            *t == selected_theme(*self, no_color_set),
    {
        let colors_enabled = match self.colors.enabled {
            Some(enabled) => enabled,
            None => !no_color_set,
        };
        if colors_enabled {
            let name = &self.colors.theme;
            match self.themes.get(name) {
                Some(theme) => theme,
                None => &self.default_theme,
            }
        } else {
            &self.disabled_theme
        }
    }
}

} // verus!

verus! {

/// What became of an attempt to read and parse `config.toml`.
pub enum ConfigFile {
    /// There is no configuration directory to look in.
    NoDirectory,
    /// The file does not exist.
    Missing,
    /// The file could not be read, for the given reason.
    Unreadable(String),
    /// The file was read and parsed: into a configuration, or not, for the
    /// given reason.
    Parsed(Result<Config, String>),
}

/// Why the configuration could not be had.
#[derive(Debug, PartialEq, Eq)]
pub enum ConfigError {
    /// There is no configuration directory.
    NoDirectory,
    /// `config.toml` is not valid; the reason is attached.
    Invalid(String),
    /// `config.toml` could not be read; the reason is attached.
    Unreadable(String),
}

impl ConfigError {
    /// The message that heads this error.
    pub open spec fn spec_message(self) -> Seq<char> {
        match self {
            ConfigError::NoDirectory => "Could not find config directory"@,
            ConfigError::Invalid(_) => "While parsing config.toml"@,
            ConfigError::Unreadable(_) => "Failed to read config.toml"@,
        }
    }

    /// The message that heads this error.
    pub fn message(&self) -> (m: String)
        ensures
            m@ == self.spec_message(),
    {
        let mut m = String::new();
        match self {
            ConfigError::NoDirectory => m.append("Could not find config directory"),
            ConfigError::Invalid(_) => m.append("While parsing config.toml"),
            ConfigError::Unreadable(_) => m.append("Failed to read config.toml"),
        }
        m
    }
}

/// The configuration, given what reading `config.toml` gave: a missing file
/// means the default configuration; an invalid file, an unreadable file or a
/// missing configuration directory is an error.
pub fn read_config(file: ConfigFile) -> (r: Result<Config, ConfigError>)
    ensures
        match file {
            ConfigFile::NoDirectory => r == Err::<Config, ConfigError>(ConfigError::NoDirectory),
            ConfigFile::Missing => r matches Ok(c) && is_default_config(c),
            ConfigFile::Unreadable(reason) => r == Err::<Config, ConfigError>(
                ConfigError::Unreadable(reason),
            ),
            ConfigFile::Parsed(Ok(c)) => r == Ok::<Config, ConfigError>(c),
            ConfigFile::Parsed(Err(reason)) => r == Err::<Config, ConfigError>(
                ConfigError::Invalid(reason),
            ),
        },
{
    match file {
        ConfigFile::NoDirectory => Err(ConfigError::NoDirectory),
        ConfigFile::Missing => Ok(Config::default()),
        ConfigFile::Unreadable(reason) => Err(ConfigError::Unreadable(reason)),
        ConfigFile::Parsed(Ok(c)) => Ok(c),
        ConfigFile::Parsed(Err(reason)) => Err(ConfigError::Invalid(reason)),
    }
}

} // verus!

verus! {

/// Whenever colours are on, explicitly or by default, a user theme of the
/// configured name is the theme used; without one, the built-in default
/// theme is; and whenever colours are off, the colourless theme is.
pub proof fn lemma_theme_choice(config: Config, no_color_set: bool)
    ensures
        colors_enabled(config.colors, no_color_set) && config.themes@.contains_key(
            config.colors.theme@,
        ) ==> selected_theme(config, no_color_set) == config.themes@[config.colors.theme@],
        colors_enabled(config.colors, no_color_set) && !config.themes@.contains_key(
            config.colors.theme@,
        ) ==> selected_theme(config, no_color_set) == config.default_theme,
        !colors_enabled(config.colors, no_color_set) ==> selected_theme(config, no_color_set)
            == config.disabled_theme,
{
}

/// Colours are on when explicitly enabled, off when explicitly disabled,
/// and otherwise on exactly when `NO_COLOR` is not set.
pub proof fn lemma_colors_enabled(colors: Colors, no_color_set: bool)
    ensures
        colors.enabled == Some(true) ==> colors_enabled(colors, no_color_set),
        colors.enabled == Some(false) ==> !colors_enabled(colors, no_color_set),
        colors.enabled is None ==> (colors_enabled(colors, no_color_set) <==> !no_color_set),
{
}

/// The built-in default theme draws errors in red; units, quantities and
/// property names in cyan (quantities dimmed); links in blue; user input
/// bold; documentation italic; and plain text, numbers, exponents and dates
/// without any style.
pub proof fn lemma_builtin_theme_colors()
    ensures
        style_of(builtin_theme(), FmtToken::Error).foreground == Some(Color::Red),
        style_of(builtin_theme(), FmtToken::Unit).foreground == Some(Color::Cyan),
        style_of(builtin_theme(), FmtToken::Quantity).foreground == Some(Color::Cyan),
        style_of(builtin_theme(), FmtToken::Quantity).is_dimmed,
        style_of(builtin_theme(), FmtToken::PropName).foreground == Some(Color::Cyan),
        style_of(builtin_theme(), FmtToken::Link).foreground == Some(Color::Blue),
        style_of(builtin_theme(), FmtToken::UserInput).is_bold,
        style_of(builtin_theme(), FmtToken::DocString).is_italic,
        style_of(builtin_theme(), FmtToken::Plain) == plain_style(),
        style_of(builtin_theme(), FmtToken::Number) == plain_style(),
        style_of(builtin_theme(), FmtToken::Pow) == plain_style(),
        style_of(builtin_theme(), FmtToken::DateTime) == plain_style(),
{
}

} // verus!
