//! Output styles: the tokens that formatted output is made of, and the
//! theme that gives each token its terminal style.

use nu_ansi_term::{Color, Style};
use vstd::prelude::*;

verus! {

/// The terminal style type of `nu_ansi_term`; all of its fields are public
/// plain values, so Verus reads them.
#[verifier::external_type_specification]
pub struct ExStyle(Style);

/// The terminal colour type of `nu_ansi_term`.
#[verifier::external_type_specification]
pub struct ExColor(Color);

/// The style with no property set (all colours absent, all flags off).
pub open spec fn plain_style() -> Style {
    Style {
        foreground: None,
        background: None,
        is_bold: false,
        is_dimmed: false,
        is_italic: false,
        is_underline: false,
        is_blink: false,
        is_reverse: false,
        is_hidden: false,
        is_strikethrough: false,
        prefix_with_reset: false,
    }
}

/// `Style::new` of `nu_ansi_term`: returns `Style::default()`, the style with
/// no property set.
pub assume_specification[ Style::new ]() -> (s: Style)
    ensures
        s == plain_style(),
;

/// `Style::fg` of `nu_ansi_term`: copies the style with the foreground colour
/// replaced by the given one.
pub assume_specification[ Style::fg ](s: &Style, foreground: Color) -> (r: Style)
    ensures
        r == (Style { foreground: Some(foreground), ..*s }),
;

/// `Style::bold` of `nu_ansi_term`: copies the style with `is_bold` set.
pub assume_specification[ Style::bold ](s: &Style) -> (r: Style)
    ensures
        r == (Style { is_bold: true, ..*s }),
;

/// `Style::dimmed` of `nu_ansi_term`: copies the style with `is_dimmed` set.
pub assume_specification[ Style::dimmed ](s: &Style) -> (r: Style)
    ensures
        r == (Style { is_dimmed: true, ..*s }),
;

/// `Style::italic` of `nu_ansi_term`: copies the style with `is_italic` set.
pub assume_specification[ Style::italic ](s: &Style) -> (r: Style)
    ensures
        r == (Style { is_italic: true, ..*s }),
;

/// The kinds of text that formatted query output is made of.
#[derive(Clone, Copy, Debug, PartialEq, Eq)]
pub enum FmtToken {
    /// Text without any special meaning.
    Plain,
    /// An error message.
    Error,
    /// A unit name.
    Unit,
    /// A quantity name, such as `length`.
    Quantity,
    /// A number.
    Number,
    /// Text quoted from what the user typed.
    UserInput,
    /// Documentation attached to a unit.
    DocString,
    /// An exponent.
    Pow,
    /// The name of a property of a substance.
    PropName,
    /// A date or a time.
    DateTime,
    /// A link.
    Link,
    /// The start of a list.
    ListBegin,
    /// The separator between list items.
    ListSep,
}

/// A terminal style for each kind of output token.
#[derive(Clone, Copy)]
pub struct Theme {
    pub plain: Style,
    pub error: Style,
    pub unit: Style,
    pub quantity: Style,
    pub number: Style,
    pub user_input: Style,
    pub doc_string: Style,
    pub pow: Style,
    pub prop_name: Style,
    pub date_time: Style,
    pub link: Style,
}

/// The style that `theme` gives to `token`. List delimiters are drawn in the
/// plain style, since they are laid out specially.
pub open spec fn style_of(theme: Theme, token: FmtToken) -> Style {
    match token {
        FmtToken::Plain => theme.plain,
        FmtToken::Error => theme.error,
        FmtToken::Unit => theme.unit,
        FmtToken::Quantity => theme.quantity,
        FmtToken::Number => theme.number,
        FmtToken::UserInput => theme.user_input,
        FmtToken::DocString => theme.doc_string,
        FmtToken::Pow => theme.pow,
        FmtToken::PropName => theme.prop_name,
        FmtToken::DateTime => theme.date_time,
        FmtToken::Link => theme.link,
        FmtToken::ListBegin => theme.plain,
        FmtToken::ListSep => theme.plain,
    }
}

impl Default for Theme {
    /// The theme in which every token is drawn without any style.
    fn default() -> (t: Theme)
        ensures
            forall|token: FmtToken| #[trigger] style_of(t, token) == plain_style(),
    {
        let s = Style::new();
        Theme {
            plain: s,
            error: s,
            unit: s,
            quantity: s,
            number: s,
            user_input: s,
            doc_string: s,
            pow: s,
            prop_name: s,
            date_time: s,
            link: s,
        }
    }
}

impl Theme {
    /// The style in which this theme draws `token`.
    pub fn get_style(&self, token: FmtToken) -> (s: Style)
        ensures
            s == style_of(*self, token),
    {
        match token {
            FmtToken::Plain => self.plain,
            FmtToken::Error => self.error,
            FmtToken::Unit => self.unit,
            FmtToken::Quantity => self.quantity,
            FmtToken::Number => self.number,
            FmtToken::UserInput => self.user_input,
            FmtToken::DocString => self.doc_string,
            FmtToken::Pow => self.pow,
            FmtToken::PropName => self.prop_name,
            FmtToken::DateTime => self.date_time,
            FmtToken::Link => self.link,
            FmtToken::ListBegin => self.plain,
            FmtToken::ListSep => self.plain,
        }
    }
}

} // verus!

verus! {

/// Every token but the list delimiters is drawn with the theme's style of
/// the same name; the list delimiters are drawn in the plain style.
pub proof fn lemma_token_styles(theme: Theme)
    ensures
        style_of(theme, FmtToken::Plain) == theme.plain,
        style_of(theme, FmtToken::Error) == theme.error,
        style_of(theme, FmtToken::Unit) == theme.unit,
        style_of(theme, FmtToken::Quantity) == theme.quantity,
        style_of(theme, FmtToken::Number) == theme.number,
        style_of(theme, FmtToken::UserInput) == theme.user_input,
        style_of(theme, FmtToken::DocString) == theme.doc_string,
        style_of(theme, FmtToken::Pow) == theme.pow,
        style_of(theme, FmtToken::PropName) == theme.prop_name,
        style_of(theme, FmtToken::DateTime) == theme.date_time,
        style_of(theme, FmtToken::Link) == theme.link,
        style_of(theme, FmtToken::ListBegin) == theme.plain,
        style_of(theme, FmtToken::ListSep) == theme.plain,
{
}

} // verus!
