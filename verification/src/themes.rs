//! Choosing a theme by name or by a list of colors.

use vstd::prelude::*;
use crate::colorlist::{colors_between, colors_from, separators, separators_of, ParseError};
use crate::presets::{
    catppuccin_colors, dracula_colors, gruvbox_colors, nord_colors, solarized_colors,
};
use crate::theme::{Color, Theme};

verus! {

/// A choice of theme: one of the built-in themes, or a list of colors.
#[derive(Clone, Debug, PartialEq, Eq)]
pub enum Themes {
    Gruvbox,
    Nord,
    Solarized,
    Catppuccin,
    Dracula,
    Custom(Vec<Color>),
}

/// A choice of theme, its colors as a sequence.
pub enum ThemesView {
    Gruvbox,
    Nord,
    Solarized,
    Catppuccin,
    Dracula,
    Custom(Seq<Color>),
}

impl View for Themes {
    type V = ThemesView;

    open spec fn view(&self) -> ThemesView {
        match self {
            Themes::Gruvbox => ThemesView::Gruvbox,
            Themes::Nord => ThemesView::Nord,
            Themes::Solarized => ThemesView::Solarized,
            Themes::Catppuccin => ThemesView::Catppuccin,
            Themes::Dracula => ThemesView::Dracula,
            Themes::Custom(colors) => ThemesView::Custom(colors@),
        }
    }
}

/// The colors of the theme that a choice stands for.
pub open spec fn palette_of(choice: ThemesView) -> Seq<Color> {
    match choice {
        ThemesView::Gruvbox => gruvbox_colors(),
        ThemesView::Nord => nord_colors(),
        ThemesView::Solarized => solarized_colors(),
        ThemesView::Catppuccin => catppuccin_colors(),
        ThemesView::Dracula => dracula_colors(),
        ThemesView::Custom(colors) => colors,
    }
}

/// The built-in theme of the given name, written in lower case.
pub open spec fn preset_of(name: Seq<char>) -> Option<ThemesView> {
    if name == "gruvbox"@ {
        Some(ThemesView::Gruvbox)
    } else if name == "nord"@ {
        Some(ThemesView::Nord)
    } else if name == "solarized"@ {
        Some(ThemesView::Solarized)
    } else if name == "catppuccin"@ {
        Some(ThemesView::Catppuccin)
    } else if name == "dracula"@ {
        Some(ThemesView::Dracula)
    } else {
        None
    }
}

/// The choice that a text stands for, given the text in lower case and
/// which of its characters separate color codes: the built-in theme that
/// the lower-case text names, or else the colors that the text lists.
pub open spec fn choice_of(text: Seq<char>, lower: Seq<char>, separator: Seq<bool>) -> Result<
    ThemesView,
    ParseError,
> {
    match preset_of(lower) {
        Some(preset) => Ok(preset),
        None => match colors_from(text, separator, 0) {
            Ok(colors) => Ok(ThemesView::Custom(colors)),
            Err(error) => Err(error),
        },
    }
}

/// What reading a choice returned, by its view.
pub open spec fn choice_outcome(result: Result<Themes, ParseError>) -> Result<
    ThemesView,
    ParseError,
> {
    match result {
        Ok(choice) => Ok(choice@),
        Err(error) => Err(error),
    }
}

/// A text in lower case, as `str::to_lowercase` gives it.
pub uninterp spec fn lowercased(text: Seq<char>) -> Seq<char>;

/// `str::to_lowercase`.
#[verifier::external_body]
fn lowercase(text: &str) -> (lower: String)
    ensures
        lower@ == lowercased(text@),
{
    text.to_lowercase()
}

/// Whether two texts are the same.
fn same_text(a: &str, b: &str) -> (same: bool)
    ensures
        same <==> a@ == b@,
{
    a.to_owned() == b.to_owned()
}

impl Themes {
    /// The theme that the choice stands for.
    pub fn to_theme(self) -> (theme: Theme)
        ensures
            theme@ == palette_of(self@),
    {
        match self {
            Themes::Gruvbox => Theme::gruvbox(),
            Themes::Nord => Theme::nord(),
            Themes::Solarized => Theme::solarized(),
            Themes::Catppuccin => Theme::catppuccin(),
            Themes::Dracula => Theme::dracula(),
            Themes::Custom(colors) => Theme::new(colors),
        }
    }

    /// The built-in theme whose name, in lower case, is `name`.
    pub fn preset_named(name: &str) -> (preset: Option<Themes>)
        ensures
            preset matches Some(choice) ==> preset_of(name@) == Some(choice@),
            preset is None ==> preset_of(name@) is None,
    {
        if same_text(name, "gruvbox") {
            Some(Themes::Gruvbox)
        } else if same_text(name, "nord") {
            Some(Themes::Nord)
        } else if same_text(name, "solarized") {
            Some(Themes::Solarized)
        } else if same_text(name, "catppuccin") {
            Some(Themes::Catppuccin)
        } else if same_text(name, "dracula") {
            Some(Themes::Dracula)
        } else {
            None
        }
    }

    /// Reads a choice of theme from a text, given the same text in lower
    /// case and the marks of its separators. A text whose lower case is the
    /// name of a built-in theme stands for that theme. Any other text is
    /// read as a list of colors, as `colors_between` reads it.
    pub fn from_parts(text: &str, lower: &str, separator: &Vec<bool>) -> (result: Result<
        Themes,
        ParseError,
    >)
        ensures
            choice_outcome(result) == choice_of(text@, lower@, separator@),
    {
        match Themes::preset_named(lower) {
            Some(preset) => Ok(preset),
            None => match colors_between(text, separator) {
                Ok(colors) => Ok(Themes::Custom(colors)),
                Err(error) => Err(error),
            },
        }
    }

    /// Reads a choice of theme from a text: the name of a built-in theme in
    /// any mix of upper and lower case, or else a list of hexadecimal
    /// color codes separated by commas or white space.
    pub fn from_str(text: &str) -> (result: Result<Themes, ParseError>)
        ensures
            choice_outcome(result) == choice_of(text@, lowercased(text@), separators_of(text@)),
    {
        let lower = lowercase(text);
        let separator = separators(text);
        Themes::from_parts(text, lower.as_str(), &separator)
    }
}

} // verus!
