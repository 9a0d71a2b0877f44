use vstd::prelude::*;

use crate::error::ParseThemeError;
use crate::models::Tag;
use crate::util::str_eq;

verus! {

/// A terminal colour: an index into the 256-colour palette, a 24-bit colour,
/// or the portable named white.
#[derive(Clone, Copy, Debug, PartialEq, Eq, Structural)]
pub enum Colour {
    Ansi(u8),
    Rgb(u8, u8, u8),
    White,
}

/// The colours of the semantic roles of a story list.
#[derive(Clone, Copy, Debug)]
pub struct Theme {
    pub score: Colour,
    pub title: Colour,
    pub ask_tag: Colour,
    pub media_tag: Colour,
    pub meta_tag: Colour,
    pub normal_tag: Colour,
    pub domain: Colour,
    pub byline: Colour,
    pub cursor: Colour,
}

/// The colour that `theme` gives to a tag called `name` whose media flag is `is_media`.
///
/// The order of the four tests is fixed: the names `ask` and `show` come first,
/// then the media flag, then the name `meta`, and every other tag is a normal one.
pub open spec fn tag_role_colour(theme: Theme, name: Seq<char>, is_media: bool) -> Colour {
    if name == "ask"@ || name == "show"@ {
        theme.ask_tag
    } else if is_media {
        theme.media_tag
    } else if name == "meta"@ {
        theme.meta_tag
    } else {
        theme.normal_tag
    }
}

impl Theme {
    /// The colour in which `tag` is drawn.
    pub fn tag_colour(&self, tag: &Tag) -> (colour: Colour)
        ensures
            colour == tag_role_colour(*self, tag.tag@, tag.is_media),
    {
        let name = tag.tag.as_str();
        if str_eq(name, "ask") || str_eq(name, "show") {
            self.ask_tag
        } else if tag.is_media {
            self.media_tag
        } else if str_eq(name, "meta") {
            self.meta_tag
        } else {
            self.normal_tag
        }
    }
}

/// The palettes that a user can ask for.
#[derive(Clone, Copy, Debug, PartialEq, Eq, Structural)]
pub enum UiTheme {
    Grey,
    Color256,
    Mono,
    TrueColor,
}

/// The palette that goes by `name`, if there is one.
pub open spec fn theme_named(name: Seq<char>) -> Option<UiTheme> {
    if name == "true"@ {
        Some(UiTheme::TrueColor)
    } else if name == "256"@ {
        Some(UiTheme::Color256)
    } else if name == "mono"@ {
        Some(UiTheme::Mono)
    } else if name == "grey"@ || name == "gray"@ {
        Some(UiTheme::Grey)
    } else {
        None
    }
}

impl UiTheme {
    /// The palette that goes by `theme`; the error holds a name that is none.
    pub fn from_str(theme: &str) -> (result: Result<UiTheme, ParseThemeError>)
        ensures
            match result {
                Ok(palette) => theme_named(theme@) == Some(palette),
                Err(err) => theme_named(theme@) is None && err.0@ == theme@,
            },
    {
        if str_eq(theme, "true") {
            Ok(UiTheme::TrueColor)
        } else if str_eq(theme, "256") {
            Ok(UiTheme::Color256)
        } else if str_eq(theme, "mono") {
            Ok(UiTheme::Mono)
        } else if str_eq(theme, "grey") || str_eq(theme, "gray") {
            Ok(UiTheme::Grey)
        } else {
            Err(ParseThemeError(String::from_str(theme)))
        }
    }
}

impl Default for UiTheme {
    fn default() -> (palette: UiTheme)
        ensures
            palette == UiTheme::Color256,
    {
        UiTheme::Color256
    }
}

} // verus!
