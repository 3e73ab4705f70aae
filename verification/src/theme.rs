//! The terminal colour themes: a fixed palette per theme, and the text
//! styles the front-ends build from it. Colours are named abstractly; a
//! front-end maps each name onto its rendering library's colour type.

use vstd::prelude::*;

verus! {

/// The selectable colour themes.
#[derive(Debug, Clone, Copy, PartialEq, Eq, Structural)]
pub enum Theme {
    Default,
    Dark,
    Light,
    Green,
    Blue,
    Purple,
    Cyan,
    Red,
    Coffee,
}

/// A terminal colour, by name.
#[derive(Debug, Clone, Copy, PartialEq, Eq, Structural)]
pub enum ColorName {
    Black,
    Blue,
    Cyan,
    DarkGray,
    Gray,
    Green,
    Magenta,
    Red,
    White,
    Yellow,
}

/// The order themes are cycled through.
pub open spec fn all_themes() -> Seq<Theme> {
    seq![
        Theme::Default,
        Theme::Dark,
        Theme::Light,
        Theme::Green,
        Theme::Blue,
        Theme::Purple,
        Theme::Cyan,
        Theme::Red,
        Theme::Coffee,
    ]
}

impl Theme {
    /// The display name of the theme.
    pub open spec fn spec_name(self) -> Seq<char> {
        match self {
            Theme::Default => "Default"@,
            Theme::Dark => "Dark"@,
            Theme::Light => "Light"@,
            Theme::Green => "Green"@,
            Theme::Blue => "Blue"@,
            Theme::Purple => "Purple"@,
            Theme::Cyan => "Cyan"@,
            Theme::Red => "Red"@,
            Theme::Coffee => "Coffee"@,
        }
    }

    /// The colour of the status block.
    pub open spec fn spec_status_color(self) -> ColorName {
        match self {
            Theme::Default => ColorName::Green,
            Theme::Dark => ColorName::White,
            Theme::Light => ColorName::Black,
            Theme::Green => ColorName::Green,
            Theme::Blue => ColorName::Blue,
            Theme::Purple => ColorName::Magenta,
            Theme::Cyan => ColorName::Cyan,
            Theme::Red => ColorName::Red,
            Theme::Coffee => ColorName::Yellow,
        }
    }

    /// The colour of the now-playing block.
    pub open spec fn spec_now_playing_color(self) -> ColorName {
        match self {
            Theme::Default => ColorName::Cyan,
            Theme::Dark => ColorName::Cyan,
            Theme::Light => ColorName::Blue,
            Theme::Green => ColorName::Green,
            Theme::Blue => ColorName::Blue,
            Theme::Purple => ColorName::Magenta,
            Theme::Cyan => ColorName::Cyan,
            Theme::Red => ColorName::Red,
            Theme::Coffee => ColorName::White,
        }
    }

    /// The colour of the playlist block.
    pub open spec fn spec_playlist_color(self) -> ColorName {
        match self {
            Theme::Default => ColorName::Yellow,
            Theme::Dark => ColorName::Yellow,
            Theme::Light => ColorName::DarkGray,
            Theme::Green => ColorName::Green,
            Theme::Blue => ColorName::Blue,
            Theme::Purple => ColorName::Magenta,
            Theme::Cyan => ColorName::Cyan,
            Theme::Red => ColorName::Red,
            Theme::Coffee => ColorName::Yellow,
        }
    }

    /// The colour of the controls block.
    pub open spec fn spec_controls_color(self) -> ColorName {
        match self {
            Theme::Default => ColorName::Magenta,
            Theme::Dark => ColorName::Cyan,
            Theme::Light => ColorName::DarkGray,
            Theme::Green => ColorName::Green,
            Theme::Blue => ColorName::Blue,
            Theme::Purple => ColorName::Magenta,
            Theme::Cyan => ColorName::Cyan,
            Theme::Red => ColorName::Red,
            Theme::Coffee => ColorName::White,
        }
    }

    /// The colour of the file-browser block.
    pub open spec fn spec_file_browser_color(self) -> ColorName {
        match self {
            Theme::Default => ColorName::Cyan,
            Theme::Dark => ColorName::Cyan,
            Theme::Light => ColorName::Blue,
            Theme::Green => ColorName::Green,
            Theme::Blue => ColorName::Blue,
            Theme::Purple => ColorName::Magenta,
            Theme::Cyan => ColorName::Cyan,
            Theme::Red => ColorName::Red,
            Theme::Coffee => ColorName::White,
        }
    }

    /// The background colour of a highlighted line.
    pub open spec fn spec_highlight_bg(self) -> ColorName {
        match self {
            Theme::Default => ColorName::Blue,
            Theme::Dark => ColorName::Gray,
            Theme::Light => ColorName::Gray,
            Theme::Green => ColorName::Green,
            Theme::Blue => ColorName::Blue,
            Theme::Purple => ColorName::Magenta,
            Theme::Cyan => ColorName::Cyan,
            Theme::Red => ColorName::Red,
            Theme::Coffee => ColorName::Gray,
        }
    }

    /// The foreground colour of a highlighted line.
    pub open spec fn spec_highlight_fg(self) -> ColorName {
        match self {
            Theme::Coffee => ColorName::Black,
            _ => ColorName::White,
        }
    }

    /// Every theme, in cycling order.
    pub fn all() -> (r: Vec<Theme>)
        ensures
            r@ == all_themes(),
    {
        let mut v: Vec<Theme> = Vec::new();
        v.push(Theme::Default);
        v.push(Theme::Dark);
        v.push(Theme::Light);
        v.push(Theme::Green);
        v.push(Theme::Blue);
        v.push(Theme::Purple);
        v.push(Theme::Cyan);
        v.push(Theme::Red);
        v.push(Theme::Coffee);
        assert(v@ =~= all_themes());
        v
    }

    /// The display name of the theme.
    pub fn name(&self) -> (r: &'static str)
        ensures
            r@ == self.spec_name(),
    {
        match self {
            Theme::Default => "Default",
            Theme::Dark => "Dark",
            Theme::Light => "Light",
            Theme::Green => "Green",
            Theme::Blue => "Blue",
            Theme::Purple => "Purple",
            Theme::Cyan => "Cyan",
            Theme::Red => "Red",
            Theme::Coffee => "Coffee",
        }
    }

    /// The colour of the status block.
    pub fn status_color(&self) -> (c: ColorName)
        ensures
            c == self.spec_status_color(),
    {
        match self {
            Theme::Default => ColorName::Green,
            Theme::Dark => ColorName::White,
            Theme::Light => ColorName::Black,
            Theme::Green => ColorName::Green,
            Theme::Blue => ColorName::Blue,
            Theme::Purple => ColorName::Magenta,
            Theme::Cyan => ColorName::Cyan,
            Theme::Red => ColorName::Red,
            Theme::Coffee => ColorName::Yellow,
        }
    }

    /// The colour of the now-playing block.
    pub fn now_playing_color(&self) -> (c: ColorName)
        ensures
            c == self.spec_now_playing_color(),
    {
        match self {
            Theme::Default => ColorName::Cyan,
            Theme::Dark => ColorName::Cyan,
            Theme::Light => ColorName::Blue,
            Theme::Green => ColorName::Green,
            Theme::Blue => ColorName::Blue,
            Theme::Purple => ColorName::Magenta,
            Theme::Cyan => ColorName::Cyan,
            Theme::Red => ColorName::Red,
            Theme::Coffee => ColorName::White,
        }
    }

    /// The colour of the playlist block.
    pub fn playlist_color(&self) -> (c: ColorName)
        ensures
            c == self.spec_playlist_color(),
    {
        match self {
            Theme::Default => ColorName::Yellow,
            Theme::Dark => ColorName::Yellow,
            Theme::Light => ColorName::DarkGray,
            Theme::Green => ColorName::Green,
            Theme::Blue => ColorName::Blue,
            Theme::Purple => ColorName::Magenta,
            Theme::Cyan => ColorName::Cyan,
            Theme::Red => ColorName::Red,
            Theme::Coffee => ColorName::Yellow,
        }
    }

    /// The colour of the controls block.
    pub fn controls_color(&self) -> (c: ColorName)
        ensures
            c == self.spec_controls_color(),
    {
        match self {
            Theme::Default => ColorName::Magenta,
            Theme::Dark => ColorName::Cyan,
            Theme::Light => ColorName::DarkGray,
            Theme::Green => ColorName::Green,
            Theme::Blue => ColorName::Blue,
            Theme::Purple => ColorName::Magenta,
            Theme::Cyan => ColorName::Cyan,
            Theme::Red => ColorName::Red,
            Theme::Coffee => ColorName::White,
        }
    }

    /// The colour of the file-browser block.
    pub fn file_browser_color(&self) -> (c: ColorName)
        ensures
            c == self.spec_file_browser_color(),
    {
        match self {
            Theme::Default => ColorName::Cyan,
            Theme::Dark => ColorName::Cyan,
            Theme::Light => ColorName::Blue,
            Theme::Green => ColorName::Green,
            Theme::Blue => ColorName::Blue,
            Theme::Purple => ColorName::Magenta,
            Theme::Cyan => ColorName::Cyan,
            Theme::Red => ColorName::Red,
            Theme::Coffee => ColorName::White,
        }
    }

    /// The background colour of a highlighted line.
    pub fn highlight_bg(&self) -> (c: ColorName)
        ensures
            c == self.spec_highlight_bg(),
    {
        match self {
            Theme::Default => ColorName::Blue,
            Theme::Dark => ColorName::Gray,
            Theme::Light => ColorName::Gray,
            Theme::Green => ColorName::Green,
            Theme::Blue => ColorName::Blue,
            Theme::Purple => ColorName::Magenta,
            Theme::Cyan => ColorName::Cyan,
            Theme::Red => ColorName::Red,
            Theme::Coffee => ColorName::Gray,
        }
    }

    /// The foreground colour of a highlighted line.
    pub fn highlight_fg(&self) -> (c: ColorName)
        ensures
            c == self.spec_highlight_fg(),
    {
        match self {
            Theme::Coffee => ColorName::Black,
            _ => ColorName::White,
        }
    }

    /// The colour of the progress gauge: the now-playing colour.
    pub fn gauge_color(&self) -> (c: ColorName)
        ensures
            c == self.spec_now_playing_color(),
    {
        self.now_playing_color()
    }
}

/// A text style: a foreground colour, an optional background colour, and
/// an optional bold attribute.
#[derive(Debug, Clone, Copy, PartialEq, Eq, Structural)]
pub struct TextStyle {
    pub fg: ColorName,
    pub bg: Option<ColorName>,
    pub bold: bool,
}

/// The styles of one theme, ready for a front-end to apply.
#[derive(Debug, Clone, Copy)]
pub struct ThemeStyle {
    pub theme: Theme,
}

impl ThemeStyle {
    /// Styles drawn from the given theme.
    pub fn new(theme: Theme) -> (r: Self)
        ensures
            r.theme == theme,
    {
        Self { theme }
    }

    /// The status block's style: its colour, plain.
    pub fn status_style(&self) -> (s: TextStyle)
        ensures
            s == (TextStyle { fg: self.theme.spec_status_color(), bg: None, bold: false }),
    {
        TextStyle { fg: self.theme.status_color(), bg: None, bold: false }
    }

    /// The now-playing block's style: its colour, plain.
    pub fn now_playing_style(&self) -> (s: TextStyle)
        ensures
            s == (TextStyle { fg: self.theme.spec_now_playing_color(), bg: None, bold: false }),
    {
        TextStyle { fg: self.theme.now_playing_color(), bg: None, bold: false }
    }

    /// The playlist block's style: its colour, plain.
    pub fn playlist_style(&self) -> (s: TextStyle)
        ensures
            s == (TextStyle { fg: self.theme.spec_playlist_color(), bg: None, bold: false }),
    {
        TextStyle { fg: self.theme.playlist_color(), bg: None, bold: false }
    }

    /// The controls block's style: its colour, plain.
    pub fn controls_style(&self) -> (s: TextStyle)
        ensures
            s == (TextStyle { fg: self.theme.spec_controls_color(), bg: None, bold: false }),
    {
        TextStyle { fg: self.theme.controls_color(), bg: None, bold: false }
    }

    /// The file-browser block's style: its colour, plain.
    pub fn file_browser_style(&self) -> (s: TextStyle)
        ensures
            s == (TextStyle { fg: self.theme.spec_file_browser_color(), bg: None, bold: false }),
    {
        TextStyle { fg: self.theme.file_browser_color(), bg: None, bold: false }
    }

    /// A highlighted line's style: theme foreground on theme background,
    /// bold.
    pub fn highlight_style(&self) -> (s: TextStyle)
        ensures
            s == (TextStyle {
                fg: self.theme.spec_highlight_fg(),
                bg: Some(self.theme.spec_highlight_bg()),
                bold: true,
            }),
    {
        TextStyle { fg: self.theme.highlight_fg(), bg: Some(self.theme.highlight_bg()), bold: true }
    }

    /// The progress gauge's style: the gauge colour, plain.
    pub fn gauge_style(&self) -> (s: TextStyle)
        ensures
            s == (TextStyle { fg: self.theme.spec_now_playing_color(), bg: None, bold: false }),
    {
        TextStyle { fg: self.theme.gauge_color(), bg: None, bold: false }
    }
}

} // verus!
