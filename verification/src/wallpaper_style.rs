//! Wallpaper display styles and the registry codes and command-line names
//! that stand for them.

use vstd::prelude::*;
use crate::text::{
    all_ascii, ascii_upper, str_equal, str_to_uppercase, str_trim, trim_chars, unicode_uppercase,
    lemma_trim_idempotent, lemma_trim_of_unpadded,
};

verus! {

/// Wallpaper display style, as the `WallpaperStyle` policy value under
/// `Software\Microsoft\Windows\CurrentVersion\Policies\System` encodes it.
#[derive(Debug, Clone, Copy, PartialEq, Eq, Structural)]
pub enum WallpaperStyle {
    Center,
    Tile,
    Stretch,
    Fit,
    Fill,
    Span,
}

/// The numeric code that the registry stores for a style.
pub open spec fn style_code(style: WallpaperStyle) -> Seq<char> {
    match style {
        WallpaperStyle::Center => seq!['0'],
        WallpaperStyle::Tile => seq!['1'],
        WallpaperStyle::Stretch => seq!['2'],
        WallpaperStyle::Fit => seq!['3'],
        WallpaperStyle::Fill => seq!['4'],
        WallpaperStyle::Span => seq!['5'],
    }
}

/// The style that a (trimmed) code stands for.
pub open spec fn style_of_code(code: Seq<char>) -> Option<WallpaperStyle> {
    if code.len() != 1 {
        None
    } else if code[0] == '0' {
        Some(WallpaperStyle::Center)
    } else if code[0] == '1' {
        Some(WallpaperStyle::Tile)
    } else if code[0] == '2' {
        Some(WallpaperStyle::Stretch)
    } else if code[0] == '3' {
        Some(WallpaperStyle::Fit)
    } else if code[0] == '4' {
        Some(WallpaperStyle::Fill)
    } else if code[0] == '5' {
        Some(WallpaperStyle::Span)
    } else {
        None
    }
}

/// The upper-case name that the command line accepts for a style.
pub open spec fn style_name(style: WallpaperStyle) -> Seq<char> {
    match style {
        WallpaperStyle::Center => seq!['C', 'E', 'N', 'T', 'E', 'R'],
        WallpaperStyle::Tile => seq!['T', 'I', 'L', 'E'],
        WallpaperStyle::Stretch => seq!['S', 'T', 'R', 'E', 'T', 'C', 'H'],
        WallpaperStyle::Fit => seq!['F', 'I', 'T'],
        WallpaperStyle::Fill => seq!['F', 'I', 'L', 'L'],
        WallpaperStyle::Span => seq!['S', 'P', 'A', 'N'],
    }
}

/// The style whose upper-case name is `name`, compared exactly.
pub open spec fn style_of_name(name: Seq<char>) -> Option<WallpaperStyle> {
    if name == style_name(WallpaperStyle::Center) {
        Some(WallpaperStyle::Center)
    } else if name == style_name(WallpaperStyle::Tile) {
        Some(WallpaperStyle::Tile)
    } else if name == style_name(WallpaperStyle::Stretch) {
        Some(WallpaperStyle::Stretch)
    } else if name == style_name(WallpaperStyle::Fit) {
        Some(WallpaperStyle::Fit)
    } else if name == style_name(WallpaperStyle::Fill) {
        Some(WallpaperStyle::Fill)
    } else if name == style_name(WallpaperStyle::Span) {
        Some(WallpaperStyle::Span)
    } else {
        None
    }
}

/// The six styles in registry-code order.
pub open spec fn all_styles() -> Seq<WallpaperStyle> {
    seq![
        WallpaperStyle::Center,
        WallpaperStyle::Tile,
        WallpaperStyle::Stretch,
        WallpaperStyle::Fit,
        WallpaperStyle::Fill,
        WallpaperStyle::Span,
    ]
}

/// What parsing a style argument gives: a registry code first, then a name
/// compared after Unicode upper-casing, both after trimming.
pub open spec fn parse_style_result(s: Seq<char>) -> Result<WallpaperStyle, Seq<char>> {
    let t = trim_chars(s);
    match style_of_code(t) {
        Some(style) => Ok(style),
        None => match style_of_name(unicode_uppercase(t)) {
            Some(style) => Ok(style),
            None => Err(t),
        },
    }
}

/// The same as `parse_style_result`, for input whose trimmed form is ASCII,
/// where upper-casing is the ASCII one.
pub open spec fn parse_ascii_style_result(s: Seq<char>) -> Result<WallpaperStyle, Seq<char>> {
    let t = trim_chars(s);
    match style_of_code(t) {
        Some(style) => Ok(style),
        None => match style_of_name(ascii_upper(t)) {
            Some(style) => Ok(style),
            None => Err(t),
        },
    }
}

/// A style argument that names no style.
#[derive(Debug)]
pub struct StyleParseError {
    /// The argument, trimmed.
    pub input: String,
}

impl StyleParseError {
    /// The error text, `Unknown wallpaper style: ` followed by the argument.
    pub fn message(&self) -> (r: String)
        ensures
            r@ == "Unknown wallpaper style: "@ + self.input@,
    {
        let mut m = String::from_str("Unknown wallpaper style: ");
        m.append(self.input.as_str());
        m
    }
}

fn code_text(style: WallpaperStyle) -> (r: &'static str)
    ensures
        r@ == style_code(style),
{
    match style {
        WallpaperStyle::Center => {
            proof {
                reveal_strlit("0");
            }
            "0"
        },
        WallpaperStyle::Tile => {
            proof {
                reveal_strlit("1");
            }
            "1"
        },
        WallpaperStyle::Stretch => {
            proof {
                reveal_strlit("2");
            }
            "2"
        },
        WallpaperStyle::Fit => {
            proof {
                reveal_strlit("3");
            }
            "3"
        },
        WallpaperStyle::Fill => {
            proof {
                reveal_strlit("4");
            }
            "4"
        },
        WallpaperStyle::Span => {
            proof {
                reveal_strlit("5");
            }
            "5"
        },
    }
}

fn name_text(style: WallpaperStyle) -> (r: &'static str)
    ensures
        r@ == style_name(style),
{
    match style {
        WallpaperStyle::Center => {
            proof {
                reveal_strlit("CENTER");
            }
            "CENTER"
        },
        WallpaperStyle::Tile => {
            proof {
                reveal_strlit("TILE");
            }
            "TILE"
        },
        WallpaperStyle::Stretch => {
            proof {
                reveal_strlit("STRETCH");
            }
            "STRETCH"
        },
        WallpaperStyle::Fit => {
            proof {
                reveal_strlit("FIT");
            }
            "FIT"
        },
        WallpaperStyle::Fill => {
            proof {
                reveal_strlit("FILL");
            }
            "FILL"
        },
        WallpaperStyle::Span => {
            proof {
                reveal_strlit("SPAN");
            }
            "SPAN"
        },
    }
}

impl WallpaperStyle {
    /// Numeric string stored in the registry.
    pub fn code(self) -> (r: &'static str)
        ensures
            r@ == style_code(self),
    {
        code_text(self)
    }

    /// The command-line name of the style, in upper case.
    pub fn name(self) -> (r: &'static str)
        ensures
            r@ == style_name(self),
    {
        name_text(self)
    }

    /// The position of the style in `all`, as the style combo box lists them.
    pub fn index(self) -> (r: usize)
        ensures
            r < 6,
            all_styles()[r as int] == self,
    {
        match self {
            WallpaperStyle::Center => 0,
            WallpaperStyle::Tile => 1,
            WallpaperStyle::Stretch => 2,
            WallpaperStyle::Fit => 3,
            WallpaperStyle::Fill => 4,
            WallpaperStyle::Span => 5,
        }
    }

    /// The six styles in registry-code order.
    pub fn all() -> (r: Vec<WallpaperStyle>)
        ensures
            r@ == all_styles(),
    {
        let v = vec![
            WallpaperStyle::Center,
            WallpaperStyle::Tile,
            WallpaperStyle::Stretch,
            WallpaperStyle::Fit,
            WallpaperStyle::Fill,
            WallpaperStyle::Span,
        ];
        assert(v@ =~= all_styles());
        v
    }

    /// The style whose registry code is `code`, surrounding white space
    /// ignored.
    pub fn from_code(code: &str) -> (r: Option<Self>)
        ensures
            r == style_of_code(trim_chars(code@)),
    {
        let t = str_trim(code);
        let mut i: usize = 0;
        let all = WallpaperStyle::all();
        while i < 6
            invariant
                all@ == all_styles(),
                t@ == trim_chars(code@),
                i <= 6,
                forall|j: int| 0 <= j < i ==> style_code(#[trigger] all_styles()[j]) != t@,
            decreases 6 - i,
        {
            let style = all[i];
            let ct = code_text(style);
            if str_equal(t, ct) {
                proof {
                    lemma_code_decodes(style);
                    assert(t@ == style_code(style));
                    assert(t@ == trim_chars(code@));
                }
                return Some(style);
            }
            i = i + 1;
        }
        assert(style_code(all_styles()[0]) != t@);
        assert(style_code(all_styles()[1]) != t@);
        assert(style_code(all_styles()[2]) != t@);
        assert(style_code(all_styles()[3]) != t@);
        assert(style_code(all_styles()[4]) != t@);
        assert(style_code(all_styles()[5]) != t@);
        proof {
            if style_of_code(t@) is Some {
                lemma_code_exact(t@, style_of_code(t@)->0);
            }
        }
        None
    }

    /// The style whose upper-case command-line name is exactly `name`.
    pub fn from_name(name: &str) -> (r: Option<Self>)
        ensures
            r == style_of_name(name@),
    {
        let mut i: usize = 0;
        let all = WallpaperStyle::all();
        while i < 6
            invariant
                all@ == all_styles(),
                i <= 6,
                forall|j: int| 0 <= j < i ==> style_name(#[trigger] all_styles()[j]) != name@,
            decreases 6 - i,
        {
            let style = all[i];
            if str_equal(name, name_text(style)) {
                proof {
                    lemma_name_decodes(style);
                }
                return Some(style);
            }
            i = i + 1;
        }
        assert(style_name(all_styles()[0]) != name@);
        assert(style_name(all_styles()[1]) != name@);
        assert(style_name(all_styles()[2]) != name@);
        assert(style_name(all_styles()[3]) != name@);
        assert(style_name(all_styles()[4]) != name@);
        assert(style_name(all_styles()[5]) != name@);
        None
    }

    /// Parses a style argument: a registry code, or a name in any case,
    /// surrounding white space ignored.
    pub fn parse(s: &str) -> (r: Result<Self, StyleParseError>)
        ensures
            match (r, parse_style_result(s@)) {
                (Ok(a), Ok(b)) => a == b,
                (Err(e), Err(t)) => e.input@ == t,
                _ => false,
            },
            all_ascii(trim_chars(s@)) ==> match (r, parse_ascii_style_result(s@)) {
                (Ok(a), Ok(b)) => a == b,
                (Err(e), Err(t)) => e.input@ == t,
                _ => false,
            },
    {
        let t = str_trim(s);
        proof {
            lemma_trim_idempotent(s@);
        }
        if let Some(style) = Self::from_code(t) {
            return Ok(style);
        }
        let upper = str_to_uppercase(t);
        match Self::from_name(upper.as_str()) {
            Some(style) => Ok(style),
            None => Err(StyleParseError { input: String::from_str(t) }),
        }
    }
}

impl Default for WallpaperStyle {
    fn default() -> (r: Self)
        ensures
            r == WallpaperStyle::Fill,
    {
        WallpaperStyle::Fill
    }
}

impl core::str::FromStr for WallpaperStyle {
    type Err = StyleParseError;

    fn from_str(s: &str) -> (r: Result<Self, StyleParseError>)
        ensures
            match (r, parse_style_result(s@)) {
                (Ok(a), Ok(b)) => a == b,
                (Err(e), Err(t)) => e.input@ == t,
                _ => false,
            },
            all_ascii(trim_chars(s@)) ==> match (r, parse_ascii_style_result(s@)) {
                (Ok(a), Ok(b)) => a == b,
                (Err(e), Err(t)) => e.input@ == t,
                _ => false,
            },
    {
        Self::parse(s)
    }
}

proof fn lemma_code_decodes(style: WallpaperStyle)
    ensures
        style_of_code(style_code(style)) == Some(style),
{
    assert(style_code(style).len() == 1);
}

proof fn lemma_name_decodes(style: WallpaperStyle)
    ensures
        style_of_name(style_name(style)) == Some(style),
{
    let t = style_name(WallpaperStyle::Tile);
    let f = style_name(WallpaperStyle::Fill);
    let p = style_name(WallpaperStyle::Span);
    assert(t[0] != f[0] && t[0] != p[0] && f[0] != p[0]);
    assert(style_name(WallpaperStyle::Fit)[2] != f[2]);
}

proof fn lemma_code_exact(code: Seq<char>, style: WallpaperStyle)
    requires
        style_of_code(code) == Some(style),
    ensures
        code == style_code(style),
{
    assert(code =~= seq![code[0]]);
}

/// Every style's registry code decodes back to the style.
pub proof fn lemma_code_round_trip(style: WallpaperStyle)
    ensures
        style_of_code(trim_chars(style_code(style))) == Some(style),
{
    lemma_trim_of_unpadded(style_code(style));
}

/// A code decodes to a style only if it is that style's code, once trimmed.
pub proof fn lemma_code_injective(code: Seq<char>, style: WallpaperStyle)
    requires
        style_of_code(trim_chars(code)) == Some(style),
    ensures
        trim_chars(code) == style_code(style),
{
    lemma_code_exact(trim_chars(code), style);
}

/// Every style's name, in whatever ASCII case and with any surrounding
/// white space, parses to the style.
pub proof fn lemma_name_parses(style: WallpaperStyle, s: Seq<char>)
    requires
        all_ascii(trim_chars(s)),
        ascii_upper(trim_chars(s)) == style_name(style),
    ensures
        parse_ascii_style_result(s) == Ok::<WallpaperStyle, Seq<char>>(style),
{
    let t = trim_chars(s);
    lemma_name_decodes(style);
    if style_of_code(t) is Some {
        assert(t.len() == 1);
        assert(ascii_upper(t).len() == 1);
        assert(style_name(style).len() >= 3);
    }
}

/// Every style's registry code parses to the style.
pub proof fn lemma_code_parses(style: WallpaperStyle)
    ensures
        parse_style_result(style_code(style)) == Ok::<WallpaperStyle, Seq<char>>(style),
{
    lemma_trim_of_unpadded(style_code(style));
}

} // verus!
