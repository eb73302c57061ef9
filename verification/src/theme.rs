//! The light and dark colour palettes of the picker, and the colours each
//! control is drawn with.

use vstd::prelude::*;
use crate::layout::{fits_i32, Rect};

verus! {

#[derive(Debug, Clone, Copy, PartialEq, Eq, Structural)]
pub enum UiTheme {
    Light,
    Dark,
}

/// The theme for the `AppsUseLightTheme` personalisation value: dark only
/// when it was read and is 0.
pub fn theme_from_setting(apps_use_light_theme: Option<u32>) -> (r: UiTheme)
    ensures
        r == (if apps_use_light_theme == Some(0u32) {
            UiTheme::Dark
        } else {
            UiTheme::Light
        }),
{
    match apps_use_light_theme {
        Some(0) => UiTheme::Dark,
        _ => UiTheme::Light,
    }
}

/// A Win32 `COLORREF`: red in the low byte, then green, then blue.
pub open spec fn rgb_spec(r: u8, g: u8, b: u8) -> u32 {
    (r as int + 256 * g as int + 65536 * b as int) as u32
}

pub fn rgb(r: u8, g: u8, b: u8) -> (c: u32)
    ensures
        c == rgb_spec(r, g, b),
        c < 0x100_0000,
{
    let (r32, g32, b32) = (r as u32, g as u32, b as u32);
    assert(r32 | (g32 << 8) | (b32 << 16) == r32 + 256 * g32 + 65536 * b32) by (bit_vector)
        requires
            r32 < 256,
            g32 < 256,
            b32 < 256,
    ;
    r32 | (g32 << 8) | (b32 << 16)
}

#[derive(Debug, Clone, Copy, PartialEq, Eq, Structural)]
pub struct Palette {
    pub window_bg: u32,
    pub preview_bezel: u32,
    pub preview_screen: u32,
    pub preview_empty_bg: u32,
    pub preview_empty_text: u32,
    pub preview_edge: u32,
    pub preview_highlight: u32,
    pub preview_empty_grid: u32,
    pub label_text: u32,
    pub status_text: u32,
    pub button_bg: u32,
    pub button_hover_bg: u32,
    pub button_pressed_bg: u32,
    pub button_border: u32,
    pub button_text: u32,
    pub button_disabled_bg: u32,
    pub button_disabled_text: u32,
    pub accent_bg: u32,
    pub accent_hover_bg: u32,
    pub accent_pressed_bg: u32,
    pub accent_text: u32,
    pub path_bg: u32,
    pub path_border: u32,
    pub path_icon_bg: u32,
    pub path_icon_text: u32,
    pub path_text: u32,
}

/// The colours of each theme.
pub open spec fn palette_spec(theme: UiTheme) -> Palette {
    match theme {
        UiTheme::Light => Palette {
            window_bg: rgb_spec(246, 248, 251),
            preview_bezel: rgb_spec(28, 31, 36),
            preview_screen: rgb_spec(9, 11, 15),
            preview_empty_bg: rgb_spec(232, 236, 243),
            preview_empty_text: rgb_spec(77, 85, 99),
            preview_edge: rgb_spec(148, 163, 184),
            preview_highlight: rgb_spec(255, 255, 255),
            preview_empty_grid: rgb_spec(219, 225, 235),
            label_text: rgb_spec(31, 41, 55),
            status_text: rgb_spec(75, 85, 99),
            button_bg: rgb_spec(255, 255, 255),
            button_hover_bg: rgb_spec(242, 246, 252),
            button_pressed_bg: rgb_spec(225, 232, 242),
            button_border: rgb_spec(203, 213, 225),
            button_text: rgb_spec(31, 41, 55),
            button_disabled_bg: rgb_spec(229, 234, 242),
            button_disabled_text: rgb_spec(139, 148, 163),
            accent_bg: rgb_spec(0, 95, 184),
            accent_hover_bg: rgb_spec(0, 103, 192),
            accent_pressed_bg: rgb_spec(0, 80, 158),
            accent_text: rgb_spec(255, 255, 255),
            path_bg: rgb_spec(255, 255, 255),
            path_border: rgb_spec(203, 213, 225),
            path_icon_bg: rgb_spec(219, 234, 254),
            path_icon_text: rgb_spec(0, 95, 184),
            path_text: rgb_spec(31, 41, 55),
        },
        UiTheme::Dark => Palette {
            window_bg: rgb_spec(30, 32, 36),
            preview_bezel: rgb_spec(12, 14, 18),
            preview_screen: rgb_spec(4, 6, 10),
            preview_empty_bg: rgb_spec(42, 45, 52),
            preview_empty_text: rgb_spec(190, 198, 211),
            preview_edge: rgb_spec(78, 86, 100),
            preview_highlight: rgb_spec(64, 70, 82),
            preview_empty_grid: rgb_spec(50, 55, 64),
            label_text: rgb_spec(238, 242, 247),
            status_text: rgb_spec(198, 205, 217),
            button_bg: rgb_spec(45, 49, 56),
            button_hover_bg: rgb_spec(55, 60, 69),
            button_pressed_bg: rgb_spec(38, 42, 49),
            button_border: rgb_spec(76, 84, 97),
            button_text: rgb_spec(241, 245, 249),
            button_disabled_bg: rgb_spec(39, 42, 48),
            button_disabled_text: rgb_spec(118, 127, 142),
            accent_bg: rgb_spec(96, 165, 250),
            accent_hover_bg: rgb_spec(125, 181, 252),
            accent_pressed_bg: rgb_spec(69, 142, 230),
            accent_text: rgb_spec(5, 10, 20),
            path_bg: rgb_spec(45, 49, 56),
            path_border: rgb_spec(76, 84, 97),
            path_icon_bg: rgb_spec(30, 64, 111),
            path_icon_text: rgb_spec(191, 219, 254),
            path_text: rgb_spec(241, 245, 249),
        },
    }
}

impl UiTheme {
    pub fn palette(self) -> (r: Palette)
        ensures
            r == palette_spec(self),
    {
        match self {
            UiTheme::Light => Palette {
                window_bg: rgb(246, 248, 251),
                preview_bezel: rgb(28, 31, 36),
                preview_screen: rgb(9, 11, 15),
                preview_empty_bg: rgb(232, 236, 243),
                preview_empty_text: rgb(77, 85, 99),
                preview_edge: rgb(148, 163, 184),
                preview_highlight: rgb(255, 255, 255),
                preview_empty_grid: rgb(219, 225, 235),
                label_text: rgb(31, 41, 55),
                status_text: rgb(75, 85, 99),
                button_bg: rgb(255, 255, 255),
                button_hover_bg: rgb(242, 246, 252),
                button_pressed_bg: rgb(225, 232, 242),
                button_border: rgb(203, 213, 225),
                button_text: rgb(31, 41, 55),
                button_disabled_bg: rgb(229, 234, 242),
                button_disabled_text: rgb(139, 148, 163),
                accent_bg: rgb(0, 95, 184),
                accent_hover_bg: rgb(0, 103, 192),
                accent_pressed_bg: rgb(0, 80, 158),
                accent_text: rgb(255, 255, 255),
                path_bg: rgb(255, 255, 255),
                path_border: rgb(203, 213, 225),
                path_icon_bg: rgb(219, 234, 254),
                path_icon_text: rgb(0, 95, 184),
                path_text: rgb(31, 41, 55),
            },
            UiTheme::Dark => Palette {
                window_bg: rgb(30, 32, 36),
                preview_bezel: rgb(12, 14, 18),
                preview_screen: rgb(4, 6, 10),
                preview_empty_bg: rgb(42, 45, 52),
                preview_empty_text: rgb(190, 198, 211),
                preview_edge: rgb(78, 86, 100),
                preview_highlight: rgb(64, 70, 82),
                preview_empty_grid: rgb(50, 55, 64),
                label_text: rgb(238, 242, 247),
                status_text: rgb(198, 205, 217),
                button_bg: rgb(45, 49, 56),
                button_hover_bg: rgb(55, 60, 69),
                button_pressed_bg: rgb(38, 42, 49),
                button_border: rgb(76, 84, 97),
                button_text: rgb(241, 245, 249),
                button_disabled_bg: rgb(39, 42, 48),
                button_disabled_text: rgb(118, 127, 142),
                accent_bg: rgb(96, 165, 250),
                accent_hover_bg: rgb(125, 181, 252),
                accent_pressed_bg: rgb(69, 142, 230),
                accent_text: rgb(5, 10, 20),
                path_bg: rgb(45, 49, 56),
                path_border: rgb(76, 84, 97),
                path_icon_bg: rgb(30, 64, 111),
                path_icon_text: rgb(191, 219, 254),
                path_text: rgb(241, 245, 249),
            },
        }
    }
}

/// `DRAWITEMSTRUCT::itemState` bits.
pub const ODS_SELECTED: u32 = 0x0001;
pub const ODS_DISABLED: u32 = 0x0004;
pub const ODS_HOTLIGHT: u32 = 0x0040;

/// The background and text colours of an owner-drawn button: the disabled
/// colours first; then, for the accent (Apply) button or another one, the
/// pressed, hover or resting background.
pub open spec fn button_colors_spec(p: Palette, is_accent: bool, item_state: u32) -> (u32, u32) {
    let disabled = item_state & ODS_DISABLED != 0;
    let pressed = item_state & ODS_SELECTED != 0;
    let hot = item_state & ODS_HOTLIGHT != 0;
    if disabled {
        (p.button_disabled_bg, p.button_disabled_text)
    } else if is_accent {
        (
            if pressed {
                p.accent_pressed_bg
            } else if hot {
                p.accent_hover_bg
            } else {
                p.accent_bg
            },
            p.accent_text,
        )
    } else {
        (
            if pressed {
                p.button_pressed_bg
            } else if hot {
                p.button_hover_bg
            } else {
                p.button_bg
            },
            p.button_text,
        )
    }
}

pub fn button_colors(p: &Palette, is_accent: bool, item_state: u32) -> (r: (u32, u32))
    ensures
        r == button_colors_spec(*p, is_accent, item_state),
{
    let disabled = item_state & ODS_DISABLED != 0;
    let pressed = item_state & ODS_SELECTED != 0;
    let hot = item_state & ODS_HOTLIGHT != 0;
    if disabled {
        (p.button_disabled_bg, p.button_disabled_text)
    } else if is_accent {
        let bg = if pressed {
            p.accent_pressed_bg
        } else if hot {
            p.accent_hover_bg
        } else {
            p.accent_bg
        };
        (bg, p.accent_text)
    } else {
        let bg = if pressed {
            p.button_pressed_bg
        } else if hot {
            p.button_hover_bg
        } else {
            p.button_bg
        };
        (bg, p.button_text)
    }
}

/// Where a button's label is drawn: 10 pixels in from each side, and one
/// pixel down and right while pressed.
pub open spec fn button_label_spec(item: Rect, item_state: u32) -> Rect {
    let pressed = item_state & ODS_SELECTED != 0;
    Rect {
        left: (item.left + 10 + if pressed {
            1int
        } else {
            0
        }) as i32,
        top: (item.top + if pressed {
            1int
        } else {
            0
        }) as i32,
        right: (item.right - 10) as i32,
        bottom: item.bottom,
    }
}

pub fn button_label_rect(item: Rect, item_state: u32) -> (r: Rect)
    requires
        fits_i32(item.left + 10 + if item_state & ODS_SELECTED != 0 {
            1int
        } else {
            0
        }),
        item_state & ODS_SELECTED != 0 ==> fits_i32(item.top + 1),
        fits_i32(item.right - 10),
    ensures
        r == button_label_spec(item, item_state),
{
    let mut rect = item;
    rect.left = rect.left + 10;
    rect.right = rect.right - 10;
    if item_state & ODS_SELECTED != 0 {
        rect.left = rect.left + 1;
        rect.top = rect.top + 1;
    }
    rect
}

/// The text colour of a static control: the status line has its own.
pub fn static_text_color(p: &Palette, is_status: bool) -> (r: u32)
    ensures
        r == (if is_status {
            p.status_text
        } else {
            p.label_text
        }),
{
    if is_status {
        p.status_text
    } else {
        p.label_text
    }
}

/// A disabled button is drawn the same whatever else its state says.
pub proof fn lemma_disabled_wins(p: Palette, is_accent: bool, item_state: u32)
    requires
        item_state & ODS_DISABLED != 0,
    ensures
        button_colors_spec(p, is_accent, item_state) == (p.button_disabled_bg, p.button_disabled_text),
{
}

} // verus!
