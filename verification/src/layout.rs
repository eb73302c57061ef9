//! Window geometry at a given DPI: scaling of logical units, the DPI used for
//! layout, and where each control stands.

use vstd::prelude::*;

verus! {

pub const PREVIEW_X: i32 = 24;
pub const PREVIEW_Y: i32 = 22;
pub const PREVIEW_VIEW_W: i32 = 492;
pub const PREVIEW_VIEW_H: i32 = 318;
pub const WINDOW_W: i32 = 540;
pub const WINDOW_H: i32 = 514;
pub const ROW_IMAGE_Y: i32 = 360;
pub const ROW_STYLE_Y: i32 = 402;
pub const LABEL_X: i32 = 24;
pub const LABEL_W: i32 = 72;
pub const FIELD_X: i32 = 110;
pub const FIELD_H: i32 = 26;
pub const PATH_W: i32 = 292;
pub const BROWSE_X: i32 = 410;
pub const BUTTON_W: i32 = 106;
pub const BUTTON_H: i32 = 30;
pub const STYLE_W: i32 = 180;
pub const STYLE_DROP_H: i32 = 160;
pub const STATUS_X: i32 = 24;
pub const STATUS_Y: i32 = 434;
pub const STATUS_H: i32 = 18;
pub const CONTENT_RIGHT_MARGIN: i32 = 24;
pub const CONTROL_GAP: i32 = 8;
pub const ACTION_Y: i32 = STATUS_Y + STATUS_H + CONTROL_GAP;

/// Integer division as Rust computes it: the quotient rounded toward zero.
pub open spec fn rust_div(a: int, b: int) -> int
    recommends
        b > 0,
{
    if a >= 0 {
        a / b
    } else {
        -((-a) / b)
    }
}

/// `value` logical units at `dpi`, rounded half up (for non-negative values).
pub open spec fn scale_spec(value: int, dpi: int) -> int {
    rust_div(value * dpi + 48, 96)
}

/// `value` pixels at `dpi` in logical units, rounded to nearest.
pub open spec fn unscale_spec(value: int, dpi: int) -> int {
    let d = if dpi < 1 {
        1
    } else {
        dpi
    };
    rust_div(value * 96 + d / 2, d)
}

proof fn lemma_product_fits(a: int, b: int)
    requires
        i32::MIN <= a <= i32::MAX,
        0 <= b <= u32::MAX,
    ensures
        -0x7fff_ffff_8000_0000 <= a * b <= 0x7fff_fffe_8000_0001,
{
    assert(-0x8000_0000 * b <= a * b <= 0x7fff_ffff * b) by (nonlinear_arith)
        requires
            i32::MIN <= a <= i32::MAX,
            0 <= b,
    ;
    assert(0x7fff_ffff * b <= 0x7fff_ffff * 0xffff_ffffint) by (nonlinear_arith)
        requires
            0 <= b <= 0xffff_ffffint,
    ;
    assert(-0x8000_0000 * b >= -0x8000_0000 * 0xffff_ffffint) by (nonlinear_arith)
        requires
            0 <= b <= 0xffff_ffffint,
    ;
}

/// `value` logical units in pixels at `dpi`.
pub fn scale(value: i32, dpi: u32) -> (r: i32)
    ensures
        r == #[verifier::truncate] (scale_spec(value as int, dpi as int) as i32),
{
    proof {
        lemma_product_fits(value as int, dpi as int);
    }
    let v = value as i64 * dpi as i64 + 48;
    (#[verifier::truncate] ((v / 96) as i32))
}

/// `value` pixels at `dpi` in logical units.
pub fn unscale(value: i32, dpi: u32) -> (r: i32)
    ensures
        r == #[verifier::truncate] (unscale_spec(value as int, dpi as int) as i32),
{
    let d: i64 = if dpi < 1 {
        1
    } else {
        dpi as i64
    };
    assert(-0x8000_0000 * 96 <= value * 96 <= 0x7fff_ffff * 96) by (nonlinear_arith)
        requires
            i32::MIN <= value <= i32::MAX,
    ;
    let v = value as i64 * 96 + d / 2;
    (#[verifier::truncate] ((v / d) as i32))
}

pub open spec fn max_int(a: int, b: int) -> int {
    if a >= b {
        a
    } else {
        b
    }
}

pub open spec fn min_int(a: int, b: int) -> int {
    if a <= b {
        a
    } else {
        b
    }
}

/// The DPI at which the controls fit a client area: the DPI that would give
/// the client its size (by width and by height, the smaller), no more than
/// the window's DPI (at least 96) and no less than 72.
pub open spec fn layout_dpi_for_client_spec(client_w: int, client_h: int, window_dpi: int) -> int {
    let ceiling = max_int(window_dpi, 96);
    if client_w <= 0 || client_h <= 0 {
        ceiling
    } else {
        let width_dpi = (client_w * 96 + WINDOW_W / 2) / (WINDOW_W as int);
        let height_dpi = (client_h * 96 + WINDOW_H / 2) / (WINDOW_H as int);
        max_int(min_int(max_int(min_int(width_dpi, height_dpi), 1), ceiling), 72)
    }
}

pub fn layout_dpi_for_client(client_w: i32, client_h: i32, window_dpi: u32) -> (r: u32)
    ensures
        r == layout_dpi_for_client_spec(client_w as int, client_h as int, window_dpi as int),
{
    let ceiling = if window_dpi >= 96 {
        window_dpi
    } else {
        96
    };
    if client_w <= 0 || client_h <= 0 {
        return ceiling;
    }
    assert(client_w * 96 <= 0x7fff_ffff * 96) by (nonlinear_arith)
        requires
            0 < client_w <= 0x7fff_ffff,
    ;
    assert(client_h * 96 <= 0x7fff_ffff * 96) by (nonlinear_arith)
        requires
            0 < client_h <= 0x7fff_ffff,
    ;
    let width_dpi = ((client_w as i64 * 96 + WINDOW_W as i64 / 2) / WINDOW_W as i64) as u32;
    let height_dpi = ((client_h as i64 * 96 + WINDOW_H as i64 / 2) / WINDOW_H as i64) as u32;
    let smaller = if width_dpi <= height_dpi {
        width_dpi
    } else {
        height_dpi
    };
    let client_dpi = if smaller >= 1 {
        smaller
    } else {
        1
    };
    let capped = if client_dpi <= ceiling {
        client_dpi
    } else {
        ceiling
    };
    if capped >= 72 {
        capped
    } else {
        72
    }
}

/// The layout DPI never leaves [72, max(window DPI, 96)].
pub proof fn lemma_layout_dpi_bounds(client_w: int, client_h: int, window_dpi: int)
    ensures
        72 <= layout_dpi_for_client_spec(client_w, client_h, window_dpi) <= max_int(
            window_dpi,
            96,
        ),
{
}

/// A client area of the designed logical size, at a window DPI of 96 or
/// more, is laid out at 96 DPI: an oversized window DPI is not applied twice.
pub proof fn lemma_logical_client_keeps_96(window_dpi: int)
    requires
        window_dpi >= 96,
    ensures
        layout_dpi_for_client_spec(WINDOW_W as int, WINDOW_H as int, window_dpi) == 96,
{
}

/// Scaling logical units to pixels and back gives the units again, for
/// non-negative values at 96 DPI or more, as long as the pixels fit in `i32`.
pub proof fn lemma_unscale_scale(value: int, dpi: int)
    requires
        0 <= value,
        96 <= dpi,
        scale_spec(value, dpi) <= i32::MAX,
    ensures
        unscale_spec(scale_spec(value, dpi), dpi) == value,
{
    let s = (value * dpi + 48) / 96;
    let r = (value * dpi + 48) % 96;
    assert(value * dpi >= 0) by (nonlinear_arith)
        requires
            0 <= value,
            96 <= dpi,
    ;
    assert(value * dpi + 48 == 96 * s + r && 0 <= r < 96) by (nonlinear_arith)
        requires
            s == (value * dpi + 48) / 96,
            r == (value * dpi + 48) % 96,
            value * dpi >= 0,
    ;
    if dpi == 96 {
        assert(value * 96 + 48 == 96 * value + 48);
        assert(r == 48) by (nonlinear_arith)
            requires
                value * 96 + 48 == 96 * s + r,
                0 <= r < 96,
                value >= 0,
        ;
    }
    let h = dpi / 2;
    assert(0 <= 48 - r + h < dpi);
    assert(s * 96 + h == value * dpi + (48 - r + h));
    assert((s * 96 + h) / dpi == value) by (nonlinear_arith)
        requires
            s * 96 + h == value * dpi + (48 - r + h),
            0 <= 48 - r + h < dpi,
            dpi > 0,
    ;
}

/// Where the status line and the two action buttons stand, in logical units.
#[derive(Debug, Clone, Copy, PartialEq, Eq, Structural)]
pub struct ActionRowLayout {
    pub status_x: i32,
    pub status_y: i32,
    pub status_w: i32,
    pub status_h: i32,
    pub apply_x: i32,
    pub close_x: i32,
    pub action_y: i32,
}

/// The status line takes the full content width; the buttons stand from the
/// right edge, keeping the margins even for a client narrower than designed.
pub open spec fn action_row_spec(client_w: int) -> ActionRowLayout {
    let content_right = max_int(client_w - CONTENT_RIGHT_MARGIN, STATUS_X + 1);
    let close_x = max_int(content_right - BUTTON_W, STATUS_X as int);
    let apply_x = max_int(close_x - CONTROL_GAP - BUTTON_W, STATUS_X as int);
    ActionRowLayout {
        status_x: STATUS_X,
        status_y: STATUS_Y,
        status_w: max_int(content_right - STATUS_X, 1) as i32,
        status_h: STATUS_H,
        apply_x: apply_x as i32,
        close_x: close_x as i32,
        action_y: ACTION_Y,
    }
}

pub fn action_row_layout(client_w: i32) -> (r: ActionRowLayout)
    requires
        client_w >= i32::MIN + CONTENT_RIGHT_MARGIN,
    ensures
        r == action_row_spec(client_w as int),
{
    let right = client_w - CONTENT_RIGHT_MARGIN;
    let content_right = if right >= STATUS_X + 1 {
        right
    } else {
        STATUS_X + 1
    };
    let close_x = if content_right - BUTTON_W >= STATUS_X {
        content_right - BUTTON_W
    } else {
        STATUS_X
    };
    let apply_x = if close_x - CONTROL_GAP - BUTTON_W >= STATUS_X {
        close_x - CONTROL_GAP - BUTTON_W
    } else {
        STATUS_X
    };
    let status_w = if content_right - STATUS_X >= 1 {
        content_right - STATUS_X
    } else {
        1
    };
    ActionRowLayout {
        status_x: STATUS_X,
        status_y: STATUS_Y,
        status_w,
        status_h: STATUS_H,
        apply_x,
        close_x,
        action_y: ACTION_Y,
    }
}

/// The status line ends a control gap above the buttons, whatever the width.
pub proof fn lemma_status_above_buttons(client_w: int)
    ensures
        action_row_spec(client_w).action_y - (action_row_spec(client_w).status_y
            + action_row_spec(client_w).status_h) == CONTROL_GAP,
{
}

/// Nothing of the row starts left of the status line, and the status line
/// is never empty.
pub proof fn lemma_action_row_stays_inside(client_w: int)
    requires
        client_w <= i32::MAX,
    ensures
        action_row_spec(client_w).apply_x >= STATUS_X,
        action_row_spec(client_w).close_x >= STATUS_X,
        action_row_spec(client_w).status_w >= 1,
{
}

/// A client wide enough for the row keeps the same right margin after the
/// status line and after the Close button, a control gap between the
/// buttons, and the buttons' bottom a margin above the window's bottom.
pub proof fn lemma_action_row_margins(client_w: int)
    requires
        client_w >= STATUS_X + 2 * BUTTON_W + CONTROL_GAP + CONTENT_RIGHT_MARGIN,
        client_w <= i32::MAX,
    ensures
        client_w - (action_row_spec(client_w).status_x + action_row_spec(client_w).status_w)
            == CONTENT_RIGHT_MARGIN,
        client_w - (action_row_spec(client_w).close_x + BUTTON_W) == CONTENT_RIGHT_MARGIN,
        action_row_spec(client_w).close_x - (action_row_spec(client_w).apply_x + BUTTON_W)
            == CONTROL_GAP,
        WINDOW_H - (action_row_spec(client_w).action_y + BUTTON_H) == CONTENT_RIGHT_MARGIN,
{
}

/// The low 16 bits of a message parameter.
pub fn loword(value: usize) -> (r: u16)
    ensures
        r == value % 0x10000,
{
    assert(value & 0xffff == value % 0x10000) by (bit_vector);
    (value & 0xffff) as u16
}

/// Bits 16 to 31 of a message parameter.
pub fn hiword(value: usize) -> (r: u16)
    ensures
        r == (value / 0x10000) % 0x10000,
{
    assert((value >> 16) & 0xffff == (value / 0x10000) % 0x10000) by (bit_vector);
    ((value >> 16) & 0xffff) as u16
}

/// A message parameter split into its two words gives them back.
pub proof fn lemma_words_round_trip(hi: u16, lo: u16)
    ensures
        (hi as int * 0x10000 + lo as int) % 0x10000 == lo,
        ((hi as int * 0x10000 + lo as int) / 0x10000) % 0x10000 == hi,
{
    assert((hi as int * 0x10000 + lo as int) % 0x10000 == lo) by (nonlinear_arith)
        requires
            0 <= lo < 0x10000,
            0 <= hi,
    ;
    assert((hi as int * 0x10000 + lo as int) / 0x10000 == hi) by (nonlinear_arith)
        requires
            0 <= lo < 0x10000,
            0 <= hi,
    ;
}

pub open spec fn fits_i32(x: int) -> bool {
    i32::MIN <= x <= i32::MAX
}

/// `scale` as it computes in `i32`.
pub open spec fn scaled(value: int, dpi: int) -> i32 {
    #[verifier::truncate] (scale_spec(value, dpi) as i32)
}

/// A rectangle in client coordinates, as Win32 `RECT` holds it.
#[derive(Debug, Clone, Copy, PartialEq, Eq, Structural)]
pub struct Rect {
    pub left: i32,
    pub top: i32,
    pub right: i32,
    pub bottom: i32,
}

/// A control's position and size, in pixels.
#[derive(Debug, Clone, Copy, PartialEq, Eq, Structural)]
pub struct Placement {
    pub x: i32,
    pub y: i32,
    pub w: i32,
    pub h: i32,
}

/// Where every control of the picker stands.
#[derive(Debug, Clone, Copy, PartialEq, Eq, Structural)]
pub struct ControlLayout {
    pub preview: Placement,
    pub image_label: Placement,
    pub path: Placement,
    pub browse: Placement,
    pub style_label: Placement,
    pub style: Placement,
    pub status: Placement,
    pub apply: Placement,
    pub close: Placement,
}

pub open spec fn placement_at(x: int, y: int, w: int, h: int, dpi: int) -> Placement {
    Placement { x: scaled(x, dpi), y: scaled(y, dpi), w: scaled(w, dpi), h: scaled(h, dpi) }
}

/// The logical layout of the picker scaled to `dpi`, for a client area
/// `client_w` logical units wide.
pub open spec fn control_layout_spec(dpi: int, client_w: int) -> ControlLayout {
    let row = action_row_spec(client_w);
    ControlLayout {
        preview: placement_at(
            PREVIEW_X as int,
            PREVIEW_Y as int,
            PREVIEW_VIEW_W as int,
            PREVIEW_VIEW_H as int,
            dpi,
        ),
        image_label: placement_at(
            LABEL_X as int,
            ROW_IMAGE_Y + 4,
            LABEL_W as int,
            FIELD_H as int,
            dpi,
        ),
        path: placement_at(FIELD_X as int, ROW_IMAGE_Y as int, PATH_W as int, FIELD_H as int, dpi),
        browse: placement_at(
            BROWSE_X as int,
            ROW_IMAGE_Y - 1,
            BUTTON_W as int,
            BUTTON_H as int,
            dpi,
        ),
        style_label: placement_at(
            LABEL_X as int,
            ROW_STYLE_Y + 4,
            LABEL_W as int,
            FIELD_H as int,
            dpi,
        ),
        style: placement_at(
            FIELD_X as int,
            ROW_STYLE_Y as int,
            STYLE_W as int,
            STYLE_DROP_H as int,
            dpi,
        ),
        status: placement_at(
            row.status_x as int,
            row.status_y as int,
            row.status_w as int,
            row.status_h as int,
            dpi,
        ),
        apply: placement_at(
            row.apply_x as int,
            row.action_y as int,
            BUTTON_W as int,
            BUTTON_H as int,
            dpi,
        ),
        close: placement_at(
            row.close_x as int,
            row.action_y as int,
            BUTTON_W as int,
            BUTTON_H as int,
            dpi,
        ),
    }
}

fn place(x: i32, y: i32, w: i32, h: i32, dpi: u32) -> (r: Placement)
    ensures
        r == placement_at(x as int, y as int, w as int, h as int, dpi as int),
{
    Placement { x: scale(x, dpi), y: scale(y, dpi), w: scale(w, dpi), h: scale(h, dpi) }
}

/// Where each control stands at `dpi` in a client `client_w` logical units
/// wide.
pub fn control_layout(dpi: u32, client_w: i32) -> (r: ControlLayout)
    requires
        client_w >= i32::MIN + CONTENT_RIGHT_MARGIN,
    ensures
        r == control_layout_spec(dpi as int, client_w as int),
{
    let row = action_row_layout(client_w);
    ControlLayout {
        preview: place(PREVIEW_X, PREVIEW_Y, PREVIEW_VIEW_W, PREVIEW_VIEW_H, dpi),
        image_label: place(LABEL_X, ROW_IMAGE_Y + 4, LABEL_W, FIELD_H, dpi),
        path: place(FIELD_X, ROW_IMAGE_Y, PATH_W, FIELD_H, dpi),
        browse: place(BROWSE_X, ROW_IMAGE_Y - 1, BUTTON_W, BUTTON_H, dpi),
        style_label: place(LABEL_X, ROW_STYLE_Y + 4, LABEL_W, FIELD_H, dpi),
        style: place(FIELD_X, ROW_STYLE_Y, STYLE_W, STYLE_DROP_H, dpi),
        status: place(row.status_x, row.status_y, row.status_w, row.status_h, dpi),
        apply: place(row.apply_x, row.action_y, BUTTON_W, BUTTON_H, dpi),
        close: place(row.close_x, row.action_y, BUTTON_W, BUTTON_H, dpi),
    }
}

/// The client width in logical units: the client rectangle's width at `dpi`
/// (at least 1), or the designed width when there is no client area.
pub open spec fn logical_client_width_spec(client: Option<Rect>, dpi: int) -> int {
    match client {
        Some(c) => if c.right > c.left {
            max_int(
                (#[verifier::truncate] (unscale_spec(c.right - c.left, dpi) as i32)) as int,
                1,
            )
        } else {
            WINDOW_W as int
        },
        None => WINDOW_W as int,
    }
}

pub fn logical_client_width(client: Option<Rect>, dpi: u32) -> (r: i32)
    requires
        client matches Some(c) ==> fits_i32(c.right - c.left),
    ensures
        r == logical_client_width_spec(client, dpi as int),
{
    match client {
        Some(c) => {
            if c.right > c.left {
                let w = unscale(c.right - c.left, dpi);
                if w >= 1 {
                    w
                } else {
                    1
                }
            } else {
                WINDOW_W
            }
        },
        None => WINDOW_W,
    }
}

/// The DPI used for layout: from the client area when there is one, else the
/// window's DPI (at least 96).
pub open spec fn layout_dpi_spec(client: Option<Rect>, dpi: int) -> int {
    match client {
        Some(c) => layout_dpi_for_client_spec(c.right - c.left, c.bottom - c.top, dpi),
        None => max_int(dpi, 96),
    }
}

pub fn layout_dpi(client: Option<Rect>, dpi: u32) -> (r: u32)
    requires
        client matches Some(c) ==> fits_i32(c.right - c.left) && fits_i32(c.bottom - c.top),
    ensures
        r == layout_dpi_spec(client, dpi as int),
{
    match client {
        Some(c) => layout_dpi_for_client(c.right - c.left, c.bottom - c.top, dpi),
        None => if dpi >= 96 {
            dpi
        } else {
            96
        },
    }
}

/// The screen area inside the preview's bezel.
pub open spec fn preview_screen_spec(client: Rect, dpi: int) -> Rect {
    Rect {
        left: scaled(8, dpi),
        top: scaled(10, dpi),
        right: (client.right - client.left - scaled(8, dpi)) as i32,
        bottom: (client.bottom - client.top - scaled(10, dpi)) as i32,
    }
}

pub fn preview_screen_rect(client: Rect, dpi: u32) -> (r: Rect)
    requires
        fits_i32(client.right - client.left),
        fits_i32(client.bottom - client.top),
        fits_i32(client.right - client.left - scaled(8, dpi as int)),
        fits_i32(client.bottom - client.top - scaled(10, dpi as int)),
    ensures
        r == preview_screen_spec(client, dpi as int),
{
    let width = client.right - client.left;
    let height = client.bottom - client.top;
    let inset_x = scale(8, dpi);
    let inset_y = scale(10, dpi);
    Rect { left: inset_x, top: inset_y, right: width - inset_x, bottom: height - inset_y }
}

/// The squares of the empty preview's checkerboard are 16 logical units, at
/// least 4 pixels.
pub fn checker_size(dpi: u32) -> (r: i32)
    ensures
        r == max_int(scaled(16, dpi as int) as int, 4),
{
    let s = scale(16, dpi);
    if s >= 4 {
        s
    } else {
        4
    }
}

/// The icon square and the text area of the path field.
pub open spec fn path_pill_spec(client: Rect, dpi: int) -> (Rect, Rect) {
    let icon_size = scaled(18, dpi) as int;
    let pad = scaled(8, dpi) as int;
    let icon_top = client.top + rust_div(client.bottom - client.top - icon_size, 2);
    let icon = Rect {
        left: (client.left + pad) as i32,
        top: icon_top as i32,
        right: (client.left + pad + icon_size) as i32,
        bottom: (icon_top + icon_size) as i32,
    };
    let text = Rect {
        left: (client.left + pad + icon_size + pad) as i32,
        top: client.top,
        right: (client.right - scaled(10, dpi)) as i32,
        bottom: client.bottom,
    };
    (icon, text)
}

pub fn path_pill_layout(client: Rect, dpi: u32) -> (r: (Rect, Rect))
    requires
        fits_i32(client.bottom - client.top),
        fits_i32(client.bottom - client.top - scaled(18, dpi as int)),
        fits_i32(client.top + rust_div(client.bottom - client.top - scaled(18, dpi as int), 2)),
        fits_i32(client.top + rust_div(client.bottom - client.top - scaled(18, dpi as int), 2)
            + scaled(18, dpi as int)),
        fits_i32(client.left + scaled(8, dpi as int)),
        fits_i32(client.left + scaled(8, dpi as int) + scaled(18, dpi as int)),
        fits_i32(client.left + scaled(8, dpi as int) + scaled(18, dpi as int) + scaled(
            8,
            dpi as int,
        )),
        fits_i32(client.right - scaled(10, dpi as int)),
    ensures
        r == path_pill_spec(client, dpi as int),
{
    let icon_size = scale(18, dpi);
    let pad = scale(8, dpi);
    let icon_top = client.top + ((client.bottom - client.top - icon_size) / 2);
    let icon = Rect {
        left: client.left + pad,
        top: icon_top,
        right: client.left + pad + icon_size,
        bottom: icon_top + icon_size,
    };
    let text = Rect {
        left: icon.right + pad,
        top: client.top,
        right: client.right - scale(10, dpi),
        bottom: client.bottom,
    };
    (icon, text)
}

/// The number of squares of side `size` needed to cover `len` units.
pub open spec fn squares_needed(len: int, size: int) -> int
    recommends
        size > 0,
{
    if len <= 0 {
        0
    } else {
        (len + size - 1) / size
    }
}

/// The square in row `row` and column `col` of a grid over `rect`, clipped
/// to it.
pub open spec fn checker_tile(rect: Rect, size: int, row: int, col: int) -> Rect {
    let left = rect.left + col * size;
    let top = rect.top + row * size;
    Rect {
        left: left as i32,
        top: top as i32,
        right: min_int(left + size, rect.right as int) as i32,
        bottom: min_int(top + size, rect.bottom as int) as i32,
    }
}

/// The squares of row `row` from column `col` on whose row and column add up
/// to an even number.
pub open spec fn checker_row(rect: Rect, size: int, row: int, col: int) -> Seq<Rect>
    decreases squares_needed(rect.right - rect.left, size) - col,
{
    if size <= 0 || col < 0 || col >= squares_needed(rect.right - rect.left, size) {
        Seq::empty()
    } else {
        let rest = checker_row(rect, size, row, col + 1);
        if (row + col) % 2 == 0 {
            seq![checker_tile(rect, size, row, col)] + rest
        } else {
            rest
        }
    }
}

/// The alternate squares of a checkerboard over `rect`, from row `row` on,
/// row by row.
pub open spec fn checker_rows(rect: Rect, size: int, row: int) -> Seq<Rect>
    decreases squares_needed(rect.bottom - rect.top, size) - row,
{
    if size <= 0 || row < 0 || row >= squares_needed(rect.bottom - rect.top, size) {
        Seq::empty()
    } else {
        checker_row(rect, size, row, 0) + checker_rows(rect, size, row + 1)
    }
}

proof fn lemma_square_steps(len: int, size: int, k: int)
    requires
        size > 0,
        0 <= k,
    ensures
        k * size < len <==> k < squares_needed(len, size),
{
    if len <= 0 {
        assert(k * size >= 0) by (nonlinear_arith)
            requires
                k >= 0,
                size > 0,
        ;
    } else {
        let n = (len + size - 1) / size;
        assert(k * size < len <==> k < n) by (nonlinear_arith)
            requires
                n == (len + size - 1) / size,
                size > 0,
                len > 0,
                k >= 0,
        ;
    }
}

proof fn lemma_step_mul(a: int, k: int, size: int)
    ensures
        a + k * size + size == a + (k + 1) * size,
{
    assert((k + 1) * size == k * size + size) by (nonlinear_arith);
}

fn min_i32(a: i32, b: i32) -> (r: i32)
    ensures
        r == min_int(a as int, b as int),
{
    if a <= b {
        a
    } else {
        b
    }
}

/// The alternate squares of the empty preview's checkerboard, drawn over a
/// base fill: squares of side `size` (at least 1) from the top-left corner,
/// clipped to `rect`, those whose row and column add up to an even number.
pub fn checkerboard_tiles(rect: Rect, size: i32) -> (r: Vec<Rect>)
    requires
        rect.right <= i32::MAX - max_int(size as int, 1),
        rect.bottom <= i32::MAX - max_int(size as int, 1),
        squares_needed(rect.right - rect.left, max_int(size as int, 1)) + squares_needed(
            rect.bottom - rect.top,
            max_int(size as int, 1),
        ) <= i32::MAX,
    ensures
        r@ == checker_rows(rect, max_int(size as int, 1), 0),
{
    let size = if size >= 1 {
        size
    } else {
        1
    };
    let ghost ncols = squares_needed(rect.right - rect.left, size as int);
    let ghost nrows = squares_needed(rect.bottom - rect.top, size as int);
    let mut out: Vec<Rect> = Vec::new();
    let mut y = rect.top;
    let mut row: i32 = 0;
    proof {
        lemma_square_steps(rect.bottom - rect.top, size as int, 0);
        lemma_square_steps(rect.right - rect.left, size as int, 0);
    }
    while y < rect.bottom
        invariant
            size >= 1,
            rect.right <= i32::MAX - size,
            rect.bottom <= i32::MAX - size,
            ncols == squares_needed(rect.right - rect.left, size as int),
            nrows == squares_needed(rect.bottom - rect.top, size as int),
            ncols >= 0 && nrows >= 0,
            ncols + nrows <= i32::MAX,
            0 <= row <= nrows,
            y == rect.top + row * size,
            (y < rect.bottom) == (row < nrows),
            out@ + checker_rows(rect, size as int, row as int) == checker_rows(
                rect,
                size as int,
                0,
            ),
        decreases nrows - row,
    {
        let ghost before = out@;
        let mut x = rect.left;
        let mut col: i32 = 0;
        proof {
            lemma_square_steps(rect.right - rect.left, size as int, 0);
            assert(out@ + checker_row(rect, size as int, row as int, 0) == before + checker_row(
                rect,
                size as int,
                row as int,
                0,
            ));
        }
        while x < rect.right
            invariant
                size >= 1,
                rect.right <= i32::MAX - size,
                rect.bottom <= i32::MAX - size,
                ncols == squares_needed(rect.right - rect.left, size as int),
                nrows == squares_needed(rect.bottom - rect.top, size as int),
                ncols >= 0 && nrows >= 0,
                ncols + nrows <= i32::MAX,
                0 <= row < nrows,
                y == rect.top + row * size,
                y < rect.bottom,
                0 <= col <= ncols,
                x == rect.left + col * size,
                (x < rect.right) == (col < ncols),
                out@ + checker_row(rect, size as int, row as int, col as int) == before
                    + checker_row(rect, size as int, row as int, 0),
            decreases ncols - col,
        {
            let ghost mid = out@;
            if (row + col) % 2 == 0 {
                let tile = Rect {
                    left: x,
                    top: y,
                    right: min_i32(x + size, rect.right),
                    bottom: min_i32(y + size, rect.bottom),
                };
                out.push(tile);
                proof {
                    assert(tile == checker_tile(rect, size as int, row as int, col as int));
                    assert(out@ + checker_row(rect, size as int, row as int, col + 1) =~= mid
                        + checker_row(rect, size as int, row as int, col as int));
                }
            }
            proof {
                lemma_step_mul(rect.left as int, col as int, size as int);
                lemma_square_steps(rect.right - rect.left, size as int, col + 1);
            }
            x = x + size;
            col = col + 1;
        }
        proof {
            assert(out@ =~= before + checker_row(rect, size as int, row as int, 0));
            assert(out@ + checker_rows(rect, size as int, row + 1) =~= before + checker_rows(
                rect,
                size as int,
                row as int,
            ));
            lemma_step_mul(rect.top as int, row as int, size as int);
            lemma_square_steps(rect.bottom - rect.top, size as int, row + 1);
        }
        y = y + size;
        row = row + 1;
    }
    proof {
        assert(out@ =~= checker_rows(rect, size as int, 0));
    }
    out
}

/// Every square of the checkerboard lies inside the rectangle and is not
/// empty.
pub proof fn lemma_checker_tiles_inside(rect: Rect, size: int, row: int)
    requires
        size >= 1,
        row >= 0,
        rect.right as int + size <= i32::MAX,
        rect.bottom as int + size <= i32::MAX,
    ensures
        forall|k: int|
            0 <= k < checker_rows(rect, size, row).len() ==> {
                let t = #[trigger] checker_rows(rect, size, row)[k];
                rect.left <= t.left < t.right <= rect.right && rect.top <= t.top < t.bottom
                    <= rect.bottom
            },
    decreases squares_needed(rect.bottom - rect.top, size) - row,
{
    if row < squares_needed(rect.bottom - rect.top, size) {
        lemma_checker_row_inside(rect, size, row, 0);
        lemma_checker_tiles_inside(rect, size, row + 1);
        let a = checker_row(rect, size, row, 0);
        let b = checker_rows(rect, size, row + 1);
        assert forall|k: int| 0 <= k < (a + b).len() implies {
            let t = #[trigger] (a + b)[k];
            rect.left <= t.left < t.right <= rect.right && rect.top <= t.top < t.bottom
                <= rect.bottom
        } by {
            if k < a.len() {
                assert((a + b)[k] == a[k]);
            } else {
                assert((a + b)[k] == b[k - a.len()]);
            }
        }
    }
}

proof fn lemma_checker_row_inside(rect: Rect, size: int, row: int, col: int)
    requires
        size >= 1,
        0 <= row < squares_needed(rect.bottom - rect.top, size),
        col >= 0,
        rect.right as int + size <= i32::MAX,
        rect.bottom as int + size <= i32::MAX,
    ensures
        forall|k: int|
            0 <= k < checker_row(rect, size, row, col).len() ==> {
                let t = #[trigger] checker_row(rect, size, row, col)[k];
                rect.left <= t.left < t.right <= rect.right && rect.top <= t.top < t.bottom
                    <= rect.bottom
            },
    decreases squares_needed(rect.right - rect.left, size) - col,
{
    if col < squares_needed(rect.right - rect.left, size) {
        lemma_checker_row_inside(rect, size, row, col + 1);
        lemma_square_steps(rect.right - rect.left, size, col);
        lemma_square_steps(rect.bottom - rect.top, size, row);
        assert(col * size >= 0 && row * size >= 0) by (nonlinear_arith)
            requires
                col >= 0,
                row >= 0,
                size >= 1,
        ;
        let t = checker_tile(rect, size, row, col);
        let rest = checker_row(rect, size, row, col + 1);
        if (row + col) % 2 == 0 {
            let a = seq![t];
            assert forall|k: int| 0 <= k < (a + rest).len() implies {
                let u = #[trigger] (a + rest)[k];
                rect.left <= u.left < u.right <= rect.right && rect.top <= u.top < u.bottom
                    <= rect.bottom
            } by {
                if k == 0 {
                    assert((a + rest)[k] == t);
                } else {
                    assert((a + rest)[k] == rest[k - 1]);
                }
            }
        }
    }
}

} // verus!
