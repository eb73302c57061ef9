use wallpaper_overrider::layout::{
    action_row_layout, checker_size, checkerboard_tiles, control_layout, hiword,
    layout_dpi, layout_dpi_for_client, logical_client_width, loword, path_pill_layout,
    preview_screen_rect, scale, unscale, Rect, BUTTON_H, BUTTON_W, CONTENT_RIGHT_MARGIN,
    CONTROL_GAP, STATUS_X, WINDOW_H, WINDOW_W,
};

#[test]
fn layout_dpi_does_not_overflow_when_client_stays_logical() {
    assert_eq!(layout_dpi_for_client(WINDOW_W, WINDOW_H, 120), 96);
}

#[test]
fn layout_dpi_follows_a_real_dpi_resized_client() {
    assert_eq!(
        layout_dpi_for_client(scale(WINDOW_W, 144), scale(WINDOW_H, 144), 144),
        144
    );
}

#[test]
fn layout_dpi_can_shrink_to_keep_controls_visible() {
    assert_eq!(
        layout_dpi_for_client(scale(WINDOW_W, 80), scale(WINDOW_H, 80), 96),
        80
    );
}

#[test]
fn action_row_gives_status_the_full_content_width() {
    let layout = action_row_layout(WINDOW_W);

    assert_eq!(layout.status_x, STATUS_X);
    assert_eq!(layout.status_w, WINDOW_W - CONTENT_RIGHT_MARGIN - STATUS_X);
    assert_eq!(layout.apply_x, 296);
    assert_eq!(layout.close_x, 410);
}

#[test]
fn action_row_keeps_status_above_buttons() {
    let layout = action_row_layout(WINDOW_W);

    assert_eq!(
        layout.action_y - (layout.status_y + layout.status_h),
        CONTROL_GAP
    );
}

#[test]
fn action_row_keeps_consistent_outer_margins() {
    let layout = action_row_layout(WINDOW_W);

    assert_eq!(layout.status_x, STATUS_X);
    assert_eq!(
        WINDOW_W - (layout.status_x + layout.status_w),
        CONTENT_RIGHT_MARGIN
    );
    assert_eq!(WINDOW_W - (layout.close_x + BUTTON_W), CONTENT_RIGHT_MARGIN);
    assert_eq!(
        WINDOW_H - (layout.action_y + BUTTON_H),
        CONTENT_RIGHT_MARGIN
    );
}

#[test]
fn unscale_round_trips_scaled_layout_values() {
    assert_eq!(unscale(scale(WINDOW_W, 144), 144), WINDOW_W);
    assert_eq!(unscale(scale(WINDOW_H, 120), 120), WINDOW_H);
}

#[test]
fn scale_rounds_half_up_and_truncates_toward_zero() {
    assert_eq!(scale(8, 96), 8);
    assert_eq!(scale(1, 144), 2);
    assert_eq!(scale(3, 120), 4);
    assert_eq!(scale(-1, 96), 0);
    assert_eq!(unscale(15, 0), 1440);
    assert_eq!(unscale(-10, 96), -9);
}

#[test]
fn layout_dpi_stays_between_72_and_the_window_dpi() {
    assert_eq!(layout_dpi_for_client(10, 10, 96), 72);
    assert_eq!(layout_dpi_for_client(0, 400, 120), 120);
    assert_eq!(layout_dpi_for_client(-5, 400, 60), 96);
    assert_eq!(layout_dpi_for_client(WINDOW_W * 4, WINDOW_H * 4, 144), 144);
}

#[test]
fn narrow_client_keeps_buttons_inside() {
    let layout = action_row_layout(100);
    assert_eq!(layout.close_x, STATUS_X);
    assert_eq!(layout.apply_x, STATUS_X);
    assert_eq!(layout.status_w, 52);
    let tiny = action_row_layout(0);
    assert_eq!(tiny.status_w, 1);
}

#[test]
fn control_layout_scales_every_control() {
    let l = control_layout(144, WINDOW_W);
    assert_eq!((l.preview.x, l.preview.y, l.preview.w, l.preview.h), (36, 33, 738, 477));
    assert_eq!((l.close.x, l.close.w), (615, 159));
    assert_eq!((l.apply.x, l.apply.y), (444, 690));
    assert_eq!(l.style.h, 240);
}

#[test]
fn client_width_and_dpi_from_client_rect() {
    let client = Rect { left: 0, top: 0, right: 810, bottom: 771 };
    assert_eq!(logical_client_width(Some(client), 144), 540);
    assert_eq!(logical_client_width(None, 144), WINDOW_W);
    assert_eq!(logical_client_width(Some(Rect { left: 5, top: 0, right: 5, bottom: 9 }), 96), WINDOW_W);
    assert_eq!(layout_dpi(Some(client), 144), 144);
    assert_eq!(layout_dpi(None, 72), 96);
}

#[test]
fn message_words_split() {
    assert_eq!(loword(0x0012_0034), 0x34);
    assert_eq!(hiword(0x0012_0034), 0x12);
    assert_eq!(hiword(0xffff_ffff), 0xffff);
}

#[test]
fn preview_and_path_geometry() {
    let screen = preview_screen_rect(Rect { left: 0, top: 0, right: 492, bottom: 318 }, 96);
    assert_eq!(screen, Rect { left: 8, top: 10, right: 484, bottom: 308 });
    let (icon, text) = path_pill_layout(Rect { left: 0, top: 0, right: 292, bottom: 26 }, 96);
    assert_eq!(icon, Rect { left: 8, top: 4, right: 26, bottom: 22 });
    assert_eq!(text, Rect { left: 34, top: 0, right: 282, bottom: 26 });
    assert_eq!(checker_size(96), 16);
    assert_eq!(checker_size(10), 4);
}

#[test]
fn checkerboard_alternates_and_clips() {
    let tiles = checkerboard_tiles(Rect { left: 0, top: 0, right: 5, bottom: 3 }, 2);
    assert_eq!(
        tiles,
        vec![
            Rect { left: 0, top: 0, right: 2, bottom: 2 },
            Rect { left: 4, top: 0, right: 5, bottom: 2 },
            Rect { left: 2, top: 2, right: 4, bottom: 3 },
        ]
    );
    assert!(checkerboard_tiles(Rect { left: 3, top: 3, right: 3, bottom: 9 }, 0).is_empty());
}
