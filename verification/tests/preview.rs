use wallpaper_overrider::preview::{
    build_preview_bitmap, downscale_for_preview, preview_decode_bounds, render_preview,
    rgba_to_bgra, Rgba8Image, PREVIEW_H, PREVIEW_MAX_DECODE_ALLOC, PREVIEW_MAX_DECODE_DIMENSION,
    PREVIEW_W,
};
use wallpaper_overrider::wallpaper_style::WallpaperStyle;

const BG: [u8; 4] = [20, 20, 20, 255];
const RED: [u8; 4] = [220, 0, 0, 255];
const BLUE: [u8; 4] = [0, 30, 220, 255];

fn solid_image(width: u32, height: u32, rgba: [u8; 4]) -> Rgba8Image {
    Rgba8Image::from_pixel(width, height, rgba)
}

fn pixel(buf: &[u8], width: u32, x: u32, y: u32) -> [u8; 4] {
    let i = ((y * width + x) * 4) as usize;
    [buf[i], buf[i + 1], buf[i + 2], buf[i + 3]]
}

#[test]
fn center_keeps_image_size_and_uses_background() {
    let img = solid_image(2, 2, RED);

    let preview = render_preview(&img, WallpaperStyle::Center, 4, 4);

    assert_eq!(pixel(&preview, 4, 0, 0), BG);
    assert_eq!(pixel(&preview, 4, 1, 1), RED);
    assert_eq!(pixel(&preview, 4, 2, 2), RED);
    assert_eq!(pixel(&preview, 4, 3, 3), BG);
}

#[test]
fn tile_repeats_the_source_image() {
    let mut pixels = Vec::new();
    pixels.extend_from_slice(&RED);
    pixels.extend_from_slice(&BLUE);
    let img = Rgba8Image { width: 2, height: 1, pixels };

    let preview = render_preview(&img, WallpaperStyle::Tile, 5, 2);

    assert_eq!(pixel(&preview, 5, 0, 0), RED);
    assert_eq!(pixel(&preview, 5, 1, 0), BLUE);
    assert_eq!(pixel(&preview, 5, 2, 0), RED);
    assert_eq!(pixel(&preview, 5, 3, 1), BLUE);
    assert_eq!(pixel(&preview, 5, 4, 1), RED);
}

#[test]
fn fit_preserves_aspect_ratio_with_letterbox() {
    let img = solid_image(4, 2, RED);

    let preview = render_preview(&img, WallpaperStyle::Fit, 4, 4);

    assert_eq!(pixel(&preview, 4, 0, 0), BG);
    assert_eq!(pixel(&preview, 4, 0, 1), RED);
    assert_eq!(pixel(&preview, 4, 3, 2), RED);
    assert_eq!(pixel(&preview, 4, 3, 3), BG);
}

#[test]
fn stretch_fills_the_entire_preview() {
    let img = solid_image(1, 1, RED);

    let preview = render_preview(&img, WallpaperStyle::Stretch, 3, 2);

    for y in 0..2 {
        for x in 0..3 {
            assert_eq!(pixel(&preview, 3, x, y), RED);
        }
    }
}

#[test]
fn preview_decode_limits_are_bounded() {
    let (max_w, max_h, max_alloc) = preview_decode_bounds();

    assert_eq!(max_w, PREVIEW_MAX_DECODE_DIMENSION);
    assert_eq!(max_h, PREVIEW_MAX_DECODE_DIMENSION);
    assert_eq!(max_alloc, PREVIEW_MAX_DECODE_ALLOC);
    assert_eq!(max_alloc, 128 * 1024 * 1024);
}

#[test]
fn fill_covers_the_canvas() {
    let img = solid_image(8, 2, BLUE);
    let preview = render_preview(&img, WallpaperStyle::Fill, 4, 4);
    for y in 0..4 {
        for x in 0..4 {
            assert_eq!(pixel(&preview, 4, x, y), BLUE);
        }
    }
}

#[test]
fn transparent_pixels_show_the_background() {
    let img = solid_image(1, 1, [255, 255, 255, 0]);
    let preview = render_preview(&img, WallpaperStyle::Tile, 2, 2);
    assert_eq!(pixel(&preview, 2, 1, 1), BG);
    let empty = Rgba8Image { width: 0, height: 0, pixels: Vec::new() };
    let preview = render_preview(&empty, WallpaperStyle::Tile, 2, 1);
    assert_eq!(preview, vec![20, 20, 20, 255, 20, 20, 20, 255]);
}

#[test]
fn bgra_swaps_red_and_blue() {
    assert_eq!(rgba_to_bgra(&vec![1, 2, 3, 4, 5, 6, 7, 8, 9]), vec![3, 2, 1, 4, 7, 6, 5, 8]);
    let bitmap = build_preview_bitmap(&solid_image(1, 1, RED), WallpaperStyle::Stretch);
    assert_eq!(bitmap.width as u32, PREVIEW_W);
    assert_eq!(bitmap.height as u32, PREVIEW_H);
    assert_eq!(bitmap.bgra.len(), (PREVIEW_W * PREVIEW_H * 4) as usize);
    assert_eq!(&bitmap.bgra[0..4], &[0, 0, 220, 255]);
}

#[test]
fn downscale_keeps_small_images_and_shrinks_large_ones() {
    let small = downscale_for_preview(solid_image(3, 2, RED), 4, 4);
    assert_eq!((small.width, small.height), (3, 2));
    let large = downscale_for_preview(solid_image(8, 4, RED), 4, 4);
    assert_eq!((large.width, large.height), (4, 2));
    assert_eq!(large.pixels.len(), 4 * 2 * 4);
}
