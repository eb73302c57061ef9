//! The preview of a wallpaper as a style would show it, rendered with the
//! `image` crate into a small RGBA canvas and handed to GDI as BGRA.

use vstd::prelude::*;
use crate::layout::rust_div;
use crate::wallpaper_style::WallpaperStyle;

verus! {

pub const PREVIEW_W: u32 = 316;

pub const PREVIEW_H: u32 = 198;

pub const PREVIEW_WORK_SCALE: u32 = 2;

pub const PREVIEW_MAX_DECODE_DIMENSION: u32 = 32_768;

pub const PREVIEW_MAX_DECODE_ALLOC: u64 = 134_217_728;

/// An 8-bit RGBA image: rows from the top, four bytes per pixel.
pub struct Rgba8Image {
    pub width: u32,
    pub height: u32,
    pub pixels: Vec<u8>,
}

impl Rgba8Image {
    /// The buffer holds exactly the image's pixels.
    pub open spec fn wf(&self) -> bool {
        self.pixels@.len() == self.width as int * self.height as int * 4
    }

    /// An image of one colour.
    pub fn from_pixel(width: u32, height: u32, rgba: [u8; 4]) -> (r: Self)
        requires
            width as int * height as int * 4 <= usize::MAX,
        ensures
            r.wf(),
            r.width == width,
            r.height == height,
            r.pixels@ == solid_pixels(rgba@, width as int * height as int),
    {
        let pixels = solid_buffer(rgba, width, height);
        Rgba8Image { width, height, pixels }
    }
}

/// `count` pixels of the colour `rgba`.
pub open spec fn solid_pixels(rgba: Seq<u8>, count: int) -> Seq<u8> {
    Seq::new((4 * count) as nat, |k: int| rgba[k % 4])
}

/// The four bytes of pixel (`i`, `j`) of an image `width` pixels wide.
pub open spec fn pixel_at(pixels: Seq<u8>, width: int, i: int, j: int) -> Seq<u8> {
    pixels.subrange(4 * (j * width + i), 4 * (j * width + i) + 4)
}

/// What `image::imageops::overlay` guarantees of an RGBA canvas: pixels
/// outside the placed image are kept; inside it, an opaque pixel of the image
/// replaces the canvas pixel and a fully transparent one keeps it.
pub open spec fn overlay_holds(
    bw: int,
    bh: int,
    bottom: Seq<u8>,
    tw: int,
    top: Seq<u8>,
    th: int,
    x: int,
    y: int,
    result: Seq<u8>,
) -> bool {
    &&& result.len() == bottom.len()
    &&& forall|i: int, j: int|
        0 <= i < bw && 0 <= j < bh ==> {
            let inside = x <= i < x + tw && y <= j < y + th;
            let t = pixel_at(top, tw, i - x, j - y);
            &&& !inside ==> #[trigger] pixel_at(result, bw, i, j) == pixel_at(bottom, bw, i, j)
            &&& inside && t[3] == 255 ==> pixel_at(result, bw, i, j) == t
            &&& inside && t[3] == 0 ==> pixel_at(result, bw, i, j) == pixel_at(bottom, bw, i, j)
        }
}

/// The canvas after `image::imageops::overlay` places an image on it.
pub uninterp spec fn overlaid(
    bw: u32,
    bh: u32,
    bottom: Seq<u8>,
    tw: u32,
    th: u32,
    top: Seq<u8>,
    x: i64,
    y: i64,
) -> Seq<u8>;

/// The pixels of `DynamicImage::resize_exact` with the triangle filter.
pub uninterp spec fn resized_exact(
    width: u32,
    height: u32,
    pixels: Seq<u8>,
    nwidth: u32,
    nheight: u32,
) -> Seq<u8>;

/// The size and pixels of `DynamicImage::resize` with the triangle filter,
/// which keeps the aspect ratio within the given bounds.
pub uninterp spec fn resized_to_fit(
    width: u32,
    height: u32,
    pixels: Seq<u8>,
    nwidth: u32,
    nheight: u32,
) -> (u32, u32, Seq<u8>);

/// The size and pixels of `DynamicImage::resize_to_fill` with the triangle
/// filter, which scales to cover the bounds and crops the overflow.
pub uninterp spec fn resized_to_fill(
    width: u32,
    height: u32,
    pixels: Seq<u8>,
    nwidth: u32,
    nheight: u32,
) -> (u32, u32, Seq<u8>);

/// Calls `image::imageops::overlay` on the two images as `RgbaImage`s. The
/// result is named; the contract states what the source shows: only the
/// pixels under the placed image change, an opaque pixel is copied, a fully
/// transparent one changes nothing. The blend of other pixels is not stated.
#[verifier::external_body]
fn overlay_image(canvas: &mut Rgba8Image, top: &Rgba8Image, x: i64, y: i64)
    requires
        old(canvas).wf(),
        top.wf(),
    ensures
        final(canvas).width == old(canvas).width,
        final(canvas).height == old(canvas).height,
        final(canvas).wf(),
        final(canvas).pixels@ == overlaid(
            old(canvas).width,
            old(canvas).height,
            old(canvas).pixels@,
            top.width,
            top.height,
            top.pixels@,
            x,
            y,
        ),
        overlay_holds(
            old(canvas).width as int,
            old(canvas).height as int,
            old(canvas).pixels@,
            top.width as int,
            top.pixels@,
            top.height as int,
            x as int,
            y as int,
            final(canvas).pixels@,
        ),
{
    let raw = std::mem::take(&mut canvas.pixels);
    let mut bottom = image::RgbaImage::from_raw(canvas.width, canvas.height, raw).unwrap();
    let top = image::RgbaImage::from_raw(top.width, top.height, top.pixels.clone()).unwrap();
    image::imageops::overlay(&mut bottom, &top, x, y);
    canvas.pixels = bottom.into_raw();
}

/// Calls `DynamicImage::resize_exact` with the triangle filter. The pixels
/// are named; the size is the one asked for, and the pixels are kept when
/// the size does not change, as the source shows.
#[verifier::external_body]
fn resize_exact_image(img: &Rgba8Image, nwidth: u32, nheight: u32) -> (r: Rgba8Image)
    requires
        img.wf(),
        nwidth as int * nheight as int * 4 <= usize::MAX,
    ensures
        r.wf(),
        r.width == nwidth,
        r.height == nheight,
        r.pixels@ == resized_exact(img.width, img.height, img.pixels@, nwidth, nheight),
        nwidth == img.width && nheight == img.height ==> r.pixels@ == img.pixels@,
{
    let buf = image::RgbaImage::from_raw(img.width, img.height, img.pixels.clone()).unwrap();
    let out = image::DynamicImage::ImageRgba8(buf).resize_exact(
        nwidth,
        nheight,
        image::imageops::FilterType::Triangle,
    ).to_rgba8();
    Rgba8Image { width: out.width(), height: out.height(), pixels: out.into_raw() }
}

/// Calls `DynamicImage::resize` with the triangle filter. Size and pixels
/// are named; the image is kept as it is when it already has the size asked
/// for, as the source shows.
#[verifier::external_body]
fn resize_fit_image(img: &Rgba8Image, nwidth: u32, nheight: u32) -> (r: Rgba8Image)
    requires
        img.wf(),
        (nwidth as int + 1) * (nheight as int + 1) * 4 <= usize::MAX,
    ensures
        r.wf(),
        (r.width, r.height, r.pixels@) == resized_to_fit(
            img.width,
            img.height,
            img.pixels@,
            nwidth,
            nheight,
        ),
        nwidth == img.width && nheight == img.height ==> r.width == img.width && r.height
            == img.height && r.pixels@ == img.pixels@,
{
    let buf = image::RgbaImage::from_raw(img.width, img.height, img.pixels.clone()).unwrap();
    let out = image::DynamicImage::ImageRgba8(buf).resize(
        nwidth,
        nheight,
        image::imageops::FilterType::Triangle,
    ).to_rgba8();
    Rgba8Image { width: out.width(), height: out.height(), pixels: out.into_raw() }
}

/// Calls `DynamicImage::resize_to_fill` with the triangle filter. Size and
/// pixels are named.
#[verifier::external_body]
fn resize_fill_image(img: &Rgba8Image, nwidth: u32, nheight: u32) -> (r: Rgba8Image)
    requires
        img.wf(),
        img.width > 0,
        img.height > 0,
        (nwidth as int + 1) * (nheight as int + 1) * 4 <= usize::MAX,
    ensures
        r.wf(),
        (r.width, r.height, r.pixels@) == resized_to_fill(
            img.width,
            img.height,
            img.pixels@,
            nwidth,
            nheight,
        ),
{
    let buf = image::RgbaImage::from_raw(img.width, img.height, img.pixels.clone()).unwrap();
    let out = image::DynamicImage::ImageRgba8(buf).resize_to_fill(
        nwidth,
        nheight,
        image::imageops::FilterType::Triangle,
    ).to_rgba8();
    Rgba8Image { width: out.width(), height: out.height(), pixels: out.into_raw() }
}

proof fn lemma_solid_step(rgba: Seq<u8>, k: int)
    requires
        rgba.len() == 4,
        k >= 0,
    ensures
        solid_pixels(rgba, k + 1) == solid_pixels(rgba, k) + rgba,
{
    let a = solid_pixels(rgba, k + 1);
    let b = solid_pixels(rgba, k) + rgba;
    assert forall|m: int| 0 <= m < a.len() implies a[m] == b[m] by {
        if m >= 4 * k {
            assert(m % 4 == m - 4 * k);
        }
    }
    assert(a =~= b);
}

fn solid_buffer(rgba: [u8; 4], width: u32, height: u32) -> (r: Vec<u8>)
    requires
        width as int * height as int * 4 <= usize::MAX,
    ensures
        r@ == solid_pixels(rgba@, width as int * height as int),
{
    let n = width as usize * height as usize;
    let mut out: Vec<u8> = Vec::new();
    let mut k: usize = 0;
    proof {
        assert(solid_pixels(rgba@, 0) =~= Seq::<u8>::empty());
    }
    while k < n
        invariant
            n == width as int * height as int,
            k <= n,
            out@ == solid_pixels(rgba@, k as int),
        decreases n - k,
    {
        out.push(rgba[0]);
        out.push(rgba[1]);
        out.push(rgba[2]);
        out.push(rgba[3]);
        proof {
            lemma_solid_step(rgba@, k as int);
            assert(out@ =~= solid_pixels(rgba@, k as int) + rgba@);
        }
        k = k + 1;
    }
    out
}

/// The dark grey that shows where the wallpaper does not cover the screen.
pub open spec fn background_rgba() -> Seq<u8> {
    seq![20u8, 20u8, 20u8, 255u8]
}

pub open spec fn background(width: u32, height: u32) -> Seq<u8> {
    solid_pixels(background_rgba(), width as int * height as int)
}

/// The canvas after tiling one row of copies of the image, from `tx` on.
pub open spec fn tile_row(
    canvas: Seq<u8>,
    width: u32,
    height: u32,
    img: (u32, u32, Seq<u8>),
    tx: int,
    ty: int,
) -> Seq<u8>
    decreases width + img.0 - tx,
{
    if img.0 == 0 || tx >= width {
        canvas
    } else {
        tile_row(
            overlaid(width, height, canvas, img.0, img.1, img.2, tx as i64, ty as i64),
            width,
            height,
            img,
            tx + img.0,
            ty,
        )
    }
}

/// The canvas after tiling rows of copies of the image, from `ty` on.
pub open spec fn tile_rows(
    canvas: Seq<u8>,
    width: u32,
    height: u32,
    img: (u32, u32, Seq<u8>),
    ty: int,
) -> Seq<u8>
    decreases height + img.1 - ty,
{
    if img.1 == 0 || ty >= height {
        canvas
    } else {
        tile_rows(tile_row(canvas, width, height, img, 0, ty), width, height, img, ty + img.1)
    }
}

/// The preview of an image under a style, on a `width` by `height` canvas of
/// the background colour: stretched to the canvas (Stretch, Span), centred at
/// its size (Center), scaled to fit and centred (Fit), scaled to cover and
/// cropped (Fill), or repeated from the top-left corner (Tile).
pub open spec fn render_spec(
    img: (u32, u32, Seq<u8>),
    style: WallpaperStyle,
    width: u32,
    height: u32,
) -> Seq<u8> {
    let bg = background(width, height);
    match style {
        WallpaperStyle::Stretch | WallpaperStyle::Span => overlaid(
            width,
            height,
            bg,
            width,
            height,
            resized_exact(img.0, img.1, img.2, width, height),
            0,
            0,
        ),
        WallpaperStyle::Center => overlaid(
            width,
            height,
            bg,
            img.0,
            img.1,
            img.2,
            rust_div(width - img.0, 2) as i64,
            rust_div(height - img.1, 2) as i64,
        ),
        WallpaperStyle::Fit => {
            let fit = resized_to_fit(img.0, img.1, img.2, width, height);
            overlaid(
                width,
                height,
                bg,
                fit.0,
                fit.1,
                fit.2,
                rust_div(width - fit.0, 2) as i64,
                rust_div(height - fit.1, 2) as i64,
            )
        },
        WallpaperStyle::Fill => {
            let fill = resized_to_fill(img.0, img.1, img.2, width, height);
            overlaid(width, height, bg, fill.0, fill.1, fill.2, 0, 0)
        },
        WallpaperStyle::Tile => if img.0 > 0 && img.1 > 0 {
            tile_rows(bg, width, height, img, 0)
        } else {
            bg
        },
    }
}

/// Every pixel of the image is fully opaque.
pub open spec fn is_opaque(img: &Rgba8Image) -> bool {
    forall|i: int, j: int|
        0 <= i < img.width && 0 <= j < img.height ==> (#[trigger] pixel_at(
            img.pixels@,
            img.width as int,
            i,
            j,
        ))[3] == 255
}

proof fn lemma_mod_offset(m: int, w: int, d: int)
    requires
        w > 0,
        m >= 0,
        0 <= d < w,
    ensures
        (m * w + d) % w == d,
{
    assert((m * w + d) % w == d) by (nonlinear_arith)
        requires
            w > 0,
            m >= 0,
            0 <= d < w,
    ;
}

pub open spec fn image_view(img: &Rgba8Image) -> (u32, u32, Seq<u8>) {
    (img.width, img.height, img.pixels@)
}

/// Renders the preview of `img` under `style` on a `width` by `height`
/// canvas, as RGBA bytes.
pub fn render_preview(img: &Rgba8Image, style: WallpaperStyle, width: u32, height: u32) -> (r:
    Vec<u8>)
    requires
        img.wf(),
        (width as int + 1) * (height as int + 1) * 4 <= usize::MAX,
        style == WallpaperStyle::Fill ==> img.width > 0 && img.height > 0,
    ensures
        r@ == render_spec(image_view(img), style, width, height),
        r@.len() == width as int * height as int * 4,
        style == WallpaperStyle::Stretch || style == WallpaperStyle::Span ==> overlay_holds(
            width as int,
            height as int,
            background(width, height),
            width as int,
            resized_exact(img.width, img.height, img.pixels@, width, height),
            height as int,
            0,
            0,
            r@,
        ),
        style == WallpaperStyle::Center ==> overlay_holds(
            width as int,
            height as int,
            background(width, height),
            img.width as int,
            img.pixels@,
            img.height as int,
            rust_div(width - img.width, 2),
            rust_div(height - img.height, 2),
            r@,
        ),
        style == WallpaperStyle::Fit ==> ({
            let fit = resized_to_fit(img.width, img.height, img.pixels@, width, height);
            overlay_holds(
                width as int,
                height as int,
                background(width, height),
                fit.0 as int,
                fit.2,
                fit.1 as int,
                rust_div(width - fit.0, 2),
                rust_div(height - fit.1, 2),
                r@,
            )
        }),
        style == WallpaperStyle::Fill ==> ({
            let fill = resized_to_fill(img.width, img.height, img.pixels@, width, height);
            overlay_holds(
                width as int,
                height as int,
                background(width, height),
                fill.0 as int,
                fill.2,
                fill.1 as int,
                0,
                0,
                r@,
            )
        }),
        style == WallpaperStyle::Tile && img.width > 0 && img.height > 0 && is_opaque(img)
            ==> forall|i: int, j: int|
            0 <= i < width && 0 <= j < height ==> #[trigger] pixel_at(r@, width as int, i, j)
                == pixel_at(img.pixels@, img.width as int, i % (img.width as int), j % (
            img.height as int)),
{
    assert(width as int * height as int <= (width as int + 1) * (height as int + 1))
        by (nonlinear_arith);
    let mut canvas = Rgba8Image {
        width,
        height,
        pixels: solid_buffer([20u8, 20u8, 20u8, 255u8], width, height),
    };
    proof {
        assert([20u8, 20u8, 20u8, 255u8]@ =~= background_rgba());
    }
    match style {
        WallpaperStyle::Stretch | WallpaperStyle::Span => {
            let resized = resize_exact_image(img, width, height);
            overlay_image(&mut canvas, &resized, 0, 0);
        },
        WallpaperStyle::Center => {
            let x = (width as i64 - img.width as i64) / 2;
            let y = (height as i64 - img.height as i64) / 2;
            overlay_image(&mut canvas, img, x, y);
        },
        WallpaperStyle::Fit => {
            let resized = resize_fit_image(img, width, height);
            let x = (width as i64 - resized.width as i64) / 2;
            let y = (height as i64 - resized.height as i64) / 2;
            overlay_image(&mut canvas, &resized, x, y);
        },
        WallpaperStyle::Fill => {
            let resized = resize_fill_image(img, width, height);
            overlay_image(&mut canvas, &resized, 0, 0);
        },
        WallpaperStyle::Tile => {
            if img.width > 0 && img.height > 0 {
                let iw = img.width as i64;
                let ih = img.height as i64;
                let ghost iv = image_view(img);
                let ghost opaque = is_opaque(img);
                let mut ty: i64 = 0;
                let ghost mut row: int = 0;
                while ty < height as i64
                    invariant
                        img.wf(),
                        iv == image_view(img),
                        iw == img.width,
                        ih == img.height,
                        iw > 0,
                        ih > 0,
                        0 <= ty <= height as int + ih,
                        canvas.wf(),
                        canvas.width == width,
                        canvas.height == height,
                        tile_rows(canvas.pixels@, width, height, iv, ty as int) == tile_rows(
                            background(width, height),
                            width,
                            height,
                            iv,
                            0,
                        ),
                        opaque == is_opaque(img),
                        row >= 0,
                        ty == row * ih,
                        opaque ==> forall|i: int, j: int|
                            0 <= i < width && 0 <= j < height && j < ty ==> #[trigger] pixel_at(
                                canvas.pixels@,
                                width as int,
                                i,
                                j,
                            ) == pixel_at(img.pixels@, iw as int, i % (iw as int), j % (ih as int)),
                    decreases height as int + ih - ty,
                {
                    let ghost row_start = canvas.pixels@;
                    let mut tx: i64 = 0;
                    let ghost mut col: int = 0;
                    while tx < width as i64
                        invariant
                            img.wf(),
                            iv == image_view(img),
                            iw == img.width,
                            ih == img.height,
                            iw > 0,
                            ih > 0,
                            0 <= ty < height,
                            0 <= tx <= width as int + iw,
                            canvas.wf(),
                            canvas.width == width,
                            canvas.height == height,
                            tile_row(canvas.pixels@, width, height, iv, tx as int, ty as int)
                                == tile_row(row_start, width, height, iv, 0, ty as int),
                            opaque == is_opaque(img),
                            row >= 0,
                            ty == row * ih,
                            col >= 0,
                            tx == col * iw,
                            opaque ==> forall|i: int, j: int|
                                0 <= i < width && 0 <= j < height && (j < ty || (j < ty + ih
                                    && i < tx)) ==> #[trigger] pixel_at(
                                    canvas.pixels@,
                                    width as int,
                                    i,
                                    j,
                                ) == pixel_at(img.pixels@, iw as int, i % (iw as int), j % (ih as int)),
                        decreases width as int + iw - tx,
                    {
                        let ghost before = canvas.pixels@;
                        overlay_image(&mut canvas, img, tx, ty);
                        proof {
                            if opaque {
                                assert forall|i: int, j: int|
                                    0 <= i < width && 0 <= j < height && (j < ty || (j < ty + ih
                                        && i < tx + iw)) implies #[trigger] pixel_at(
                                    canvas.pixels@,
                                    width as int,
                                    i,
                                    j,
                                ) == pixel_at(img.pixels@, iw as int, i % (iw as int), j % (ih as int)) by {
                                    let inside = tx <= i < tx + iw && ty <= j < ty + ih;
                                    if inside {
                                        lemma_mod_offset(col, iw as int, i - tx);
                                        lemma_mod_offset(row, ih as int, j - ty);
                                        assert(pixel_at(img.pixels@, iw as int, i - tx, j - ty)[3]
                                            == 255);
                                    } else {
                                        assert(pixel_at(canvas.pixels@, width as int, i, j)
                                            == pixel_at(before, width as int, i, j));
                                    }
                                }
                            }
                            assert((col + 1) * iw == col * iw + iw) by (nonlinear_arith);
                            col = col + 1;
                        }
                        tx = tx + iw;
                    }
                    proof {
                        assert((row + 1) * ih == row * ih + ih) by (nonlinear_arith);
                        row = row + 1;
                    }
                    ty = ty + ih;
                }
            }
        },
    }
    canvas.pixels
}

/// Every pixel of the background is the background colour.
pub proof fn lemma_background_pixel(width: u32, height: u32, i: int, j: int)
    requires
        0 <= i < width,
        0 <= j < height,
    ensures
        pixel_at(background(width, height), width as int, i, j) == background_rgba(),
{
    let k = j * width + i;
    assert(0 <= k < width as int * height as int) by (nonlinear_arith)
        requires
            0 <= i < width,
            0 <= j < height,
            k == j * width + i,
    ;
    let bg = background(width, height);
    let p = pixel_at(bg, width as int, i, j);
    assert forall|c: int| 0 <= c < 4 implies p[c] == background_rgba()[c] by {
        assert((4 * k + c) % 4 == c);
    }
    assert(p =~= background_rgba());
}

/// A centred preview shows the background wherever the image does not
/// reach, and the image's opaque pixels at their centred place.
pub proof fn lemma_center_preview(
    img: (u32, u32, Seq<u8>),
    width: u32,
    height: u32,
    result: Seq<u8>,
    i: int,
    j: int,
)
    requires
        overlay_holds(
            width as int,
            height as int,
            background(width, height),
            img.0 as int,
            img.2,
            img.1 as int,
            rust_div(width - img.0, 2),
            rust_div(height - img.1, 2),
            result,
        ),
        0 <= i < width,
        0 <= j < height,
    ensures
        ({
            let x = rust_div(width - img.0, 2);
            let y = rust_div(height - img.1, 2);
            let inside = x <= i < x + img.0 && y <= j < y + img.1;
            let t = pixel_at(img.2, img.0 as int, i - x, j - y);
            &&& !inside ==> pixel_at(result, width as int, i, j) == background_rgba()
            &&& inside && t[3] == 255 ==> pixel_at(result, width as int, i, j) == t
        }),
{
    lemma_background_pixel(width, height, i, j);
    assert(pixel_at(result, width as int, i, j) == pixel_at(result, width as int, i, j));
}

/// The RGBA byte that lands at index `k` of the BGRA buffer: red and blue
/// trade places within each pixel.
pub open spec fn bgra_source(k: int) -> int {
    let c = k % 4;
    if c == 0 {
        k + 2
    } else if c == 2 {
        k - 2
    } else {
        k
    }
}

/// RGBA bytes reordered to BGRA, four at a time; a trailing partial pixel
/// is dropped.
pub open spec fn bgra_of(rgba: Seq<u8>) -> Seq<u8> {
    Seq::new((4 * (rgba.len() / 4)) as nat, |k: int| rgba[bgra_source(k)])
}

/// Reorders RGBA pixels to the BGRA order of a 32-bit `BI_RGB` DIB.
pub fn rgba_to_bgra(rgba: &Vec<u8>) -> (r: Vec<u8>)
    ensures
        r@ == bgra_of(rgba@),
{
    let n = rgba.len() / 4;
    let mut out: Vec<u8> = Vec::new();
    let mut k: usize = 0;
    while k < n
        invariant
            n == rgba@.len() / 4,
            4 * n <= rgba@.len() <= usize::MAX,
            k <= n,
            out@.len() == 4 * k,
            forall|m: int| 0 <= m < 4 * k ==> #[trigger] out@[m] == rgba@[bgra_source(m)],
        decreases n - k,
    {
        let b = 4 * k;
        let ghost before = out@;
        out.push(rgba[b + 2]);
        out.push(rgba[b + 1]);
        out.push(rgba[b]);
        out.push(rgba[b + 3]);
        proof {
            let kk = b as int;
            assert(kk % 4 == 0 && (kk + 1) % 4 == 1 && (kk + 2) % 4 == 2 && (kk + 3) % 4 == 3);
            assert forall|m: int| 0 <= m < 4 * (k + 1) implies #[trigger] out@[m]
                == rgba@[bgra_source(m)] by {
                if m < kk {
                    assert(out@[m] == before[m]);
                }
            }
        }
        k = k + 1;
    }
    assert(out@ =~= bgra_of(rgba@));
    out
}

/// A preview ready for `StretchDIBits`.
pub struct PreviewBitmap {
    pub width: i32,
    pub height: i32,
    pub bgra: Vec<u8>,
}

/// The preview bitmap of a decoded, downscaled image under a style.
pub fn build_preview_bitmap(work: &Rgba8Image, style: WallpaperStyle) -> (r: PreviewBitmap)
    requires
        work.wf(),
        style == WallpaperStyle::Fill ==> work.width > 0 && work.height > 0,
    ensures
        r.width == PREVIEW_W,
        r.height == PREVIEW_H,
        r.bgra@ == bgra_of(render_spec(image_view(work), style, PREVIEW_W, PREVIEW_H)),
        r.bgra@.len() == PREVIEW_W * PREVIEW_H * 4,
{
    let rgba = render_preview(work, style, PREVIEW_W, PREVIEW_H);
    let bgra = rgba_to_bgra(&rgba);
    PreviewBitmap { width: PREVIEW_W as i32, height: PREVIEW_H as i32, bgra }
}

/// The image a preview works from: kept when it fits the bounds, otherwise
/// scaled down to fit them, keeping its aspect ratio.
pub fn downscale_for_preview(img: Rgba8Image, max_w: u32, max_h: u32) -> (r: Rgba8Image)
    requires
        img.wf(),
        (max_w as int + 1) * (max_h as int + 1) * 4 <= usize::MAX,
    ensures
        r.wf(),
        img.width <= max_w && img.height <= max_h ==> r == img,
        !(img.width <= max_w && img.height <= max_h) ==> (r.width, r.height, r.pixels@)
            == resized_to_fit(img.width, img.height, img.pixels@, max_w, max_h),
{
    if img.width <= max_w && img.height <= max_h {
        img
    } else {
        resize_fit_image(&img, max_w, max_h)
    }
}

/// The preview's decode bounds: the largest width and height, and the
/// largest allocation, the decoder may use.
pub fn preview_decode_bounds() -> (r: (u32, u32, u64))
    ensures
        r == (PREVIEW_MAX_DECODE_DIMENSION, PREVIEW_MAX_DECODE_DIMENSION, PREVIEW_MAX_DECODE_ALLOC),
{
    (PREVIEW_MAX_DECODE_DIMENSION, PREVIEW_MAX_DECODE_DIMENSION, PREVIEW_MAX_DECODE_ALLOC)
}

} // verus!
