//! Decoded images as plain pixels: the screenshot whose bottom-left quadrant decides the
//! adaptive theme, and the frames of the loader's GIF.
//!
//! Decoding is the `image` crate's; which pixels are sampled is this module's own.
use vstd::prelude::*;

verus! {

/// An image as 8-bit RGBA pixels, row by row from the top, four bytes per pixel.
pub struct RgbaImage {
    pub width: u32,
    pub height: u32,
    pub pixels: Vec<u8>,
}

/// An image as plain values: width, height and pixel bytes.
pub open spec fn image_view(img: RgbaImage) -> (u32, u32, Seq<u8>) {
    (img.width, img.height, img.pixels@)
}

/// The view of an optional image.
pub open spec fn rgba_view(r: Option<RgbaImage>) -> Option<(u32, u32, Seq<u8>)> {
    match r {
        Some(img) => Some(image_view(img)),
        None => None,
    }
}

/// The views of a list of images.
pub open spec fn images_view(v: Seq<RgbaImage>) -> Seq<(u32, u32, Seq<u8>)> {
    v.map_values(|img: RgbaImage| image_view(img))
}

/// What `image::load_from_memory` decodes from `bytes` (guessing the format), converted
/// with `DynamicImage::to_rgba8`; `None` where it reports an error.
pub uninterp spec fn rgba_of(bytes: Seq<u8>) -> Option<(u32, u32, Seq<u8>)>;

/// `image::load_from_memory`, then `to_rgba8` and `into_raw`: the decoded image, a
/// result of the bytes alone, or `None` where decoding fails.
#[verifier::external_body]
fn load_rgba(bytes: &[u8]) -> (r: Option<RgbaImage>)
    ensures
        rgba_view(r) == rgba_of(bytes@),
{
    match image::load_from_memory(bytes) {
        Ok(img) => {
            let b = img.to_rgba8();
            Some(RgbaImage { width: b.width(), height: b.height(), pixels: b.into_raw() })
        },
        Err(_) => None,
    }
}

/// What `image::load_from_memory_with_format` decodes from `bytes` in the format that
/// `ImageFormat::from_extension` names for the file extension `ext`, converted with
/// `to_rgba8`; `None` where no format has that extension or decoding fails (as
/// `image::open` decodes a file by its extension).
pub uninterp spec fn rgba_by_extension_of(bytes: Seq<u8>, ext: Seq<char>) -> Option<(u32, u32, Seq<u8>)>;

/// `image::load_from_memory_with_format` in the format of the extension `ext`, then
/// `to_rgba8` and `into_raw`: the decoded image, a result of the bytes and the extension
/// alone, or `None` where no format has that extension or decoding fails.
#[verifier::external_body]
fn load_rgba_by_extension(bytes: &[u8], ext: &str) -> (r: Option<RgbaImage>)
    ensures
        rgba_view(r) == rgba_by_extension_of(bytes@, ext@),
{
    let format = image::ImageFormat::from_extension(ext)?;
    match image::load_from_memory_with_format(bytes, format) {
        Ok(img) => {
            let b = img.to_rgba8();
            Some(RgbaImage { width: b.width(), height: b.height(), pixels: b.into_raw() })
        },
        Err(_) => None,
    }
}

/// The frames that `image::codecs::gif::GifDecoder` reads from the GIF `bytes`
/// (`GifDecoder::new`, then `into_frames().collect_frames()`), each as RGBA pixels;
/// `None` where either step reports an error.
pub uninterp spec fn gif_frames_of(bytes: Seq<u8>) -> Option<Seq<(u32, u32, Seq<u8>)>>;

/// `GifDecoder::new` over the bytes, then `collect_frames` of its frames, each frame's
/// buffer taken as it is: the frames, a result of the bytes alone, or `None` where
/// decoding fails.
#[verifier::external_body]
fn load_gif_frames(bytes: &[u8]) -> (r: Option<Vec<RgbaImage>>)
    ensures
        match r {
            Some(v) => gif_frames_of(bytes@) == Some(images_view(v@)),
            None => gif_frames_of(bytes@) is None,
        },
{
    let decoder = image::codecs::gif::GifDecoder::new(std::io::Cursor::new(bytes)).ok()?;
    let frames = image::AnimationDecoder::into_frames(decoder).collect_frames().ok()?;
    let mut v = Vec::new();
    for f in frames {
        let b = f.into_buffer();
        v.push(RgbaImage { width: b.width(), height: b.height(), pixels: b.into_raw() });
    }
    Some(v)
}

/// The frames of the loader GIF `bytes`, in order; none when it cannot be decoded.
pub fn gif_frames(bytes: &[u8]) -> (r: Vec<RgbaImage>)
    ensures
        match gif_frames_of(bytes@) {
            Some(fs) => images_view(r@) == fs,
            None => r@.len() == 0,
        },
{
    match load_gif_frames(bytes) {
        Some(v) => v,
        None => Vec::new(),
    }
}

// ---------------------------------------------------------------------------
// The bottom-left quadrant
// ---------------------------------------------------------------------------

/// Every fourth pixel is sampled, in both directions.
pub const SAMPLE_STRIDE: u32 = 4;

/// The red, green and blue bytes of the pixel at column `x`, row `y` of an image
/// `w` pixels wide, when the pixel bytes reach that far.
pub open spec fn sample_at(w: nat, p: Seq<u8>, x: nat, y: nat) -> Option<(u8, u8, u8)> {
    let idx = (y * w + x) * 4;
    if idx + 2 < p.len() {
        Some((p[idx as int], p[idx as int + 1], p[idx as int + 2]))
    } else {
        None
    }
}

/// How many of `a, a + 4, a + 8, ...` are below `b`.
pub open spec fn strides(a: nat, b: nat) -> nat {
    if b > a {
        ((b - a + 3) / 4) as nat
    } else {
        0
    }
}

/// The samples of row `y` at columns `0, 4, ...`, the first `n` of them, skipping those
/// past the pixel bytes.
pub open spec fn row_samples(w: nat, p: Seq<u8>, y: nat, n: nat) -> Seq<(u8, u8, u8)>
    decreases n,
{
    if n == 0 {
        Seq::empty()
    } else {
        let prev = row_samples(w, p, y, (n - 1) as nat);
        match sample_at(w, p, ((n - 1) * 4) as nat, y) {
            Some(s) => prev.push(s),
            None => prev,
        }
    }
}

/// The samples of the rows `y0, y0 + 4, ...`, the first `m` of them, each over `cols`
/// columns.
pub open spec fn grid_samples(w: nat, p: Seq<u8>, y0: nat, cols: nat, m: nat) -> Seq<(u8, u8, u8)>
    decreases m,
{
    if m == 0 {
        Seq::empty()
    } else {
        grid_samples(w, p, y0, cols, (m - 1) as nat) + row_samples(
            w,
            p,
            (y0 + (m - 1) * 4) as nat,
            cols,
        )
    }
}

/// The samples of the bottom-left quadrant of a `w` by `h` image with pixel bytes `p`:
/// rows from `h / 2` down, columns left of `w / 2`, every fourth of each, row by row.
pub open spec fn bottom_left_samples_of(w: nat, h: nat, p: Seq<u8>) -> Seq<(u8, u8, u8)> {
    grid_samples(w, p, h / 2, strides(0, w / 2), strides(h / 2, h))
}

/// The samples of one row (see `row_samples`).
fn sample_row(img: &RgbaImage, y: u128, cols_end: u128, r: &mut Vec<(u8, u8, u8)>)
    requires
        y < img.height,
        cols_end == img.width / 2,
    ensures
        final(r)@ == old(r)@ + row_samples(
            img.width as nat,
            img.pixels@,
            y as nat,
            strides(0, cols_end as nat),
        ),
{
    let w: u128 = img.width as u128;
    let len: u128 = img.pixels.len() as u128;
    let ghost r0 = r@;
    let mut x: u128 = 0;
    let mut n: u128 = 0;
    assert(y * w <= 0xffff_ffffu128 * 0xffff_ffffu128) by (nonlinear_arith)
        requires
            y < 0x1_0000_0000u128,
            w < 0x1_0000_0000u128,
    ;
    while x < cols_end
        invariant
            x == 4 * n,
            x <= cols_end + 3,
            cols_end == img.width / 2,
            w == img.width,
            len == img.pixels@.len(),
            len <= usize::MAX,
            y < img.height,
            y * w <= 0xffff_ffffu128 * 0xffff_ffffu128,
            r@ == r0 + row_samples(w as nat, img.pixels@, y as nat, n as nat),
        decreases cols_end + 3 - x,
    {
        let idx: u128 = (y * w + x) * 4;
        let ghost before = r@;
        if idx + 2 < len {
            assert(len <= usize::MAX);
            let i = idx as usize;
            assert(i as u128 == idx);
            r.push((img.pixels[i], img.pixels[i + 1], img.pixels[i + 2]));
        }
        assert(r@ == r0 + row_samples(w as nat, img.pixels@, y as nat, (n + 1) as nat)) by {
            assert(((n + 1 - 1) * 4) as nat == x as nat);
            if idx + 2 < len {
                assert(r@ =~= before.push((img.pixels@[idx as int], img.pixels@[idx + 1], img.pixels@[idx + 2])));
                assert(r0 + row_samples(w as nat, img.pixels@, y as nat, (n + 1) as nat) =~= (r0
                    + row_samples(w as nat, img.pixels@, y as nat, n as nat)).push(
                    (img.pixels@[idx as int], img.pixels@[idx + 1], img.pixels@[idx + 2]),
                ));
            }
        }
        x = x + 4;
        n = n + 1;
    }
    assert(n as nat == strides(0, cols_end as nat));
}

/// The samples of the bottom-left quadrant of `img` (see `bottom_left_samples_of`).
pub fn bottom_left_samples(img: &RgbaImage) -> (r: Vec<(u8, u8, u8)>)
    ensures
        r@ == bottom_left_samples_of(img.width as nat, img.height as nat, img.pixels@),
{
    let h: u128 = img.height as u128;
    let cols_end: u128 = img.width as u128 / 2;
    let y0: u128 = h / 2;
    let ghost cols = strides(0, cols_end as nat);
    let mut r: Vec<(u8, u8, u8)> = Vec::new();
    let mut y: u128 = y0;
    let mut m: u128 = 0;
    assert(r@ =~= grid_samples(img.width as nat, img.pixels@, y0 as nat, cols, 0));
    while y < h
        invariant
            y == y0 + 4 * m,
            y <= h + 3,
            h == img.height,
            y0 == h / 2,
            cols_end == img.width / 2,
            cols == strides(0, cols_end as nat),
            r@ == grid_samples(img.width as nat, img.pixels@, y0 as nat, cols, m as nat),
        decreases h + 3 - y,
    {
        let ghost before = r@;
        sample_row(img, y, cols_end, &mut r);
        assert((y0 + ((m + 1 - 1) * 4)) as nat == y as nat);
        y = y + 4;
        m = m + 1;
    }
    assert(m as nat == strides(y0 as nat, h as nat));
    r
}

/// The samples of the bottom-left quadrant of the screenshot `bytes` (see
/// `bottom_left_samples_of`), or `None` when the bytes are no image.
pub fn screenshot_samples(bytes: &[u8]) -> (r: Option<Vec<(u8, u8, u8)>>)
    ensures
        match rgba_of(bytes@) {
            Some((w, h, p)) => r matches Some(v) && v@ == bottom_left_samples_of(w as nat, h as nat, p),
            None => r is None,
        },
{
    match load_rgba(bytes) {
        Some(img) => Some(bottom_left_samples(&img)),
        None => None,
    }
}

/// The samples of the bottom-left quadrant of the screenshot file contents `bytes`,
/// decoded by the file's extension `ext` (see `bottom_left_samples_of`), or `None` when
/// they are no image of that format.
pub fn screenshot_file_samples(bytes: &[u8], ext: &str) -> (r: Option<Vec<(u8, u8, u8)>>)
    ensures
        match rgba_by_extension_of(bytes@, ext@) {
            Some((w, h, p)) => r matches Some(v) && v@ == bottom_left_samples_of(w as nat, h as nat, p),
            None => r is None,
        },
{
    match load_rgba_by_extension(bytes, ext) {
        Some(img) => Some(bottom_left_samples(&img)),
        None => None,
    }
}

} // verus!
