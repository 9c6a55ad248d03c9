//! Preview frames: the conversion of a decoded frame to packed RGBA, and
//! the plan of where in a video the previews are taken.
//!
//! A decoded frame is a plane of luma samples, one per pixel, row by row,
//! followed by a plane of chroma samples at half the resolution in both
//! directions, a U and a V sample side by side for each block of two by two
//! pixels.

use vstd::prelude::*;
use crate::error::{Error, GStreamerError};

verus! {

/// One colour channel from the numerator of its formula in thousandths:
/// the value is cut off towards zero and limited to what a byte holds.
pub open spec fn channel(thousandths: int) -> u8 {
    if thousandths <= 0 {
        0u8
    } else if thousandths / 1000 >= 255 {
        255u8
    } else {
        (thousandths / 1000) as u8
    }
}

/// Red from studio-range luma and chroma: `1.164 (Y - 16) + 1.596 (V - 128)`.
pub open spec fn red(y: u8, u: u8, v: u8) -> u8 {
    channel(1164 * (y - 16) + 1596 * (v - 128))
}

/// Green from studio-range luma and chroma:
/// `1.164 (Y - 16) - 0.813 (V - 128) - 0.391 (U - 128)`.
pub open spec fn green(y: u8, u: u8, v: u8) -> u8 {
    channel(1164 * (y - 16) - 813 * (v - 128) - 391 * (u - 128))
}

/// Blue from studio-range luma and chroma: `1.164 (Y - 16) + 2.018 (U - 128)`.
pub open spec fn blue(y: u8, u: u8, v: u8) -> u8 {
    channel(1164 * (y - 16) + 2018 * (u - 128))
}

/// Where the luma sample of the source pixel `(x, y)` lies in a frame.
pub open spec fn luma_index(width: int, x: int, y: int) -> int {
    y * width + x
}

/// Where the U sample of the source pixel `(x, y)` lies in a frame; its V
/// sample follows it.
pub open spec fn chroma_index(width: int, height: int, x: int, y: int) -> int {
    width * height + width * (y / 2) + x / 2 * 2
}

/// How many bytes of a frame the conversion reads: up to the V sample of
/// the last pixel that it takes. Nothing where no pixel comes out.
pub open spec fn frame_len_needed(width: int, height: int, downscale: int) -> int
    recommends
        downscale > 0,
{
    if width / downscale <= 0 || height / downscale <= 0 {
        0
    } else {
        chroma_index(
            width,
            height,
            (width / downscale - 1) * downscale,
            (height / downscale - 1) * downscale,
        ) + 2
    }
}

/// The byte `i` of the converted image: the channel `i % 4` of the pixel
/// `i / 4`, the pixels counted row by row. The pixel `(x, y)` of the image
/// is taken from the pixel `(x * downscale, y * downscale)` of the frame;
/// its fourth channel is full opacity.
pub open spec fn rgba_byte(yuv: Seq<u8>, width: int, height: int, downscale: int, i: int) -> u8
    recommends
        downscale > 0,
        width / downscale > 0,
{
    let out_width = width / downscale;
    let pixel = i / 4;
    let x = (pixel % out_width) * downscale;
    let y = (pixel / out_width) * downscale;
    let luma = yuv[luma_index(width, x, y)];
    let u = yuv[chroma_index(width, height, x, y)];
    let v = yuv[chroma_index(width, height, x, y) + 1];
    if i % 4 == 0 {
        red(luma, u, v)
    } else if i % 4 == 1 {
        green(luma, u, v)
    } else if i % 4 == 2 {
        blue(luma, u, v)
    } else {
        255u8
    }
}

/// The first `pixels` pixels of the converted image.
pub open spec fn rgba_prefix(
    yuv: Seq<u8>,
    width: int,
    height: int,
    downscale: int,
    pixels: int,
) -> Seq<u8> {
    Seq::new((4 * pixels) as nat, |i: int| rgba_byte(yuv, width, height, downscale, i))
}

/// The converted image: `width / downscale` by `height / downscale` pixels
/// of four bytes each.
pub open spec fn rgba_image(yuv: Seq<u8>, width: int, height: int, downscale: int) -> Seq<u8> {
    rgba_prefix(yuv, width, height, downscale, (width / downscale) * (height / downscale))
}

/// Every sample that the conversion reads lies within the length that it
/// needs.
pub proof fn lemma_sample_in_frame(width: int, height: int, downscale: int, x: int, y: int)
    requires
        downscale > 0,
        width >= 0,
        height >= 0,
        0 <= x < width / downscale,
        0 <= y < height / downscale,
    ensures
        0 <= luma_index(width, x * downscale, y * downscale) < width * height,
        width * height <= chroma_index(width, height, x * downscale, y * downscale),
        chroma_index(width, height, x * downscale, y * downscale) + 2 <= frame_len_needed(
            width,
            height,
            downscale,
        ),
        0 <= x * downscale < width,
        0 <= y * downscale < height,
{
    let ow = width / downscale;
    let oh = height / downscale;
    let xs = x * downscale;
    let ys = y * downscale;
    let xm = (ow - 1) * downscale;
    let ym = (oh - 1) * downscale;
    vstd::arithmetic::div_mod::lemma_fundamental_div_mod(width, downscale);
    vstd::arithmetic::div_mod::lemma_fundamental_div_mod(height, downscale);
    vstd::arithmetic::div_mod::lemma_mod_bound(width, downscale);
    vstd::arithmetic::div_mod::lemma_mod_bound(height, downscale);
    assert(0 <= xs <= xm && xm + downscale == downscale * ow) by (nonlinear_arith)
        requires
            0 <= x <= ow - 1,
            downscale > 0,
            xs == x * downscale,
            xm == (ow - 1) * downscale,
    ;
    assert(0 <= ys <= ym && ym + downscale == downscale * oh) by (nonlinear_arith)
        requires
            0 <= y <= oh - 1,
            downscale > 0,
            ys == y * downscale,
            ym == (oh - 1) * downscale,
    ;
    assert(xs < width && ys < height);
    assert(0 <= ys * width && ys * width + width <= width * height) by (nonlinear_arith)
        requires
            0 <= ys <= height - 1,
            width >= 0,
    ;
    vstd::arithmetic::div_mod::lemma_div_is_ordered(ys, ym, 2);
    vstd::arithmetic::div_mod::lemma_div_is_ordered(xs, xm, 2);
    vstd::arithmetic::div_mod::lemma_div_pos_is_pos(ys, 2);
    vstd::arithmetic::div_mod::lemma_div_pos_is_pos(xs, 2);
    assert(0 <= width * (ys / 2) <= width * (ym / 2)) by (nonlinear_arith)
        requires
            0 <= ys / 2 <= ym / 2,
            width >= 0,
    ;
}

/// The converted image is made of the samples that the conversion reads and
/// of nothing else: two frames that agree on them give the same image,
/// whatever follows them.
pub proof fn lemma_same_samples_same_image(
    first: Seq<u8>,
    second: Seq<u8>,
    width: int,
    height: int,
    downscale: int,
)
    requires
        downscale > 0,
        width >= 0,
        height >= 0,
        frame_len_needed(width, height, downscale) <= first.len(),
        frame_len_needed(width, height, downscale) <= second.len(),
        forall|i: int|
            0 <= i < frame_len_needed(width, height, downscale) ==> first[i] == second[i],
    ensures
        rgba_image(first, width, height, downscale) == rgba_image(second, width, height, downscale),
{
    let out_width = width / downscale;
    let out_height = height / downscale;
    let pixels = out_width * out_height;
    let a = rgba_image(first, width, height, downscale);
    let b = rgba_image(second, width, height, downscale);
    vstd::arithmetic::div_mod::lemma_div_pos_is_pos(width, downscale);
    vstd::arithmetic::div_mod::lemma_div_pos_is_pos(height, downscale);
    assert(a.len() == b.len());
    assert forall|i: int| 0 <= i < a.len() implies a[i] == b[i] by {
        let pixel = i / 4;
        assert(0 <= pixel < pixels);
        assert(out_width > 0 && out_height > 0) by (nonlinear_arith)
            requires
                0 <= pixel < out_width * out_height,
                out_width >= 0,
                out_height >= 0,
        ;
        let x = pixel % out_width;
        let y = pixel / out_width;
        vstd::arithmetic::div_mod::lemma_fundamental_div_mod(pixel, out_width);
        vstd::arithmetic::div_mod::lemma_mod_bound(pixel, out_width);
        vstd::arithmetic::div_mod::lemma_div_pos_is_pos(pixel, out_width);
        assert(y < out_height) by (nonlinear_arith)
            requires
                pixel == out_width * y + x,
                0 <= x < out_width,
                pixel < out_width * out_height,
                y >= 0,
        ;
        lemma_sample_in_frame(width, height, downscale, x, y);
    }
    assert(a =~= b);
}

/// Converts a decoded frame to packed RGBA, taking every `downscale`-th
/// pixel of every `downscale`-th row.
pub fn yuv_to_rgba(yuv: &[u8], width: u32, height: u32, downscale: u32) -> (rgba: Vec<u8>)
    requires
        downscale > 0,
        frame_len_needed(width as int, height as int, downscale as int) <= yuv@.len(),
    ensures
        rgba@ == rgba_image(yuv@, width as int, height as int, downscale as int),
        rgba@.len() == 4 * ((width / downscale) * (height / downscale)),
{
    let out_width: u32 = width / downscale;
    let out_height: u32 = height / downscale;
    let w: usize = width as usize;
    let len: usize = yuv.len();
    let ghost needed = frame_len_needed(width as int, height as int, downscale as int);
    let mut rgba: Vec<u8> = Vec::new();
    let mut y: u32 = 0;
    assert(rgba@ =~= rgba_prefix(yuv@, width as int, height as int, downscale as int, 0));
    while y < out_height
        invariant
            downscale > 0,
            out_width == width / downscale,
            out_height == height / downscale,
            w == width,
            needed == frame_len_needed(width as int, height as int, downscale as int),
            needed <= yuv@.len(),
            len == yuv@.len(),
            y <= out_height,
            rgba@ == rgba_prefix(
                yuv@,
                width as int,
                height as int,
                downscale as int,
                y * out_width,
            ),
        decreases out_height - y,
    {
        let mut x: u32 = 0;
        while x < out_width
            invariant
                downscale > 0,
                out_width == width / downscale,
                out_height == height / downscale,
                w == width,
                needed == frame_len_needed(width as int, height as int, downscale as int),
                needed <= yuv@.len(),
                len == yuv@.len(),
                y < out_height,
                x <= out_width,
                rgba@ == rgba_prefix(
                    yuv@,
                    width as int,
                    height as int,
                    downscale as int,
                    y * out_width + x,
                ),
            decreases out_width - x,
        {
            proof {
                lemma_sample_in_frame(
                    width as int,
                    height as int,
                    downscale as int,
                    x as int,
                    y as int,
                );
            }
            let ghost pixel = y * out_width + x;
            let x_src: usize = (x * downscale) as usize;
            let y_src: usize = (y * downscale) as usize;
            assert(w * (y_src / 2) <= yuv@.len() && y_src * w <= yuv@.len() && w * height
                <= yuv@.len()) by (nonlinear_arith)
                requires
                    0 <= w * height <= w * height + w * (y_src / 2) + x_src / 2 * 2 <= yuv@.len(),
                    0 <= y_src * w + x_src < w * height,
                    w >= 0,
                    y_src >= 0,
                    x_src >= 0,
            ;
            let uv_start: usize = w * height as usize;
            let uv_i: usize = uv_start + w * (y_src / 2) + x_src / 2 * 2;
            let luma: u8 = yuv[y_src * w + x_src];
            let u: u8 = yuv[uv_i];
            let v: u8 = yuv[uv_i + 1];
            let (r, g, b) = convert_pixel(luma, u, v);
            rgba.push(r);
            rgba.push(g);
            rgba.push(b);
            rgba.push(0xFF);
            proof {
                assert(pixel % (out_width as int) == x && pixel / (out_width as int) == y) by {
                    vstd::arithmetic::div_mod::lemma_fundamental_div_mod_converse(
                        pixel,
                        out_width as int,
                        y as int,
                        x as int,
                    );
                }
                assert(rgba@ =~= rgba_prefix(
                    yuv@,
                    width as int,
                    height as int,
                    downscale as int,
                    pixel + 1,
                ));
            }
            x = x + 1;
        }
        proof {
            assert(y * out_width + out_width == (y + 1) * out_width) by (nonlinear_arith);
        }
        y = y + 1;
    }
    proof {
        assert(out_height * out_width == (width / downscale) * (height / downscale))
            by (nonlinear_arith)
            requires
                out_width == width / downscale,
                out_height == height / downscale,
        ;
    }
    rgba
}

/// Converts one pixel from studio-range luma and chroma to red, green and
/// blue.
pub fn convert_pixel(y: u8, u: u8, v: u8) -> (rgb: (u8, u8, u8))
    ensures
        rgb.0 == red(y, u, v),
        rgb.1 == green(y, u, v),
        rgb.2 == blue(y, u, v),
{
    let luma: i32 = 1164 * (y as i32 - 16);
    let cb: i32 = u as i32 - 128;
    let cr: i32 = v as i32 - 128;
    (
        to_channel(luma + 1596 * cr),
        to_channel(luma - 813 * cr - 391 * cb),
        to_channel(luma + 2018 * cb),
    )
}

/// Computes [`channel`].
fn to_channel(thousandths: i32) -> (c: u8)
    ensures
        c == channel(thousandths as int),
{
    if thousandths <= 0 {
        0
    } else if thousandths / 1000 >= 255 {
        255
    } else {
        (thousandths / 1000) as u8
    }
}

/// Computes [`frame_len_needed`].
pub fn frame_len(width: u32, height: u32, downscale: u32) -> (needed: u128)
    requires
        downscale > 0,
    ensures
        needed == frame_len_needed(width as int, height as int, downscale as int),
{
    let out_width: u32 = width / downscale;
    let out_height: u32 = height / downscale;
    if out_width == 0 || out_height == 0 {
        return 0;
    }
    proof {
        lemma_sample_in_frame(
            width as int,
            height as int,
            downscale as int,
            out_width - 1,
            out_height - 1,
        );
    }
    let x: u128 = ((out_width - 1) * downscale) as u128;
    let y: u128 = ((out_height - 1) * downscale) as u128;
    let w: u128 = width as u128;
    assert(w * height <= 0x1_0000_0000 * 0x1_0000_0000 && w * (y / 2) <= 0x1_0000_0000
        * 0x1_0000_0000) by (nonlinear_arith)
        requires
            0 <= w < 0x1_0000_0000,
            0 <= height < 0x1_0000_0000,
            0 <= y / 2 < 0x1_0000_0000,
    ;
    w * height as u128 + w * (y / 2) + x / 2 * 2 + 2
}

/// Converts a decoded frame to packed RGBA like [`yuv_to_rgba`], after
/// checking that it can be done: the downscale factor must not be zero, and
/// the frame must hold every sample that the conversion reads.
pub fn convert_frame(yuv: &[u8], width: u32, height: u32, downscale: u32) -> (result: Result<
    Vec<u8>,
    Error,
>)
    ensures
        downscale == 0 ==> result == Err::<Vec<u8>, Error>(Error::InvalidSize),
        downscale > 0 && frame_len_needed(width as int, height as int, downscale as int)
            > yuv@.len() ==> result == Err::<Vec<u8>, Error>(
            Error::GStreamerError(GStreamerError::FrameUnavailable),
        ),
        downscale > 0 && frame_len_needed(width as int, height as int, downscale as int)
            <= yuv@.len() ==> result.is_ok() && result.unwrap()@ == rgba_image(
            yuv@,
            width as int,
            height as int,
            downscale as int,
        ),
{
    if downscale == 0 {
        return Err(Error::InvalidSize);
    }
    if frame_len(width, height, downscale) > yuv.len() as u128 {
        return Err(Error::GStreamerError(GStreamerError::FrameUnavailable));
    }
    Ok(yuv_to_rgba(yuv, width, height, downscale))
}

/// What a preview generator knows of its source.
pub struct GeneratorModel {
    pub width: int,
    pub height: int,
    pub downscale: int,
    pub duration: int,
}

impl GeneratorModel {
    /// Whether previews can be made of the frames: the frame size is not
    /// negative and the downscale factor is not zero.
    pub open spec fn usable(self) -> bool {
        &&& 0 <= self.width
        &&& 0 <= self.height
        &&& 0 < self.downscale
    }
}

/// The part of a preview generator that computes: the size of the frames
/// of one video, how much they are scaled down, and how long the video is.
/// The decode pipeline that yields the frames is the caller's.
#[derive(Clone, Copy, Debug)]
pub struct ThumbnailGenerator {
    width: i32,
    height: i32,
    downscale: u32,
    /// The duration of the video playback, in nanoseconds.
    duration: u64,
}

impl View for ThumbnailGenerator {
    type V = GeneratorModel;

    closed spec fn view(&self) -> GeneratorModel {
        GeneratorModel {
            width: self.width as int,
            height: self.height as int,
            downscale: self.downscale as int,
            duration: self.duration as int,
        }
    }
}

impl ThumbnailGenerator {
    /// A generator for frames of `width` by `height` pixels, to be scaled
    /// down by `downscale`, of a video that lasts `duration` nanoseconds.
    /// A video whose duration is not known is empty, and has no generator.
    /// Whether previews can be made of the frames is not asked here:
    /// [`ThumbnailGenerator::generate`] says so.
    pub fn new(width: i32, height: i32, downscale: u32, duration: Option<u64>) -> (result: Result<
        ThumbnailGenerator,
        Error,
    >)
        ensures
            duration.is_none() ==> (result matches Err(error) && error
                == Error::ThumbnailEmptyVideo),
            duration matches Some(d) ==> (result matches Ok(generator) && generator@
                == (GeneratorModel {
                width: width as int,
                height: height as int,
                downscale: downscale as int,
                duration: d as int,
            })),
    {
        match duration {
            Some(duration) => Ok(ThumbnailGenerator { width, height, downscale, duration }),
            None => Err(Error::ThumbnailEmptyVideo),
        }
    }

    /// The duration of the video playback, in nanoseconds.
    pub fn duration(&self) -> (duration: u64)
        ensures
            duration == self@.duration,
    {
        self.duration
    }

    /// The size of the frames that the generator takes.
    pub fn frame_size(&self) -> (size: (i32, i32))
        ensures
            size.0 == self@.width,
            size.1 == self@.height,
    {
        (self.width, self.height)
    }

    /// By how much the previews are scaled down.
    pub fn downscale(&self) -> (downscale: u32)
        ensures
            downscale == self@.downscale,
    {
        self.downscale
    }

    /// The size of the previews: the frame size divided by the downscale
    /// factor. A negative frame size and a downscale factor of zero give
    /// no size.
    pub fn image_size(&self) -> (result: Result<(u32, u32), Error>)
        ensures
            !self@.usable() ==> result == Err::<(u32, u32), Error>(Error::InvalidSize),
            self@.usable() ==> (result matches Ok(size) && size.0 == self@.width
                / self@.downscale && size.1 == self@.height / self@.downscale),
    {
        if self.width < 0 || self.height < 0 || self.downscale == 0 {
            return Err(Error::InvalidSize);
        }
        Ok((self.width as u32 / self.downscale, self.height as u32 / self.downscale))
    }

    /// Whether `position`, in nanoseconds, lies within the video.
    pub fn covers(&self, position: u64) -> (inside: bool)
        ensures
            inside == (position <= self@.duration),
    {
        position <= self.duration
    }

    /// The preview for one frame that the pipeline yielded: packed RGBA of
    /// [`ThumbnailGenerator::image_size`]. A negative frame size and a
    /// downscale factor of zero give no preview, and a frame that is too
    /// short for the frame size is no frame.
    pub fn generate(&self, frame: &[u8]) -> (result: Result<Vec<u8>, Error>)
        ensures
            !self@.usable() ==> result == Err::<Vec<u8>, Error>(Error::InvalidSize),
            self@.usable() && frame_len_needed(self@.width, self@.height, self@.downscale)
                > frame@.len() ==> result == Err::<Vec<u8>, Error>(
                Error::GStreamerError(GStreamerError::FrameUnavailable),
            ),
            self@.usable() && frame_len_needed(self@.width, self@.height, self@.downscale)
                <= frame@.len() ==> result.is_ok() && result.unwrap()@ == rgba_image(
                frame@,
                self@.width,
                self@.height,
                self@.downscale,
            ) && result.unwrap()@.len() == 4 * ((self@.width / self@.downscale) * (self@.height
                / self@.downscale)),
    {
        if self.width < 0 || self.height < 0 || self.downscale == 0 {
            return Err(Error::InvalidSize);
        }
        let width = self.width as u32;
        let height = self.height as u32;
        if frame_len(width, height, self.downscale) > frame.len() as u128 {
            return Err(Error::GStreamerError(GStreamerError::FrameUnavailable));
        }
        Ok(yuv_to_rgba(frame, width, height, self.downscale))
    }
}

/// The seconds between two previews of a video.
pub const THUMBNAIL_INTERVAL: u32 = 100;

/// How many previews a video of `duration` nanoseconds gets: one for each
/// whole [`THUMBNAIL_INTERVAL`] of its whole seconds, the seconds limited
/// to what 32 bits hold.
pub open spec fn thumbnail_count(duration: int) -> int {
    let seconds = duration / 1_000_000_000;
    (if seconds > u32::MAX {
        u32::MAX as int
    } else {
        seconds
    }) / (THUMBNAIL_INTERVAL as int)
}

/// Where the preview `index` of `count` is taken in a video of `duration`
/// nanoseconds: the previews divide the video into parts of equal length,
/// and each is taken where its part begins, the first at the start of the
/// video.
pub open spec fn thumbnail_position(duration: int, count: int, index: int) -> int
    recommends
        0 <= index < count,
{
    duration * index / count
}

/// Computes [`thumbnail_count`].
pub fn count_thumbnails(duration: u64) -> (count: u32)
    ensures
        count == thumbnail_count(duration as int),
{
    let seconds: u64 = duration / 1_000_000_000;
    let seconds: u32 = if seconds > u32::MAX as u64 {
        u32::MAX
    } else {
        seconds as u32
    };
    seconds / THUMBNAIL_INTERVAL
}

/// The positions, in nanoseconds, at which the `count` previews of a video
/// of `duration` nanoseconds are taken, in order.
pub fn thumbnail_positions(duration: u64, count: u32) -> (positions: Vec<u64>)
    ensures
        positions@.len() == count,
        forall|i: int|
            0 <= i < count ==> #[trigger] positions@[i] == thumbnail_position(
                duration as int,
                count as int,
                i,
            ),
        forall|i: int| 0 <= i < count ==> #[trigger] positions@[i] <= duration,
{
    let mut positions: Vec<u64> = Vec::new();
    let mut i: u32 = 0;
    while i < count
        invariant
            i <= count,
            positions@.len() == i,
            forall|k: int|
                0 <= k < i ==> #[trigger] positions@[k] == thumbnail_position(
                    duration as int,
                    count as int,
                    k,
                ),
            forall|k: int| 0 <= k < i ==> #[trigger] positions@[k] <= duration,
        decreases count - i,
    {
        assert(duration * i <= 0x1_0000_0000_0000_0000 * 0x1_0000_0000) by (nonlinear_arith)
            requires
                0 <= duration < 0x1_0000_0000_0000_0000,
                0 <= i < 0x1_0000_0000,
        ;
        let scaled: u128 = duration as u128 * i as u128;
        let position: u128 = scaled / count as u128;
        proof {
            assert(duration * i <= duration * count) by (nonlinear_arith)
                requires
                    i <= count,
                    duration >= 0,
            ;
            vstd::arithmetic::div_mod::lemma_div_is_ordered(
                duration * i,
                duration * count,
                count as int,
            );
            vstd::arithmetic::div_mod::lemma_div_multiples_vanish(duration as int, count as int);
            assert(duration * count == count * duration) by (nonlinear_arith);
        }
        positions.push(position as u64);
        i = i + 1;
    }
    positions
}

/// The nanoseconds of a second.
pub const SECOND: u64 = 1_000_000_000;

/// In how many parts a video is divided for sampling: in ten where it is
/// shorter than a minute, else in a hundred.
pub open spec fn sample_parts(duration: int) -> int {
    if duration / (SECOND as int) < 60 {
        10
    } else {
        100
    }
}

/// The length of one part of the sampling.
pub open spec fn sample_unit(duration: int) -> int {
    duration / sample_parts(duration)
}

/// The positions, in nanoseconds, at which a video of `duration`
/// nanoseconds is sampled: at the end of each of its parts but the last.
pub fn sample_positions(duration: u64) -> (positions: Vec<u64>)
    ensures
        positions@.len() == sample_parts(duration as int) - 1,
        forall|i: int|
            0 <= i < positions@.len() ==> #[trigger] positions@[i] == sample_unit(duration as int)
                * (i + 1),
{
    let short = duration / SECOND < 60;
    let len: u64 = if short {
        10
    } else {
        100
    };
    let unit: u64 = duration / len;
    proof {
        vstd::arithmetic::div_mod::lemma_fundamental_div_mod(duration as int, len as int);
        vstd::arithmetic::div_mod::lemma_mod_bound(duration as int, len as int);
        assert(unit * len == len * unit) by (nonlinear_arith);
    }
    let mut positions: Vec<u64> = Vec::new();
    let mut i: u64 = 1;
    while i < len
        invariant
            1 <= i <= len,
            len == 10 || len == 100,
            len == sample_parts(duration as int),
            unit == sample_unit(duration as int),
            unit * len <= duration,
            positions@.len() == i - 1,
            forall|k: int| 0 <= k < positions@.len() ==> #[trigger] positions@[k] == unit * (k + 1),
        decreases len - i,
    {
        assert(unit * i <= unit * len) by (nonlinear_arith)
            requires
                i <= len,
                unit >= 0,
        ;
        positions.push(unit * i);
        i = i + 1;
    }
    positions
}

/// The position of the single preview of a video of `duration`
/// nanoseconds: a tenth of the way in.
pub fn single_position(duration: u64) -> (position: u64)
    ensures
        position == duration / 10,
{
    duration / 10
}

} // verus!
