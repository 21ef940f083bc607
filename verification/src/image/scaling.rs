//! Scaling decoded images to an output's pixel geometry.
//!
//! A decoded image is a tightly packed RGBA buffer.  Scaling places it into
//! a target rectangle in one of three modes — `Fill` crops, `Fit` and `None`
//! letterbox — and always produces a tightly packed 24-bit RGB buffer of the
//! target's exact dimensions, padded with black where the source does not
//! reach.  Resampling itself is done by an outside convolution resizer; the
//! choice of its dimensions, the cropping and the letterboxing are verified
//! here, byte by byte.

use vstd::arithmetic::div_mod::{
    lemma_div_by_multiple, lemma_div_is_ordered, lemma_fundamental_div_mod,
    lemma_fundamental_div_mod_converse,
};
use vstd::prelude::*;

use fast_image_resize::images::Image;
use fast_image_resize::{FilterType, PixelType, ResizeAlg, ResizeOptions, Resizer};

use crate::image::error::ImageError;
use crate::ScaledMode;

verus! {

/// Largest width or height a decoded source image may have.
pub const MAX_DIM: u32 = 0x10000;

/// Largest pixel buffer, in bytes, that scaling will produce or ask the
/// resampler for.
pub const MAX_BUFFER_BYTES: u64 = 0x4000_0000;

/// The resampling filter used when an image changes size.
#[derive(Debug, Clone, Copy, PartialEq, Eq, Structural)]
pub enum Filter {
    /// Bilinear convolution.
    Fast,
    /// Catmull-Rom convolution.
    Good,
    /// Lanczos3 convolution.
    Best,
}

/// How an image is fitted to a target rectangle.
#[derive(Debug, Clone, Copy, PartialEq, Eq, Structural)]
pub enum Scaling {
    /// Scale by the larger axis ratio and crop symmetrically.
    Fill,
    /// Scale by the smaller axis ratio and letterbox the remaining axis.
    Fit,
    /// No resampling: center the source and letterbox around it.
    Centered,
}

/// A decoded image: a tightly packed RGBA byte buffer with its dimensions.
#[derive(Debug)]
pub struct RgbaImage {
    pub data: Vec<u8>,
    pub width: u32,
    pub height: u32,
}

impl RgbaImage {
    /// Four bytes per pixel, at least one pixel, and dimensions small
    /// enough that all scaling arithmetic stays in range.
    pub open spec fn wf(&self) -> bool {
        &&& self.data@.len() == 4 * self.width * self.height
        &&& 1 <= self.width <= MAX_DIM
        &&& 1 <= self.height <= MAX_DIM
    }
}

/// A stable number for each filter, used to state what the resampler
/// returns.
pub open spec fn filter_code(f: Filter) -> int {
    match f {
        Filter::Fast => 0,
        Filter::Good => 1,
        Filter::Best => 2,
    }
}

/// What the outside convolution resampler returns: the RGBA pixels of the
/// source buffer `src` (of size `sw` by `sh`), resampled to `dw` by `dh`
/// with the filter numbered `filter`.  A function of these arguments alone.
pub uninterp spec fn resized_rgba(
    src: Seq<u8>,
    sw: int,
    sh: int,
    dw: int,
    dh: int,
    filter: int,
) -> Seq<u8>;

/// Byte `i` of the RGB buffer of width `tw` that shows the RGBA source
/// buffer `src` (of size `sw` by `sh`) displaced by `(dx, dy)`, with black
/// outside the source: the output pixel `(x, y)` reads the source pixel
/// `(x - dx, y - dy)`.
pub open spec fn compose_byte(
    src: Seq<u8>,
    sw: int,
    sh: int,
    tw: int,
    dx: int,
    dy: int,
    i: int,
) -> u8 {
    let p = i / 3;
    let c = i % 3;
    let y = p / tw;
    let x = p % tw;
    let sx = x - dx;
    let sy = y - dy;
    if 0 <= sx < sw && 0 <= sy < sh {
        src[4 * (sy * sw + sx) + c]
    } else {
        0
    }
}

/// The whole composed RGB buffer: `tw` by `th` pixels, three bytes each.
pub open spec fn composed(
    src: Seq<u8>,
    sw: int,
    sh: int,
    tw: int,
    th: int,
    dx: int,
    dy: int,
) -> Seq<u8> {
    Seq::new((3 * tw * th) as nat, |i: int| compose_byte(src, sw, sh, tw, dx, dy, i))
}

/// Displacement that centers an extent of `scaled` in an extent of
/// `target`: negative when the source overflows (a crop), positive when it
/// falls short (a letterbox).
pub open spec fn center_offset(target: int, scaled: int) -> int {
    if scaled >= target {
        -((scaled - target) / 2)
    } else {
        (target - scaled) / 2
    }
}

/// The width ratio `tw / sw` is at least the height ratio `th / sh`.
pub open spec fn spec_wide(sw: int, sh: int, tw: int, th: int) -> bool {
    tw * sh >= th * sw
}

/// Width the source is resampled to: scaling is by the width ratio exactly
/// when `Fill` meets a proportionally wider target or `Fit` a proportionally
/// narrower one; the other axis follows the same ratio, rounded down.  An
/// extreme ratio that would round an axis to nothing is held at one pixel.
pub open spec fn scaled_width(sw: int, sh: int, tw: int, th: int, fill: bool) -> int {
    let raw = if fill == spec_wide(sw, sh, tw, th) {
        tw
    } else {
        sw * th / sh
    };
    if raw < 1 {
        1
    } else {
        raw
    }
}

/// Height the source is resampled to; see [`scaled_width`].
pub open spec fn scaled_height(sw: int, sh: int, tw: int, th: int, fill: bool) -> int {
    let raw = if fill == spec_wide(sw, sh, tw, th) {
        sh * tw / sw
    } else {
        th
    };
    if raw < 1 {
        1
    } else {
        raw
    }
}

/// The RGB buffer that `Fill` or `Fit` scaling produces: the source,
/// resampled to the scaled dimensions unless they already match, centered
/// in the target.
pub open spec fn spec_fill_fit(
    src: Seq<u8>,
    sw: int,
    sh: int,
    tw: int,
    th: int,
    fill: bool,
    filter: Filter,
) -> Seq<u8> {
    let dw = scaled_width(sw, sh, tw, th, fill);
    let dh = scaled_height(sw, sh, tw, th, fill);
    let scaled = if dw == sw && dh == sh {
        src
    } else {
        resized_rgba(src, sw, sh, dw, dh, filter_code(filter))
    };
    composed(scaled, dw, dh, tw, th, center_offset(tw, dw), center_offset(th, dh))
}

/// The RGB buffer that scaling produces for each mode.
pub open spec fn spec_scale_output(
    mode: Scaling,
    src: Seq<u8>,
    sw: int,
    sh: int,
    tw: int,
    th: int,
    filter: Filter,
) -> Seq<u8> {
    match mode {
        Scaling::Centered => composed(src, sw, sh, tw, th, center_offset(tw, sw), center_offset(
            th,
            sh,
        )),
        Scaling::Fill => spec_fill_fit(src, sw, sh, tw, th, true, filter),
        Scaling::Fit => spec_fill_fit(src, sw, sh, tw, th, false, filter),
    }
}

/// The target, or the buffer the resampler would have to produce, is larger
/// than scaling accepts.
pub open spec fn spec_oversize(mode: Scaling, sw: int, sh: int, tw: int, th: int) -> bool {
    ||| 3 * tw * th > MAX_BUFFER_BYTES
    ||| (!(mode is Centered) && tw >= 1 && th >= 1 && 4 * scaled_width(sw, sh, tw, th, mode is Fill)
        * scaled_height(sw, sh, tw, th, mode is Fill) > MAX_BUFFER_BYTES)
}

/// How flat RGB buffer indices decompose into pixel coordinates and a
/// channel.
proof fn lemma_flat_index(tw: int, y: int, x: int, c: int)
    requires
        tw > 0,
        0 <= x < tw,
        0 <= y,
        0 <= c < 3,
    ensures
        (3 * (y * tw + x) + c) / 3 == y * tw + x,
        (3 * (y * tw + x) + c) % 3 == c,
        (y * tw + x) / tw == y,
        (y * tw + x) % tw == x,
{
    lemma_fundamental_div_mod_converse(3 * (y * tw + x) + c, 3, y * tw + x, c);
    lemma_fundamental_div_mod_converse(y * tw + x, tw, y, x);
}

/// Places the RGBA buffer `src` into a `tw` by `th` RGB canvas, displaced
/// by `(dx, dy)`, black where the source does not reach.
#[verifier::loop_isolation(false)]
fn compose(src: &Vec<u8>, sw: u32, sh: u32, tw: u32, th: u32, dx: i64, dy: i64) -> (out: Vec<u8>)
    requires
        1 <= sw,
        1 <= sh,
        src@.len() == 4 * sw * sh,
        3 * tw * th <= usize::MAX,
        -0x1_0000_0000_0000 <= dx <= 0x1_0000_0000_0000,
        -0x1_0000_0000_0000 <= dy <= 0x1_0000_0000_0000,
    ensures
        out@ == composed(src@, sw as int, sh as int, tw as int, th as int, dx as int, dy as int),
{
    let n = src.len();
    assert(n == 4 * sw * sh);
    let mut out: Vec<u8> = Vec::new();
    let mut y: u32 = 0;
    while y < th
        invariant
            y <= th,
            out@.len() == 3 * ((y as int) * (tw as int)),
            forall|i: int|
                0 <= i < out@.len() ==> out@[i] == compose_byte(
                    src@,
                    sw as int,
                    sh as int,
                    tw as int,
                    dx as int,
                    dy as int,
                    i,
                ),
        decreases th - y,
    {
        let mut x: u32 = 0;
        while x < tw
            invariant
                y < th,
                x <= tw,
                out@.len() == 3 * ((y as int) * (tw as int) + x as int),
                forall|i: int|
                    0 <= i < out@.len() ==> out@[i] == compose_byte(
                        src@,
                        sw as int,
                        sh as int,
                        tw as int,
                        dx as int,
                        dy as int,
                        i,
                    ),
            decreases tw - x,
        {
            proof {
                assert((y as int) * (tw as int) + x < (tw as int) * (th as int))
                    by (nonlinear_arith)
                    requires
                        0 <= (y as int) < (th as int),
                        0 <= (x as int) < (tw as int),
                ;
            }
            let sx_i: i64 = x as i64 - dx;
            let sy_i: i64 = y as i64 - dy;
            let b0: u8;
            let b1: u8;
            let b2: u8;
            if 0 <= sx_i && sx_i < sw as i64 && 0 <= sy_i && sy_i < sh as i64 {
                let sx = sx_i as usize;
                let sy = sy_i as usize;
                proof {
                    assert((sy as int) * (sw as int) + sx < (sw as int) * (sh as int))
                        by (nonlinear_arith)
                        requires
                            0 <= (sy as int) < (sh as int),
                            0 <= (sx as int) < (sw as int),
                    ;
                    assert(4 * ((sy as int) * (sw as int) + (sx as int)) + 3 < 4 * (
                    sw as int) * (sh as int)) by (nonlinear_arith)
                        requires
                            (sy as int) * (sw as int) + (sx as int) < (sw as int) * (sh as int),
                            0 <= (sy as int) * (sw as int) + (sx as int),
                    ;
                    assert(4 * ((sy as int) * (sw as int) + (sx as int)) + 3 < src@.len());
                }
                let base: usize = 4 * (sy * (sw as usize) + sx);
                b0 = src[base];
                b1 = src[base + 1];
                b2 = src[base + 2];
            } else {
                b0 = 0;
                b1 = 0;
                b2 = 0;
            }
            proof {
                let l = 3 * ((y as int) * (tw as int) + x as int);
                lemma_flat_index(tw as int, y as int, x as int, 0);
                lemma_flat_index(tw as int, y as int, x as int, 1);
                lemma_flat_index(tw as int, y as int, x as int, 2);
                assert(b0 == compose_byte(
                    src@, sw as int, sh as int, tw as int, dx as int, dy as int, l));
                assert(b1 == compose_byte(
                    src@, sw as int, sh as int, tw as int, dx as int, dy as int, l + 1));
                assert(b2 == compose_byte(
                    src@, sw as int, sh as int, tw as int, dx as int, dy as int, l + 2));
            }
            out.push(b0);
            out.push(b1);
            out.push(b2);
            x = x + 1;
        }
        y = y + 1;
        proof {
            assert(3 * (((y as int) - 1) * (tw as int) + (tw as int)) == 3 * ((y as int) * (
            tw as int))) by (nonlinear_arith);
        }
    }
    proof {
        assert(3 * ((th as int) * (tw as int)) == 3 * (tw as int) * (th as int))
            by (nonlinear_arith);
        assert(out@ =~= composed(
            src@,
            sw as int,
            sh as int,
            tw as int,
            th as int,
            dx as int,
            dy as int,
        ));
    }
    out
}

/// Relies on fast_image_resize's `Resizer::resize` with a convolution
/// algorithm: the resampled pixels are a function of the source pixels, the
/// two sizes and the filter alone (the crate's own tests pin identical
/// results across CPU paths), and the output buffer is tightly packed RGBA
/// of the destination size.  Under these preconditions the call cannot
/// fail: source and destination share the `U8x4` pixel type, the buffer has
/// exactly the required size (and byte alignment), the dimensions are
/// nonzero, and no cropping is configured.
#[verifier::external_body]
fn resize_rgba(src: &Vec<u8>, sw: u32, sh: u32, dw: u32, dh: u32, filter: Filter) -> (r: Result<
    Vec<u8>,
    ImageError,
>)
    requires
        1 <= sw,
        1 <= sh,
        1 <= dw,
        1 <= dh,
        src@.len() == 4 * sw * sh,
        4 * dw * dh <= MAX_BUFFER_BYTES,
    ensures
        r is Ok,
        r matches Ok(buf) ==> buf@ == resized_rgba(
            src@,
            sw as int,
            sh as int,
            dw as int,
            dh as int,
            filter_code(filter),
        ) && buf@.len() == 4 * dw * dh,
{
    let ft = match filter {
        Filter::Fast => FilterType::Bilinear,
        Filter::Good => FilterType::CatmullRom,
        Filter::Best => FilterType::Lanczos3,
    };
    let src_image = Image::from_vec_u8(sw, sh, src.clone(), PixelType::U8x4).map_err(
        |e| ImageError::BufferInvalid(format!("{e}")),
    )?;
    let mut dst = Image::new(dw, dh, PixelType::U8x4);
    let options = ResizeOptions::new().resize_alg(ResizeAlg::Convolution(ft)).use_alpha(false);
    Resizer::new().resize(&src_image, &mut dst, &options).map_err(
        |e| ImageError::BufferInvalid(format!("{e}")),
    )?;
    Ok(dst.into_vec())
}

/// Displacement that centers `scaled` in `target`; matches
/// [`center_offset`].
fn center_offset_exec(target: u32, scaled: u64) -> (r: i64)
    requires
        scaled <= 0x1000_0000_0000,
    ensures
        r as int == center_offset(target as int, scaled as int),
        -0x1_0000_0000_0000 <= r <= 0x1_0000_0000_0000,
{
    if scaled >= target as u64 {
        -(((scaled - target as u64) / 2) as i64)
    } else {
        (((target as u64) - scaled) / 2) as i64
    }
}

impl Scaling {
    /// Scales the decoded image `sur` to the target geometry with this mode.
    ///
    /// On success the buffer is tightly packed RGB in exactly the target's
    /// dimensions, its contents pinned by [`spec_scale_output`].  A negative
    /// target is rejected as `Generic`, a target or resample buffer past
    /// [`MAX_BUFFER_BYTES`] as `ResourceLimit`, and on every other input the
    /// call succeeds.
    pub fn scale(&self, sur: &RgbaImage, geometry: &ScaledMode, filter: Filter) -> (r: Result<
        Vec<u8>,
        ImageError,
    >)
        requires
            sur.wf(),
        ensures
            (geometry.width < 0 || geometry.height < 0) <==> r matches Err(ImageError::Generic(_)),
            (geometry.width >= 0 && geometry.height >= 0 && spec_oversize(
                *self,
                sur.width as int,
                sur.height as int,
                geometry.width as int,
                geometry.height as int,
            )) <==> r matches Err(ImageError::ResourceLimit(_)),
            r matches Ok(buf) ==> buf@ == spec_scale_output(
                *self,
                sur.data@,
                sur.width as int,
                sur.height as int,
                geometry.width as int,
                geometry.height as int,
                filter,
            ) && buf@.len() == 3 * geometry.width * geometry.height,
            (geometry.width >= 0 && geometry.height >= 0 && !spec_oversize(
                *self,
                sur.width as int,
                sur.height as int,
                geometry.width as int,
                geometry.height as int,
            )) ==> r is Ok,
    {
        if geometry.width < 0 || geometry.height < 0 {
            return Err(ImageError::Generic("negative target dimensions".to_owned()));
        }
        let tw = geometry.width as u32;
        let th = geometry.height as u32;
        proof {
            assert(3 * (tw as int) * (th as int) <= 3 * 0xffff_ffff * 0xffff_ffff)
                by (nonlinear_arith)
                requires
                    0 <= (tw as int) <= 0xffff_ffff,
                    0 <= (th as int) <= 0xffff_ffff,
            ;
        }
        if 3 * (tw as u128) * (th as u128) > MAX_BUFFER_BYTES as u128 {
            return Err(ImageError::ResourceLimit("target too large".to_owned()));
        }
        match self {
            Scaling::Fill => Scaling::fill(sur, tw, th, filter),
            Scaling::Fit => Scaling::fit(sur, tw, th, filter),
            Scaling::Centered => Ok(Scaling::none(sur, tw, th)),
        }
    }

    /// Letterboxing without resampling: the source centered in the target.
    fn none(buf: &RgbaImage, tw: u32, th: u32) -> (out: Vec<u8>)
        requires
            buf.wf(),
            3 * tw * th <= MAX_BUFFER_BYTES,
        ensures
            out@ == composed(
                buf.data@,
                buf.width as int,
                buf.height as int,
                tw as int,
                th as int,
                center_offset(tw as int, buf.width as int),
                center_offset(th as int, buf.height as int),
            ),
            out@.len() == 3 * tw * th,
    {
        let dx = center_offset_exec(tw, buf.width as u64);
        let dy = center_offset_exec(th, buf.height as u64);
        compose(&buf.data, buf.width, buf.height, tw, th, dx, dy)
    }

    /// Scaling by the smaller axis ratio, then letterboxing.
    fn fit(buf: &RgbaImage, tw: u32, th: u32, filter: Filter) -> (r: Result<Vec<u8>, ImageError>)
        requires
            buf.wf(),
            3 * tw * th <= MAX_BUFFER_BYTES,
        ensures
            spec_oversize(
                Scaling::Fit,
                buf.width as int,
                buf.height as int,
                tw as int,
                th as int,
            ) <==> r matches Err(ImageError::ResourceLimit(_)),
            r matches Ok(out) ==> out@ == spec_fill_fit(
                buf.data@,
                buf.width as int,
                buf.height as int,
                tw as int,
                th as int,
                false,
                filter,
            ) && out@.len() == 3 * tw * th,
            !spec_oversize(
                Scaling::Fit,
                buf.width as int,
                buf.height as int,
                tw as int,
                th as int,
            ) ==> r is Ok,
    {
        Scaling::fill_or_fit(buf, tw, th, filter, false)
    }

    /// Scaling by the larger axis ratio, then cropping symmetrically.
    fn fill(buf: &RgbaImage, tw: u32, th: u32, filter: Filter) -> (r: Result<Vec<u8>, ImageError>)
        requires
            buf.wf(),
            3 * tw * th <= MAX_BUFFER_BYTES,
        ensures
            spec_oversize(
                Scaling::Fill,
                buf.width as int,
                buf.height as int,
                tw as int,
                th as int,
            ) <==> r matches Err(ImageError::ResourceLimit(_)),
            r matches Ok(out) ==> out@ == spec_fill_fit(
                buf.data@,
                buf.width as int,
                buf.height as int,
                tw as int,
                th as int,
                true,
                filter,
            ) && out@.len() == 3 * tw * th,
            !spec_oversize(
                Scaling::Fill,
                buf.width as int,
                buf.height as int,
                tw as int,
                th as int,
            ) ==> r is Ok,
    {
        Scaling::fill_or_fit(buf, tw, th, filter, true)
    }

    /// The shared body of `fill` and `fit`: pick the resample dimensions by
    /// the axis ratios, resample unless the size already matches, then
    /// center the result in the target.
    fn fill_or_fit(buf: &RgbaImage, tw: u32, th: u32, filter: Filter, fill: bool) -> (r: Result<
        Vec<u8>,
        ImageError,
    >)
        requires
            buf.wf(),
            3 * tw * th <= MAX_BUFFER_BYTES,
        ensures
            spec_oversize(
                if fill {
                    Scaling::Fill
                } else {
                    Scaling::Fit
                },
                buf.width as int,
                buf.height as int,
                tw as int,
                th as int,
            ) <==> r matches Err(ImageError::ResourceLimit(_)),
            r matches Ok(out) ==> out@ == spec_fill_fit(
                buf.data@,
                buf.width as int,
                buf.height as int,
                tw as int,
                th as int,
                fill,
                filter,
            ) && out@.len() == 3 * tw * th,
            !spec_oversize(
                if fill {
                    Scaling::Fill
                } else {
                    Scaling::Fit
                },
                buf.width as int,
                buf.height as int,
                tw as int,
                th as int,
            ) ==> r is Ok,
    {
        let sw = buf.width;
        let sh = buf.height;
        let ghost swi = sw as int;
        let ghost shi = sh as int;
        let ghost twi = tw as int;
        let ghost thi = th as int;
        if tw == 0 || th == 0 {
            proof {
                assert(3 * twi * thi == 0) by (nonlinear_arith)
                    requires
                        twi == 0 || thi == 0,
                ;
                assert(Seq::<u8>::empty() =~= spec_fill_fit(
                    buf.data@,
                    swi,
                    shi,
                    twi,
                    thi,
                    fill,
                    filter,
                ));
            }
            return Ok(Vec::new());
        }
        proof {
            assert((tw as int) * (sh as int) <= 0xffff_ffff * 0xffff_ffff && (th as int) * (
            sw as int) <= 0xffff_ffff * 0xffff_ffff) by (nonlinear_arith)
                requires
                    0 <= (tw as int) <= 0xffff_ffff,
                    0 <= (th as int) <= 0xffff_ffff,
                    0 <= (sw as int) <= 0xffff_ffff,
                    0 <= (sh as int) <= 0xffff_ffff,
            ;
        }
        let wide = (tw as u128) * (sh as u128) >= (th as u128) * (sw as u128);
        proof {
            assert((sh as int) * (tw as int) <= 0x10000 * 0xffff_ffff && (sw as int) * (
            th as int) <= 0x10000 * 0xffff_ffff) by (nonlinear_arith)
                requires
                    0 <= (sh as int) <= 0x10000,
                    0 <= (sw as int) <= 0x10000,
                    0 <= (tw as int) <= 0xffff_ffff,
                    0 <= (th as int) <= 0xffff_ffff,
            ;
        }
        let dw_raw: u64;
        let dh_raw: u64;
        if fill == wide {
            dw_raw = tw as u64;
            dh_raw = (sh as u64) * (tw as u64) / (sw as u64);
            proof {
                vstd::arithmetic::div_mod::lemma_div_nonincreasing(
                    (sh as int) * (tw as int),
                    sw as int,
                );
            }
        } else {
            dw_raw = (sw as u64) * (th as u64) / (sh as u64);
            dh_raw = th as u64;
            proof {
                vstd::arithmetic::div_mod::lemma_div_nonincreasing(
                    (sw as int) * (th as int),
                    sh as int,
                );
            }
        }
        let dw: u64 = if dw_raw == 0 { 1 } else { dw_raw };
        let dh: u64 = if dh_raw == 0 { 1 } else { dh_raw };
        assert(dw as int == scaled_width(swi, shi, twi, thi, fill));
        assert(dh as int == scaled_height(swi, shi, twi, thi, fill));
        proof {
            assert(4 * (dw as int) * (dh as int) <= 4 * 0x1_0000_ffff_0000 * 0x1_0000_ffff_0000)
                by (nonlinear_arith)
                requires
                    1 <= (dw as int) <= 0x1_0000_ffff_0000,
                    1 <= (dh as int) <= 0x1_0000_ffff_0000,
            ;
        }
        if 4 * (dw as u128) * (dh as u128) > MAX_BUFFER_BYTES as u128 {
            return Err(ImageError::ResourceLimit("resample buffer too large".to_owned()));
        }
        proof {
            assert(dw as int <= MAX_BUFFER_BYTES && dh as int <= MAX_BUFFER_BYTES)
                by (nonlinear_arith)
                requires
                    4 * (dw as int) * (dh as int) <= MAX_BUFFER_BYTES,
                    dw >= 1,
                    dh >= 1,
            ;
        }
        let dx = center_offset_exec(tw, dw);
        let dy = center_offset_exec(th, dh);
        if dw == sw as u64 && dh == sh as u64 {
            Ok(compose(&buf.data, sw, sh, tw, th, dx, dy))
        } else {
            match resize_rgba(&buf.data, sw, sh, dw as u32, dh as u32, filter) {
                Ok(scaled) => Ok(compose(&scaled, dw as u32, dh as u32, tw, th, dx, dy)),
                Err(e) => Err(e),
            }
        }
    }
}


/// Law: `Fill` covers the target completely.  The axis with the larger
/// target/source ratio is scaled to the target exactly; the other axis
/// follows the same ratio rounded down, so it reaches at least the target
/// and never exceeds the source times that larger ratio.
pub proof fn lemma_fill_covers(sw: int, sh: int, tw: int, th: int)
    requires
        1 <= sw,
        1 <= sh,
        1 <= tw,
        1 <= th,
    ensures
        scaled_width(sw, sh, tw, th, true) >= tw,
        scaled_height(sw, sh, tw, th, true) >= th,
        spec_wide(sw, sh, tw, th) ==> scaled_width(sw, sh, tw, th, true) == tw && scaled_height(
            sw,
            sh,
            tw,
            th,
            true,
        ) * sw <= sh * tw,
        !spec_wide(sw, sh, tw, th) ==> scaled_height(sw, sh, tw, th, true) == th && scaled_width(
            sw,
            sh,
            tw,
            th,
            true,
        ) * sh <= sw * th,
{
    if spec_wide(sw, sh, tw, th) {
        let dh = sh * tw / sw;
        assert(sh * tw == tw * sh) by (nonlinear_arith);
        assert(th * sw == sw * th) by (nonlinear_arith);
        assert(sw * th == th * sw) by (nonlinear_arith);
        assert(tw * sh == sh * tw) by (nonlinear_arith);
        lemma_div_is_ordered(th * sw, sh * tw, sw);
        lemma_div_by_multiple(th, sw);
        assert(th * sw == sh * tw ==> sh * tw / sw == th);
        assert(dh >= th);
        vstd::arithmetic::div_mod::lemma_mod_bound(sh * tw, sw);
        lemma_fundamental_div_mod(sh * tw, sw);
        assert(dh * sw <= sh * tw) by (nonlinear_arith)
            requires
                sh * tw == sw * (sh * tw / sw) + (sh * tw) % sw,
                (sh * tw) % sw >= 0,
                dh == sh * tw / sw,
        ;
    } else {
        let dw = sw * th / sh;
        assert(sh * tw == tw * sh) by (nonlinear_arith);
        assert(th * sw == sw * th) by (nonlinear_arith);
        assert(sw * th == th * sw) by (nonlinear_arith);
        assert(tw * sh == sh * tw) by (nonlinear_arith);
        lemma_div_is_ordered(tw * sh, sw * th, sh);
        lemma_div_by_multiple(tw, sh);
        assert(dw >= tw);
        vstd::arithmetic::div_mod::lemma_mod_bound(sw * th, sh);
        lemma_fundamental_div_mod(sw * th, sh);
        assert(dw * sh <= sw * th) by (nonlinear_arith)
            requires
                sw * th == sh * (sw * th / sh) + (sw * th) % sh,
                (sw * th) % sh >= 0,
                dw == sw * th / sh,
        ;
    }
}

/// Law: in `Fill` mode every target pixel reads a resampled source pixel —
/// the composition never falls outside the resampled image, so no letterbox
/// region exists.
pub proof fn lemma_fill_no_letterbox(sw: int, sh: int, tw: int, th: int)
    requires
        1 <= sw,
        1 <= sh,
        1 <= tw,
        1 <= th,
    ensures
        center_offset(tw, scaled_width(sw, sh, tw, th, true)) <= 0,
        center_offset(tw, scaled_width(sw, sh, tw, th, true)) + scaled_width(sw, sh, tw, th, true)
            >= tw,
        center_offset(th, scaled_height(sw, sh, tw, th, true)) <= 0,
        center_offset(th, scaled_height(sw, sh, tw, th, true)) + scaled_height(
            sw,
            sh,
            tw,
            th,
            true,
        ) >= th,
{
    lemma_fill_covers(sw, sh, tw, th);
    let dw = scaled_width(sw, sh, tw, th, true);
    let dh = scaled_height(sw, sh, tw, th, true);
    vstd::arithmetic::div_mod::lemma_div_nonincreasing(dw - tw, 2);
    vstd::arithmetic::div_mod::lemma_div_pos_is_pos(dw - tw, 2);
    vstd::arithmetic::div_mod::lemma_div_nonincreasing(dh - th, 2);
    vstd::arithmetic::div_mod::lemma_div_pos_is_pos(dh - th, 2);
}

/// Law: `Fit` never crops — the resampled image lies wholly inside the
/// target on both axes.
pub proof fn lemma_fit_no_crop(sw: int, sh: int, tw: int, th: int)
    requires
        1 <= sw,
        1 <= sh,
        1 <= tw,
        1 <= th,
    ensures
        scaled_width(sw, sh, tw, th, false) <= tw,
        scaled_height(sw, sh, tw, th, false) <= th,
        0 <= center_offset(tw as int, scaled_width(sw, sh, tw, th, false)),
        0 <= center_offset(th as int, scaled_height(sw, sh, tw, th, false)),
        center_offset(tw as int, scaled_width(sw, sh, tw, th, false)) + scaled_width(
            sw,
            sh,
            tw,
            th,
            false,
        ) <= tw,
        center_offset(th as int, scaled_height(sw, sh, tw, th, false)) + scaled_height(
            sw,
            sh,
            tw,
            th,
            false,
        ) <= th,
{
    if spec_wide(sw, sh, tw, th) {
        let dw = sw * th / sh;
        assert(sh * tw == tw * sh) by (nonlinear_arith);
        assert(th * sw == sw * th) by (nonlinear_arith);
        assert(sw * th == th * sw) by (nonlinear_arith);
        assert(tw * sh == sh * tw) by (nonlinear_arith);
        lemma_div_is_ordered(sw * th, tw * sh, sh);
        lemma_div_by_multiple(tw, sh);
        assert(dw <= tw);
    } else {
        let dh = sh * tw / sw;
        assert(sh * tw == tw * sh) by (nonlinear_arith);
        assert(th * sw == sw * th) by (nonlinear_arith);
        assert(sw * th == th * sw) by (nonlinear_arith);
        assert(tw * sh == sh * tw) by (nonlinear_arith);
        lemma_div_is_ordered(sh * tw, th * sw, sw);
        lemma_div_by_multiple(th, sw);
        assert(dh <= th);
    }
    let dw = scaled_width(sw, sh, tw, th, false);
    let dh = scaled_height(sw, sh, tw, th, false);
    vstd::arithmetic::div_mod::lemma_div_nonincreasing(tw - dw, 2);
    vstd::arithmetic::div_mod::lemma_div_pos_is_pos(tw - dw, 2);
    vstd::arithmetic::div_mod::lemma_div_nonincreasing(th - dh, 2);
    vstd::arithmetic::div_mod::lemma_div_pos_is_pos(th - dh, 2);
}

/// Law: in `Fit` mode every output byte outside the centered resampled
/// image is exactly black.
pub proof fn lemma_fit_letterbox_black(
    src: Seq<u8>,
    sw: int,
    sh: int,
    tw: int,
    th: int,
    filter: Filter,
)
    requires
        1 <= sw,
        1 <= sh,
        1 <= tw,
        1 <= th,
    ensures
        forall|i: int|
            0 <= i < 3 * tw * th && {
                let x = (i / 3) % tw;
                let y = (i / 3) / tw;
                let dw = scaled_width(sw, sh, tw, th, false);
                let dh = scaled_height(sw, sh, tw, th, false);
                let dx = center_offset(tw, dw);
                let dy = center_offset(th, dh);
                !(dx <= x < dx + dw && dy <= y < dy + dh)
            } ==> (#[trigger] spec_fill_fit(src, sw, sh, tw, th, false, filter)[i]) == 0,
{
    let dw = scaled_width(sw, sh, tw, th, false);
    let dh = scaled_height(sw, sh, tw, th, false);
    let dx = center_offset(tw, dw);
    let dy = center_offset(th, dh);
    let out = spec_fill_fit(src, sw, sh, tw, th, false, filter);
    assert forall|i: int|
        0 <= i < 3 * tw * th && {
            let x = (i / 3) % tw;
            let y = (i / 3) / tw;
            !(dx <= x < dx + dw && dy <= y < dy + dh)
        } implies (#[trigger] out[i]) == 0 by {
        assert(out.len() == (3 * tw * th) as nat);
    }
}

} // verus!
