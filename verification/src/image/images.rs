//! Decoding source files into RGBA pixel buffers, with a WebP fallback.
//!
//! The generic decoder handles every common format; when it rejects a file
//! as unsupported and names WebP as the format, a WebP-specific decoder is
//! tried instead.  Whatever decoded, the result is validated into a
//! well-formed [`RgbaImage`].

use vstd::prelude::*;

use image::error::ImageFormatHint;
use image::ImageError as DecoderError;
use image::ImageFormat;

use crate::image::error::ImageError;
use crate::image::scaling::{Filter, RgbaImage, Scaling, spec_scale_output, spec_oversize, MAX_DIM};
use crate::ScaledMode;

verus! {

/// The RGBA bytes of an RGB buffer of `pixels` pixels: the three channels
/// kept, an opaque alpha appended to each pixel.
pub open spec fn rgba_from_rgb(src: Seq<u8>, pixels: int) -> Seq<u8> {
    Seq::new(
        (4 * pixels) as nat,
        |i: int|
            if i % 4 == 3 {
                255u8
            } else {
                src[3 * (i / 4) + i % 4]
            },
    )
}

/// Appends an opaque alpha channel to a tightly packed RGB buffer.
#[verifier::loop_isolation(false)]
fn expand_rgb(data: &Vec<u8>, pixels: usize) -> (out: Vec<u8>)
    requires
        data@.len() == 3 * pixels,
        4 * pixels <= usize::MAX,
    ensures
        out@ == rgba_from_rgb(data@, pixels as int),
{
    let mut out: Vec<u8> = Vec::new();
    let mut p: usize = 0;
    while p < pixels
        invariant
            p <= pixels,
            out@.len() == 4 * p,
            forall|i: int|
                0 <= i < out@.len() ==> out@[i] == rgba_from_rgb(data@, pixels as int)[i],
        decreases pixels - p,
    {
        proof {
            vstd::arithmetic::div_mod::lemma_fundamental_div_mod_converse(
                4 * (p as int) + 0,
                4,
                p as int,
                0,
            );
            vstd::arithmetic::div_mod::lemma_fundamental_div_mod_converse(
                4 * (p as int) + 1,
                4,
                p as int,
                1,
            );
            vstd::arithmetic::div_mod::lemma_fundamental_div_mod_converse(
                4 * (p as int) + 2,
                4,
                p as int,
                2,
            );
            vstd::arithmetic::div_mod::lemma_fundamental_div_mod_converse(
                4 * (p as int) + 3,
                4,
                p as int,
                3,
            );
        }
        out.push(data[3 * p]);
        out.push(data[3 * p + 1]);
        out.push(data[3 * p + 2]);
        out.push(255);
        p = p + 1;
    }
    proof {
        assert(out@ =~= rgba_from_rgb(data@, pixels as int));
    }
    out
}

/// Relies on image's `open`: decodes the file at `path` with the generic
/// decoder and converts it to tightly packed RGBA.  On failure it hands
/// back the decoder's failure kind as a number — decoding, limits,
/// unsupported, I/O, other, in that order from zero — its message, and
/// whether the format was rejected as unsupported naming WebP, the cue for
/// the fallback decoder.  What comes back depends on the disk.
#[verifier::external_body]
fn open_generic(path: &str) -> (r: Result<(Vec<u8>, u32, u32), (u8, String, bool)>)
    ensures
        r matches Ok(t) ==> t.0@.len() == 4 * t.1 * t.2,
{
    match image::open(path) {
        Ok(i) => { let (w, h) = (i.width(), i.height()); Ok((i.to_rgba8().into_raw(), w, h)) },
        Err(e) => {
            let hint = matches!(&e, DecoderError::Unsupported(u) if matches!(u.format_hint(), ImageFormatHint::Exact(ImageFormat::WebP)));
            let kind: u8 = match &e { DecoderError::Decoding(_) => 0, DecoderError::Limits(_) => 1, DecoderError::Unsupported(_) => 2, DecoderError::IoError(_) => 3, _ => 4 };
            Err((kind, format!("{e}"), hint))
        },
    }
}

/// The public error taxonomy of the generic decoder: a decoding failure is
/// `CouldNotDecode`, an exceeded limit `ResourceLimit`, an unsupported
/// format `Unsupported`, a read failure `Io`, and anything else `Generic`,
/// rebuilt here from the failure kind number the decoder wrapper reports.
pub fn decode_error_of(kind: u8, message: String) -> (e: ImageError)
    ensures
        kind == 0 ==> e matches ImageError::CouldNotDecode(_),
        kind == 1 ==> e matches ImageError::ResourceLimit(_),
        kind == 2 ==> e matches ImageError::Unsupported(_),
        kind == 3 ==> e matches ImageError::Io(_),
        kind >= 4 ==> e matches ImageError::Generic(_),
{
    match kind {
        0 => ImageError::CouldNotDecode(message),
        1 => ImageError::ResourceLimit(message),
        2 => ImageError::Unsupported(message),
        3 => ImageError::Io(message),
        _ => ImageError::Generic(message),
    }
}

/// Relies on image's `io::Reader::open` to open the file and std's
/// `Read::read_to_end` to read it whole.  What comes back depends on the
/// disk.
#[verifier::external_body]
fn read_file_bytes(path: &str) -> (r: Result<Vec<u8>, ImageError>)
    ensures
        r is Err ==> r matches Err(ImageError::Io(_)),
{
    let reader = image::io::Reader::open(path).map_err(|e| ImageError::Io(format!("{e}")))?;
    let mut inner = reader.into_inner();
    let mut data: Vec<u8> = Vec::new();
    std::io::Read::read_to_end(&mut inner, &mut data).map_err(
        |e| ImageError::Io(format!("{e}")),
    )?;
    Ok(data)
}

/// Relies on webp's `Decoder::decode`: decodes a WebP byte stream into a
/// tightly packed buffer — RGBA when the stream carries alpha (the flag),
/// RGB otherwise — of the reported dimensions.
#[verifier::external_body]
fn decode_webp(data: &Vec<u8>) -> (r: Result<(Vec<u8>, u32, u32, bool), ImageError>)
    ensures
        r matches Ok(t) ==> (t.3 ==> t.0@.len() == 4 * t.1 * t.2) && (!t.3 ==> t.0@.len() == 3
            * t.1 * t.2),
        r is Err ==> r matches Err(ImageError::CouldNotDecode(_)),
{
    let img = webp::Decoder::new(data.as_slice()).decode().ok_or_else(
        || ImageError::CouldNotDecode("not a decodable WebP stream".to_owned()),
    )?;
    let (w, h, alpha) = (img.width(), img.height(), img.is_alpha());
    Ok((img.to_vec(), w, h, alpha))
}

/// Validates decoded RGBA parts into a well-formed image: at least one
/// pixel, dimensions within [`MAX_DIM`].
fn validate_rgba(data: Vec<u8>, width: u32, height: u32) -> (r: Result<RgbaImage, ImageError>)
    requires
        data@.len() == 4 * width * height,
    ensures
        r matches Ok(img) ==> img.wf() && img.data@ == data@ && img.width == width && img.height
            == height,
        (1 <= width <= MAX_DIM && 1 <= height <= MAX_DIM) <==> r is Ok,
        r matches Err(e) ==> (e matches ImageError::CouldNotDecode(_) || e matches
            ImageError::ResourceLimit(_)),
{
    if width == 0 || height == 0 {
        return Err(ImageError::CouldNotDecode("image has no pixels".to_owned()));
    }
    if width > MAX_DIM || height > MAX_DIM {
        return Err(ImageError::ResourceLimit("image dimensions too large".to_owned()));
    }
    Ok(RgbaImage { data, width, height })
}

/// Decodes the file at `path` into a well-formed RGBA image: the generic
/// decoder first, the WebP-specific decoder when the generic one rejects
/// the format as unsupported WebP.  A failure is reported under the
/// taxonomy of [`decode_error_of`]; the surface and context kinds never
/// arise from decoding.
pub fn decode_rgba(path: &str) -> (r: Result<RgbaImage, ImageError>)
    ensures
        r matches Ok(img) ==> img.wf(),
        r matches Err(e) ==> (e matches ImageError::CouldNotDecode(_) || e matches
            ImageError::ResourceLimit(_) || e matches ImageError::Unsupported(_) || e matches
            ImageError::Io(_) || e matches ImageError::Generic(_)),
{
    match open_generic(path) {
        Ok((data, w, h)) => validate_rgba(data, w, h),
        Err((kind, message, webp_hint)) => {
            if webp_hint {
                let bytes = match read_file_bytes(path) {
                    Ok(b) => b,
                    Err(e2) => {
                        return Err(e2);
                    },
                };
                let (data, w, h, alpha) = match decode_webp(&bytes) {
                    Ok(t) => t,
                    Err(e2) => {
                        return Err(e2);
                    },
                };
                if alpha {
                    validate_rgba(data, w, h)
                } else {
                    if w == 0 || h == 0 {
                        return Err(ImageError::CouldNotDecode("image has no pixels".to_owned()));
                    }
                    if w > MAX_DIM || h > MAX_DIM {
                        return Err(
                            ImageError::ResourceLimit("image dimensions too large".to_owned()),
                        );
                    }
                    proof {
                        assert((w as int) * (h as int) <= 0x10000 * 0x10000) by (nonlinear_arith)
                            requires
                                1 <= (w as int) <= 0x10000,
                                1 <= (h as int) <= 0x10000,
                        ;
                    }
                    let pix64 = (w as u64) * (h as u64);
                    if 4 * pix64 > usize::MAX as u64 {
                        return Err(
                            ImageError::ResourceLimit("image dimensions too large".to_owned()),
                        );
                    }
                    let pixels = pix64 as usize;
                    proof {
                        assert(3 * ((w as int) * (h as int)) == 3 * (w as int) * (h as int))
                            by (nonlinear_arith);
                        assert(4 * ((w as int) * (h as int)) == 4 * (w as int) * (h as int))
                            by (nonlinear_arith);
                    }
                    let rgba = expand_rgb(&data, pixels);
                    Ok(RgbaImage { data: rgba, width: w, height: h })
                }
            } else {
                Err(decode_error_of(kind, message))
            }
        },
    }
}

/// A decoded image together with the scaling mode and filter it will be
/// processed with.
#[derive(Debug)]
pub struct Image {
    pub(crate) inner: RgbaImage,
    pub(crate) scaling: Scaling,
    pub(crate) filter: Filter,
}

impl Image {
    pub closed spec fn wf(&self) -> bool {
        self.inner.wf()
    }

    pub closed spec fn spec_pixels(&self) -> Seq<u8> {
        self.inner.data@
    }

    pub closed spec fn spec_width(&self) -> int {
        self.inner.width as int
    }

    pub closed spec fn spec_height(&self) -> int {
        self.inner.height as int
    }

    pub closed spec fn spec_scaling(&self) -> Scaling {
        self.scaling
    }

    pub closed spec fn spec_filter(&self) -> Filter {
        self.filter
    }

    /// Wraps already-decoded pixels with the scaling mode and filter they
    /// will be processed with.
    pub(crate) fn from_parts(inner: RgbaImage, scaling: Scaling, filter: Filter) -> (img: Image)
        ensures
            img.spec_pixels() == inner.data@,
            img.spec_width() == inner.width as int,
            img.spec_height() == inner.height as int,
            img.spec_scaling() == scaling,
            img.spec_filter() == filter,
            inner.wf() ==> img.wf(),
    {
        Image { inner, scaling, filter }
    }

    /// Decodes the file at `path`; the image will be processed with the
    /// given scaling mode and filter.
    pub fn new(path: &str, scaling: Scaling, filter: Filter) -> (r: Result<Image, ImageError>)
        ensures
            r matches Ok(img) ==> img.wf() && img.spec_scaling() == scaling && img.spec_filter()
                == filter,
            r matches Err(e) ==> (e matches ImageError::CouldNotDecode(_) || e matches
                ImageError::ResourceLimit(_) || e matches ImageError::Unsupported(_) || e matches
                ImageError::Io(_) || e matches ImageError::Generic(_)),
    {
        let inner = decode_rgba(path)?;
        Ok(Image { inner, scaling, filter })
    }

    /// Scales the image to the given output geometry; see
    /// [`Scaling::scale`] for the exact contract.
    pub fn process(&self, mode: &ScaledMode) -> (r: Result<Vec<u8>, ImageError>)
        requires
            self.wf(),
        ensures
            r matches Ok(buf) ==> buf@ == spec_scale_output(
                self.spec_scaling(),
                self.spec_pixels(),
                self.spec_width(),
                self.spec_height(),
                mode.width as int,
                mode.height as int,
                self.spec_filter(),
            ) && buf@.len() == 3 * mode.width * mode.height,
            (mode.width < 0 || mode.height < 0) <==> r matches Err(ImageError::Generic(_)),
            (mode.width >= 0 && mode.height >= 0 && spec_oversize(
                self.spec_scaling(),
                self.spec_width(),
                self.spec_height(),
                mode.width as int,
                mode.height as int,
            )) <==> r matches Err(ImageError::ResourceLimit(_)),
            (mode.width >= 0 && mode.height >= 0 && !spec_oversize(
                self.spec_scaling(),
                self.spec_width(),
                self.spec_height(),
                mode.width as int,
                mode.height as int,
            )) ==> r is Ok,
    {
        self.scaling.scale(&self.inner, mode, self.filter)
    }
}

} // verus!
