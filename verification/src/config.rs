//! Display-mode inference and the top-level error taxonomy.

use vstd::prelude::*;
use vstd::string::StringSliceAdditionalSpecFns;

use crate::image::error::ImageError;
use crate::metadata::MetadataError;

verus! {

/// Whether a wallpaper is a single still image or a timed schedule.
#[derive(Debug, Clone, Copy, PartialEq, Eq, Structural)]
pub enum Mode {
    Static,
    Dynamic,
}

/// A fatal or propagated failure of the engine.
#[derive(Debug)]
pub enum ApplicationError {
    /// Image decoding or scaling failed.
    ErrorWhileImageProcessing(ImageError),
    /// Reading or querying the schedule failed.
    MetadataError(MetadataError),
    /// The file type could not be determined from the path.
    InvalidDataType,
    /// A GPU-interface call failed; the payload names the place and cause.
    EGL(String, String),
    /// GPU-interface setup failed.
    EGLSetup(String),
    /// A lock was poisoned; the payload names the place.
    LockedOut(String),
    /// An I/O failure; the payload names the place and cause.
    Io(String, String),
    /// The display-server connection could not be established.
    WaylandConnection(String),
    /// A mandatory protocol object could not be initialized.
    WaylandObject(String),
    /// An output was used before its properties were complete.
    OutputDataNotReady,
    /// The path does not name an existing file.
    NotAFile(String),
}

/// The byte with an ASCII capital letter folded to lower case.
pub open spec fn lower_byte(b: u8) -> u8 {
    if 65 <= b <= 90 {
        (b + 32) as u8
    } else {
        b
    }
}

/// The byte string ends with `ext`, compared ASCII-case-insensitively.
pub open spec fn suffix_matches(bytes: Seq<u8>, ext: Seq<u8>) -> bool {
    bytes.len() >= ext.len() && forall|i: int|
        0 <= i < ext.len() ==> lower_byte(bytes[bytes.len() - ext.len() + i]) == #[trigger] ext[i]
}

/// The path (as UTF-8 bytes) names a schedule description document.
pub open spec fn is_xml_path(bytes: Seq<u8>) -> bool {
    suffix_matches(bytes, seq![46u8, 120u8, 109u8, 108u8])
}

/// The path (as UTF-8 bytes) ends in one of the recognised still-image
/// extensions.
pub open spec fn is_image_path(bytes: Seq<u8>) -> bool {
    ||| suffix_matches(bytes, seq![46u8, 112u8, 110u8, 103u8])
    ||| suffix_matches(bytes, seq![46u8, 106u8, 112u8, 103u8])
    ||| suffix_matches(bytes, seq![46u8, 106u8, 112u8, 101u8, 103u8])
    ||| suffix_matches(bytes, seq![46u8, 103u8, 105u8, 102u8])
    ||| suffix_matches(bytes, seq![46u8, 119u8, 101u8, 98u8, 112u8])
    ||| suffix_matches(bytes, seq![46u8, 102u8, 97u8, 114u8, 98u8, 102u8, 101u8, 108u8, 100u8])
    ||| suffix_matches(bytes, seq![46u8, 116u8, 105u8, 102u8])
    ||| suffix_matches(bytes, seq![46u8, 116u8, 105u8, 102u8, 102u8])
    ||| suffix_matches(bytes, seq![46u8, 98u8, 109u8, 112u8])
    ||| suffix_matches(bytes, seq![46u8, 105u8, 99u8, 111u8])
}

/// Folds one ASCII capital letter to lower case.
fn lower_byte_exec(b: u8) -> (r: u8)
    ensures
        r == lower_byte(b),
{
    if 65 <= b && b <= 90 {
        b + 32
    } else {
        b
    }
}

/// Whether `bytes` ends with `ext`, ASCII-case-insensitively.
#[verifier::loop_isolation(false)]
fn has_suffix_ci(bytes: &Vec<u8>, ext: &Vec<u8>) -> (r: bool)
    ensures
        r == suffix_matches(bytes@, ext@),
{
    if bytes.len() < ext.len() {
        return false;
    }
    let start: usize = bytes.len() - ext.len();
    let mut i: usize = 0;
    while i < ext.len()
        invariant
            i <= ext@.len(),
            forall|j: int| 0 <= j < i ==> lower_byte(bytes@[start + j]) == #[trigger] ext@[j],
        decreases ext@.len() - i,
    {
        if lower_byte_exec(bytes[start + i]) != ext[i] {
            return false;
        }
        i = i + 1;
    }
    true
}

/// The display mode a path gets: an explicit choice wins; otherwise a
/// `.xml` path is a dynamic schedule, a path with a recognised image
/// extension is a single still, and anything else cannot be typed.
pub open spec fn spec_determine_mode(bytes: Seq<u8>, explicit: Option<Mode>) -> Option<Mode> {
    match explicit {
        Some(m) => Some(m),
        None => if is_xml_path(bytes) {
            Some(Mode::Dynamic)
        } else if is_image_path(bytes) {
            Some(Mode::Static)
        } else {
            None
        },
    }
}

/// Picks the display mode; exactly [`spec_determine_mode`], with an
/// untypeable path rejected.
pub fn determine_mode(path: &str, explicit: Option<Mode>) -> (r: Result<Mode, ApplicationError>)
    ensures
        match spec_determine_mode(path.spec_bytes(), explicit) {
            Some(m) => r matches Ok(m2) && m2 == m,
            None => r matches Err(ApplicationError::InvalidDataType),
        },
{
    match explicit {
        Some(m) => Ok(m),
        None => {
            let bytes = path.as_bytes_vec();
            let xml: Vec<u8> = vec![46u8, 120u8, 109u8, 108u8];
            if has_suffix_ci(&bytes, &xml) {
                return Ok(Mode::Dynamic);
            }
            let png: Vec<u8> = vec![46u8, 112u8, 110u8, 103u8];
            let jpg: Vec<u8> = vec![46u8, 106u8, 112u8, 103u8];
            let jpeg: Vec<u8> = vec![46u8, 106u8, 112u8, 101u8, 103u8];
            let gif: Vec<u8> = vec![46u8, 103u8, 105u8, 102u8];
            let webp: Vec<u8> = vec![46u8, 119u8, 101u8, 98u8, 112u8];
            let farbfeld: Vec<u8> = vec![
                46u8,
                102u8,
                97u8,
                114u8,
                98u8,
                102u8,
                101u8,
                108u8,
                100u8,
            ];
            let tif: Vec<u8> = vec![46u8, 116u8, 105u8, 102u8];
            let tiff: Vec<u8> = vec![46u8, 116u8, 105u8, 102u8, 102u8];
            let bmp: Vec<u8> = vec![46u8, 98u8, 109u8, 112u8];
            let ico: Vec<u8> = vec![46u8, 105u8, 99u8, 111u8];
            let still = has_suffix_ci(&bytes, &png) || has_suffix_ci(&bytes, &jpg)
                || has_suffix_ci(&bytes, &jpeg) || has_suffix_ci(&bytes, &gif) || has_suffix_ci(
                &bytes,
                &webp,
            ) || has_suffix_ci(&bytes, &farbfeld) || has_suffix_ci(&bytes, &tif) || has_suffix_ci(
                &bytes,
                &tiff,
            ) || has_suffix_ci(&bytes, &bmp) || has_suffix_ci(&bytes, &ico);
            if still {
                Ok(Mode::Static)
            } else {
                Err(ApplicationError::InvalidDataType)
            }
        },
    }
}

} // verus!
