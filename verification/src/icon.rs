//! Tray icon images: checking an RGBA buffer against its size, and encoding
//! it as PNG for AppKit.

use vstd::prelude::*;
use vstd::string::*;
use crate::text::{decimal, decimal_string};

verus! {

/// The byte length of a `width` by `height` RGBA image.
pub open spec fn rgba_len(width: u32, height: u32) -> int {
    width as int * height as int * 4
}

/// Why an RGBA buffer of `len` bytes does not fit `width` by `height`, if it
/// does not.
pub open spec fn rgba_image_error(len: nat, width: u32, height: u32) -> Option<Seq<char>> {
    if width == 0 || height == 0 {
        Some("tray icon size must be non-zero"@)
    } else if rgba_len(width, height) > usize::MAX {
        Some("tray icon size is too large"@)
    } else if len != rgba_len(width, height) {
        Some(
            "tray icon rgba length mismatch: got "@ + decimal(len) + ", expected "@ + decimal(
                rgba_len(width, height) as nat,
            ),
        )
    } else {
        None
    }
}

/// Checks that `rgba` holds exactly one RGBA pixel per point of a non-empty
/// `width` by `height` image whose byte length fits in `usize`.
pub fn validate_rgba_image(rgba: &[u8], width: u32, height: u32) -> (r: Result<(), String>)
    ensures
        match r {
            Ok(_) => rgba_image_error(rgba@.len(), width, height) is None,
            Err(message) => rgba_image_error(rgba@.len(), width, height) == Some(message@),
        },
{
    if width == 0 || height == 0 {
        return Err(String::from_str("tray icon size must be non-zero"));
    }
    let pixels = (width as usize).checked_mul(height as usize);
    let expected = match pixels {
        Some(p) => p.checked_mul(4),
        None => None,
    };
    let expected_len = match expected {
        Some(e) => e,
        None => {
            proof {
                if pixels is Some {
                    assert(rgba_len(width, height) == pixels->0 * 4);
                } else {
                    assert(width as int * height as int > usize::MAX);
                    assert(width as int * height as int * 4 >= width as int * height as int)
                        by (nonlinear_arith);
                }
            }
            return Err(String::from_str("tray icon size is too large"));
        },
    };
    assert(expected_len == rgba_len(width, height));
    if rgba.len() != expected_len {
        let mut message = String::from_str("tray icon rgba length mismatch: got ");
        let got = decimal_string(rgba.len() as u64);
        message.append(got.as_str());
        message.append(", expected ");
        let want = decimal_string(expected_len as u64);
        message.append(want.as_str());
        return Err(message);
    }
    Ok(())
}

/// Decides whether a new tray icon is applied: not while the custom status
/// view is missing (`Ok(false)`); otherwise the buffer is checked, and
/// `Ok(true)` means the update goes ahead.
pub fn check_icon_rgba_update(
    custom_status_view_installed: bool,
    rgba: &[u8],
    width: u32,
    height: u32,
) -> (r: Result<bool, String>)
    ensures
        !custom_status_view_installed ==> r == Ok::<bool, String>(false),
        custom_status_view_installed ==> match r {
            Ok(apply) => apply && rgba_image_error(rgba@.len(), width, height) is None,
            Err(message) => rgba_image_error(rgba@.len(), width, height) == Some(message@),
        },
{
    if !custom_status_view_installed {
        return Ok(false);
    }
    match validate_rgba_image(rgba, width, height) {
        Ok(()) => Ok(true),
        Err(message) => Err(message),
    }
}

/// Where PNG encoding failed, with the encoder's message.
#[derive(Debug)]
pub enum PngEncodeFailure {
    Header(String),
    ImageData(String),
}

/// What the `png` crate's encoder makes of an 8-bit RGBA image: the PNG
/// bytes, or where it failed (`true`: writing the header) and its message.
pub uninterp spec fn png_rgba8_encoding(rgba: Seq<u8>, width: u32, height: u32) -> Result<Seq<u8>, (bool, Seq<char>)>;

/// The eight bytes every PNG file starts with.
pub open spec fn png_signature() -> Seq<u8> {
    seq![137u8, 80u8, 78u8, 71u8, 13u8, 10u8, 26u8, 10u8]
}

/// Encodes an 8-bit RGBA image with `png::Encoder` into a buffer: header,
/// then image data, then the end chunk as the writer drops. Claimed, from the
/// crate's source: the outcome is `png_rgba8_encoding` of the arguments; the
/// header fails on a zero width or height; the image data fails when the
/// buffer is not 4 bytes per pixel; both succeed otherwise (writing to a
/// `Vec` does not fail); and the output starts with the PNG signature.
/// Images whose byte length overflows `usize` are excluded: the encoder's
/// length arithmetic overflows on them.
#[verifier::external_body]
fn png_encode_rgba8(rgba: &[u8], width: u32, height: u32) -> (r: Result<Vec<u8>, PngEncodeFailure>)
    requires
        rgba_len(width, height) <= usize::MAX,
    ensures
        png_rgba8_encoding(rgba@, width, height) == match r {
            Ok(bytes) => Ok(bytes@),
            Err(PngEncodeFailure::Header(message)) => Err((true, message@)),
            Err(PngEncodeFailure::ImageData(message)) => Err((false, message@)),
        },
        width == 0 || height == 0 ==> r matches Err(PngEncodeFailure::Header(_)),
        width != 0 && height != 0 && rgba@.len() != rgba_len(width, height) ==> r matches Err(
            PngEncodeFailure::ImageData(_),
        ),
        width != 0 && height != 0 && rgba@.len() == rgba_len(width, height) ==> r is Ok,
        r matches Ok(bytes) ==> bytes@.len() >= 8 && bytes@.subrange(0, 8) == png_signature(),
{
    let mut png_bytes = Vec::new();
    {
        let mut encoder = png::Encoder::new(std::io::Cursor::new(&mut png_bytes), width, height);
        encoder.set_color(png::ColorType::Rgba);
        encoder.set_depth(png::BitDepth::Eight);
        let mut writer = match encoder.write_header() {
            Ok(writer) => writer,
            Err(error) => return Err(PngEncodeFailure::Header(format!("{error}"))),
        };
        if let Err(error) = writer.write_image_data(rgba) {
            return Err(PngEncodeFailure::ImageData(format!("{error}")));
        }
    }
    Ok(png_bytes)
}

/// The result of encoding, with the encoder's messages prefixed by the stage
/// that failed.
pub open spec fn png_encoding_outcome(rgba: Seq<u8>, width: u32, height: u32) -> Result<Seq<u8>, Seq<char>> {
    match png_rgba8_encoding(rgba, width, height) {
        Ok(bytes) => Ok(bytes),
        Err((true, message)) => Err(png_header_failure_prefix() + message),
        Err((false, message)) => Err(png_data_failure_prefix() + message),
    }
}

/// How the message of a failure to write the PNG header starts.
pub open spec fn png_header_failure_prefix() -> Seq<char> {
    "failed to write tray icon png header: "@
}

/// How the message of a failure to write the PNG image data starts.
pub open spec fn png_data_failure_prefix() -> Seq<char> {
    "failed to write tray icon png data: "@
}

/// Encodes a tray icon's RGBA pixels as a PNG image.
pub fn encode_png_rgba(rgba: &[u8], width: u32, height: u32) -> (r: Result<Vec<u8>, String>)
    requires
        rgba_len(width, height) <= usize::MAX,
    ensures
        png_encoding_outcome(rgba@, width, height) == match r {
            Ok(bytes) => Ok(bytes@),
            Err(message) => Err::<Seq<u8>, Seq<char>>(message@),
        },
        r is Ok <==> rgba_image_error(rgba@.len(), width, height) is None,
        width == 0 || height == 0 ==> (r matches Err(message)
            && png_header_failure_prefix().is_prefix_of(message@)),
        width != 0 && height != 0 && rgba@.len() != rgba_len(width, height) ==> (r matches Err(
            message,
        ) && png_data_failure_prefix().is_prefix_of(message@)),
        r matches Ok(bytes) ==> bytes@.len() >= 8 && bytes@.subrange(0, 8) == png_signature(),
{
    match png_encode_rgba8(rgba, width, height) {
        Ok(bytes) => Ok(bytes),
        Err(PngEncodeFailure::Header(text)) => {
            let mut message = String::from_str("failed to write tray icon png header: ");
            message.append(text.as_str());
            proof {
                reveal_strlit("failed to write tray icon png header: ");
                assert(("failed to write tray icon png header: "@ + text@).subrange(
                    0,
                    png_header_failure_prefix().len() as int,
                ) =~= png_header_failure_prefix());
            }
            Err(message)
        },
        Err(PngEncodeFailure::ImageData(text)) => {
            let mut message = String::from_str("failed to write tray icon png data: ");
            message.append(text.as_str());
            proof {
                reveal_strlit("failed to write tray icon png data: ");
                assert(("failed to write tray icon png data: "@ + text@).subrange(
                    0,
                    png_data_failure_prefix().len() as int,
                ) =~= png_data_failure_prefix());
            }
            Err(message)
        },
    }
}

} // verus!

verus! {

/// A buffer is accepted exactly when the image is non-empty, its byte length
/// fits in `usize`, and the buffer holds four bytes per pixel.
pub proof fn lemma_rgba_image_accepted_iff_exact(len: nat, width: u32, height: u32)
    ensures
        rgba_image_error(len, width, height) is None <==> (width > 0 && height > 0 && rgba_len(
            width,
            height,
        ) <= usize::MAX && len == rgba_len(width, height)),
{
}

} // verus!
