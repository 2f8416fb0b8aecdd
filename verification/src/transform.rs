//! The transform engine: animated assets pass through untouched, still images
//! are decoded, fitted into a square box with their aspect ratio kept, and
//! encoded again as WebP.

use crate::sniff::Classification;
use image::imageops::FilterType;
use image::{DynamicImage, ImageError, ImageFormat};
use std::io::Cursor;
use vstd::prelude::*;
use vstd::slice::*;

verus! {

/// `image::DynamicImage`, a decoded picture. Nothing inside it is visible to
/// the contracts; it is only handed from one call into `image` to the next.
#[verifier::external_type_specification]
#[verifier::external_body]
pub struct ExDynamicImage(image::DynamicImage);

/// `image::ImageError`, the error of every call into `image`. The library
/// tells only success from failure.
#[verifier::external_type_specification]
#[verifier::external_body]
pub struct ExImageError(image::ImageError);

/// Side of the square box that every still image is fitted into.
pub const BOX_SIDE: u32 = 160;

/// Why a still image could not be transformed.
#[derive(Clone, Copy, Debug, PartialEq, Eq, Structural)]
pub enum TransformError {
    /// The source bytes are no image that can be decoded.
    Decode,
    /// The resized picture could not be encoded.
    Encode,
}

/// The encoder refused a picture that the transform may have made of the
/// still image `bytes`: one whose size is the fit into the box of the picture
/// that `bytes` decode to.
pub open spec fn encoder_refused_fit(bytes: Seq<u8>) -> bool {
    exists|samples: Seq<u8>, width: u32, height: u32, channels: u8, pixel_bytes: u8|
        {
            &&& (#[trigger] webp_encoding(samples, width, height, channels, pixel_bytes)) is None
            &&& decoded_size(bytes) matches Some(source)
            &&& source.0 >= 1 && source.1 >= 1 ==> is_box_fit(
                source.0 as int,
                source.1 as int,
                BOX_SIDE as int,
                width as int,
                height as int,
            )
        }
}

/// A decoded picture together with its width and height in pixels, as read
/// from the picture when the value was made. Only `decode_picture` makes one.
struct Picture {
    image: DynamicImage,
    width: u32,
    height: u32,
}

impl Picture {
    /// Width and height in pixels.
    spec fn size(&self) -> (u32, u32) {
        (self.width, self.height)
    }
}

/// A picture fitted into the box, together with what the encoder reads of
/// it: the raw samples, the number of channels and of bytes per pixel, and
/// the width and height. All of it is read from the picture when the value is
/// made. Only `resize_lanczos3` makes one.
struct FittedPicture {
    image: DynamicImage,
    samples: Vec<u8>,
    channels: u8,
    pixel_bytes: u8,
    width: u32,
    height: u32,
}

impl FittedPicture {
    /// Width and height in pixels.
    spec fn size(&self) -> (u32, u32) {
        (self.width, self.height)
    }
}

/// The width and height of the picture that `bytes` decode to, or `None`
/// where they are no image that can be decoded. The format is the one that
/// the built-in signatures give for the leading bytes.
pub uninterp spec fn decoded_size(bytes: Seq<u8>) -> Option<(u32, u32)>;

/// The lossless WebP encoding of a picture given by its raw samples as they
/// lie in memory, its width and height, and its number of channels and of
/// bytes per pixel, or `None` where the encoder refuses it.
pub uninterp spec fn webp_encoding(
    samples: Seq<u8>,
    width: u32,
    height: u32,
    channels: u8,
    pixel_bytes: u8,
) -> Option<Seq<u8>>;

/// The largest width and the largest height that the encoder accepts.
pub const MAX_WEBP_SIDE: u32 = 16384;

/// A width and a height that the encoder accepts.
pub open spec fn is_encodable_size(width: u32, height: u32) -> bool {
    1 <= width <= MAX_WEBP_SIDE && 1 <= height <= MAX_WEBP_SIDE
}

/// `bytes` decode to a picture of at least one pixel.
pub open spec fn has_pixels(bytes: Seq<u8>) -> bool {
    decoded_size(bytes) matches Some(source) && source.0 >= 1 && source.1 >= 1
}

/// `out` is the WebP encoding of some picture of `width` by `height` pixels.
pub open spec fn is_webp_of_size(out: Seq<u8>, width: u32, height: u32) -> bool {
    exists|samples: Seq<u8>, channels: u8, pixel_bytes: u8|
        (#[trigger] webp_encoding(samples, width, height, channels, pixel_bytes)) == Some(out)
}

/// `out` is what the transform may make of the still image `bytes`: the WebP
/// encoding of a picture whose size is the fit into the box of the picture
/// that `bytes` decode to. The pixels of that picture are the resampler's
/// and are not described further.
pub open spec fn is_fitted_encoding(bytes: Seq<u8>, out: Seq<u8>) -> bool {
    exists|width: u32, height: u32|
        {
            &&& #[trigger] is_webp_of_size(out, width, height)
            &&& decoded_size(bytes) matches Some(source)
            &&& source.0 >= 1 && source.1 >= 1 ==> is_box_fit(
                source.0 as int,
                source.1 as int,
                BOX_SIDE as int,
                width as int,
                height as int,
            )
        }
}

/// `x` is `n * side / d` rounded to a nearest integer, a tie going either
/// way, and raised to 1 where that is 0.
pub open spec fn is_scaled_length(x: int, n: int, side: int, d: int) -> bool {
    &&& x >= 1
    &&& {
        ||| -d <= 2 * d * x - 2 * side * n <= d
        ||| x == 1 && 2 * side * n <= d
    }
}

/// `w` by `h` is the fit of a `w0` by `h0` picture into a square box: the
/// longer side becomes `side`, the shorter one is scaled by the same ratio
/// and rounded to a nearest whole pixel, but never below one pixel.
pub open spec fn is_box_fit(w0: int, h0: int, side: int, w: int, h: int) -> bool {
    if w0 >= h0 {
        w == side && is_scaled_length(h, h0, side, w0)
    } else {
        h == side && is_scaled_length(w, w0, side, h0)
    }
}

/// The transform failed with the error `e`.
pub open spec fn failed_with<T>(r: Result<T, TransformError>, e: TransformError) -> bool {
    r matches Err(got) && got == e
}

/// Decodes `bytes`: `image::guess_format` names the format from the leading
/// bytes, by the built-in signatures alone, and
/// `image::load_from_memory_with_format` decodes with the built-in decoder
/// for it. Neither consults the process-wide tables of format and decoder
/// hooks.
///
/// Assumed, not proved: whether decoding succeeds, and the size of the
/// picture, depend on the bytes alone; the contracts call that `decoded_size`.
/// Nothing is claimed of the pixels.
#[verifier::external_body]
fn decode_picture(bytes: &[u8]) -> (r: Result<Picture, ImageError>)
    ensures
        match r {
            Ok(p) => decoded_size(bytes@) == Some(p.size()),
            Err(_) => decoded_size(bytes@) is None,
        },
{
    match image::guess_format(bytes) {
        Err(e) => Err(e),
        Ok(format) => match image::load_from_memory_with_format(bytes, format) {
            Ok(image) => Ok(Picture { width: image.width(), height: image.height(), image }),
            Err(e) => Err(e),
        },
    }
}

/// Resizes with `image::DynamicImage::resize` and the Lanczos filter of
/// window 3, into a square box.
///
/// Assumed, not proved: for a picture of at least one pixel, the result has
/// the size that the crate documents, the largest one that fits the box with
/// the aspect ratio kept. The crate computes it in double precision; for a
/// box side below 65536 the rounding error there is too small to move the
/// result away from a nearest integer. Nothing is claimed of the pixels.
#[verifier::external_body]
fn resize_lanczos3(p: &Picture, side: u32) -> (r: FittedPicture)
    requires
        1 <= side <= 0xFFFF,
    ensures
        p.size().0 >= 1 && p.size().1 >= 1 ==> is_box_fit(
            p.size().0 as int,
            p.size().1 as int,
            side as int,
            r.size().0 as int,
            r.size().1 as int,
        ),
{
    let image = p.image.resize(side, side, FilterType::Lanczos3);
    let color = image.color();
    FittedPicture {
        samples: image.as_bytes().to_vec(),
        channels: color.channel_count(),
        pixel_bytes: color.bytes_per_pixel(),
        width: image.width(),
        height: image.height(),
        image,
    }
}

/// Encodes as WebP with `image::DynamicImage::write_to`.
///
/// Assumed, not proved: whether the encoder succeeds, and the bytes it
/// writes, depend on the picture alone, that is on its samples, its size and
/// its colour type; the contracts call that `webp_encoding`. The encoder
/// draws on no clock, no random number and no hash map's order. It succeeds
/// exactly on a picture whose width and height are both between 1 and 16384:
/// it refuses no other size, it brings every colour type to one it writes,
/// and it writes into memory.
#[verifier::external_body]
fn encode_webp(p: &FittedPicture) -> (r: Result<Vec<u8>, ImageError>)
    ensures
        match r {
            Ok(out) => webp_encoding(p.samples@, p.width, p.height, p.channels, p.pixel_bytes)
                == Some(out@),
            Err(_) => webp_encoding(p.samples@, p.width, p.height, p.channels, p.pixel_bytes)
                is None,
        },
        r is Ok == is_encodable_size(p.width, p.height),
{
    let mut out: Vec<u8> = Vec::new();
    match p.image.write_to(&mut Cursor::new(&mut out), ImageFormat::WebP) {
        Ok(()) => Ok(out),
        Err(e) => Err(e),
    }
}

/// A still image after the transform.
pub struct StillImage {
    /// The encoded bytes.
    pub bytes: Vec<u8>,
    /// Width and height of the source picture.
    pub source_size: (u32, u32),
    /// Width and height of the encoded picture.
    pub size: (u32, u32),
}

/// What the transform returns once the encoder has answered: its bytes, or an
/// encoding fault.
pub fn encode_outcome(encoded: Result<Vec<u8>, ImageError>) -> (r: Result<Vec<u8>, TransformError>)
    ensures
        match encoded {
            Ok(bytes) => r matches Ok(out) && out == bytes,
            Err(_) => failed_with(r, TransformError::Encode),
        },
{
    match encoded {
        Ok(bytes) => Ok(bytes),
        Err(_) => Err(TransformError::Encode),
    }
}

/// Decodes a still image, fits it into the box and encodes it again.
///
/// Decoding fails exactly on the bytes that are no decodable image. A
/// picture of at least one pixel is always transformed: its fit into the box
/// is a size that the encoder accepts. The bytes are the WebP encoding of a
/// picture of the size reported, and the sizes reported are those of the
/// source and of its fit into the box. An encoding fault is left for a
/// decoded picture without pixels, and only where the encoder refused.
pub fn transform_static(bytes: &[u8]) -> (r: Result<StillImage, TransformError>)
    ensures
        failed_with(r, TransformError::Decode) <==> decoded_size(bytes@) is None,
        has_pixels(bytes@) ==> r is Ok,
        failed_with(r, TransformError::Encode) ==> encoder_refused_fit(bytes@),
        r matches Ok(still) ==> {
            &&& decoded_size(bytes@) == Some(still.source_size)
            &&& still.source_size.0 >= 1 && still.source_size.1 >= 1 ==> is_box_fit(
                still.source_size.0 as int,
                still.source_size.1 as int,
                BOX_SIDE as int,
                still.size.0 as int,
                still.size.1 as int,
            )
            &&& is_webp_of_size(still.bytes@, still.size.0, still.size.1)
            &&& is_fitted_encoding(bytes@, still.bytes@)
        },
{
    match decode_picture(bytes) {
        Err(_) => Err(TransformError::Decode),
        Ok(picture) => {
            let fitted = resize_lanczos3(&picture, BOX_SIDE);
            proof {
                if picture.width >= 1 && picture.height >= 1 {
                    lemma_box_fit_is_largest(
                        picture.width as int,
                        picture.height as int,
                        BOX_SIDE as int,
                        fitted.width as int,
                        fitted.height as int,
                    );
                }
            }
            match encode_outcome(encode_webp(&fitted)) {
                Err(e) => {
                    assert(webp_encoding(
                        fitted.samples@,
                        fitted.width,
                        fitted.height,
                        fitted.channels,
                        fitted.pixel_bytes,
                    ) is None);
                    Err(e)
                },
                Ok(out) => {
                    assert(webp_encoding(
                        fitted.samples@,
                        fitted.width,
                        fitted.height,
                        fitted.channels,
                        fitted.pixel_bytes,
                    ) == Some(out@));
                    assert(is_webp_of_size(out@, fitted.width, fitted.height));
                    Ok(
                        StillImage {
                            bytes: out,
                            source_size: (picture.width, picture.height),
                            size: (fitted.width, fitted.height),
                        },
                    )
                },
            }
        },
    }
}

/// Produces the bytes to serve for a fetched asset: the asset itself when it
/// is animated; when it is a still image, the WebP encoding of its fit into
/// the box, never the asset at its own size. A still image of at least one
/// pixel is always transformed.
pub fn transform(bytes: &[u8], classification: Classification) -> (r: Result<
    Vec<u8>,
    TransformError,
>)
    ensures
        classification == Classification::Animated ==> (r matches Ok(out) && out@ == bytes@),
        classification == Classification::Static ==> (failed_with(r, TransformError::Decode)
            <==> decoded_size(bytes@) is None),
        classification == Classification::Static ==> (r matches Ok(out) ==> is_fitted_encoding(
            bytes@,
            out@,
        )),
        classification == Classification::Static && has_pixels(bytes@) ==> r is Ok,
        classification == Classification::Static ==> (failed_with(r, TransformError::Encode)
            ==> encoder_refused_fit(bytes@)),
{
    match classification {
        Classification::Animated => Ok(slice_to_vec(bytes)),
        Classification::Static => match transform_static(bytes) {
            Ok(still) => Ok(still.bytes),
            Err(e) => Err(e),
        },
    }
}

/// The fit into the box is the largest size inside it that keeps the aspect
/// ratio: neither side exceeds the box, one side fills it, and the two
/// sides stand in the source's ratio up to the rounding of the shorter one
/// to a whole pixel (or its raising to one pixel).
pub proof fn lemma_box_fit_is_largest(w0: int, h0: int, side: int, w: int, h: int)
    requires
        w0 >= 1,
        h0 >= 1,
        side >= 1,
        is_box_fit(w0, h0, side, w, h),
    ensures
        1 <= w <= side,
        1 <= h <= side,
        w == side || h == side,
        w0 >= h0 ==> (-w0 <= 2 * (w0 * h - w * h0) <= w0 || h == 1),
        h0 >= w0 ==> (-h0 <= 2 * (h0 * w - h * w0) <= h0 || w == 1),
{
    if w0 >= h0 {
        lemma_scaled_length_fits(h, h0, side, w0);
        assert(2 * (w0 * h - w * h0) == 2 * w0 * h - 2 * side * h0) by (nonlinear_arith)
            requires
                w == side,
        ;
    } else {
        lemma_scaled_length_fits(w, w0, side, h0);
        assert(2 * (h0 * w - h * w0) == 2 * h0 * w - 2 * side * w0) by (nonlinear_arith)
            requires
                h == side,
        ;
    }
    if w0 == h0 {
        // A square source fills the box on both sides.
        assert(h == side) by (nonlinear_arith)
            requires
                w0 >= 1,
                w0 == h0,
                side >= 1,
                -w0 <= 2 * w0 * h - 2 * side * h0 <= w0 || (h == 1 && 2 * side * h0 <= w0),
        ;
    }
}

/// A length scaled by a ratio of at most one stays within the box.
proof fn lemma_scaled_length_fits(x: int, n: int, side: int, d: int)
    requires
        1 <= n <= d,
        side >= 1,
        is_scaled_length(x, n, side, d),
    ensures
        1 <= x <= side,
{
    assert(x <= side) by (nonlinear_arith)
        requires
            1 <= n <= d,
            side >= 1,
            x >= 1,
            2 * d * x - 2 * side * n <= d || x == 1,
    ;
}

} // verus!
