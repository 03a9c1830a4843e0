//! Preparing the bytes of an image for the vision model.
//!
//! The `image` crate reads, turns, resamples and writes the pixels; this module decides what
//! is done to them. What is said of the crate holds with its own decoders: a process that
//! registers decoding hooks with it changes what it reads.

use super::budget::image_tokens;
use super::fit::{
    fit_dimensions, fitted, law_fit_keeps_what_fits, law_fit_never_enlarges, law_fit_symmetric,
    law_fit_within_budget, law_image_tokens_symmetric,
};
use image::{DynamicImage, ImageDecoder};
use vstd::prelude::*;

verus! {

/// JPEG quality of an image that is encoded again, out of 100.
pub const JPEG_QUALITY: u8 = 90;

/// The longest side that the JPEG format can express.
pub const MAX_JPEG_SIDE: u32 = 65535;

/// EXIF orientation of an upright image.
pub const UPRIGHT: u8 = 1;

#[verifier::external_type_specification]
#[verifier::external_body]
pub struct ExDynamicImage(image::DynamicImage);

/// Width and height that the header of an encoded image states; nothing if the format is not
/// recognised or the header cannot be read.
pub uninterp spec fn image_header_size(bytes: Seq<u8>) -> Option<(u32, u32)>;

/// EXIF orientation that an encoded image states; nothing if the format is not recognised or
/// the metadata cannot be read.
pub uninterp spec fn image_orientation(bytes: Seq<u8>) -> Option<u8>;

/// Whether the bytes can be decoded as an image.
pub uninterp spec fn image_decodes(bytes: Seq<u8>) -> bool;

/// Whether decoding the bytes may give `img`. Decoders use the vector instructions that the
/// machine has, so this relates a file to what it decodes to without fixing every pixel.
pub uninterp spec fn is_decoding(bytes: Seq<u8>, img: image::DynamicImage) -> bool;

/// Width and height of a decoded image.
pub uninterp spec fn image_size(img: image::DynamicImage) -> (u32, u32);

/// A decoded image turned and flipped as an EXIF orientation asks.
pub uninterp spec fn upright_image(img: image::DynamicImage, exif: u8) -> image::DynamicImage;

/// Whether resampling `img` to `w` by `h` pixels with the Catmull-Rom filter may give `out`. The
/// filter is computed in floating point, with fused multiplication where the build has it, so
/// this relates the two images without fixing every pixel.
pub uninterp spec fn is_resampling(
    img: image::DynamicImage,
    w: u32,
    h: u32,
    out: image::DynamicImage,
) -> bool;

/// The JPEG file of a decoded image at a quality.
pub uninterp spec fn jpeg_encoding(img: image::DynamicImage, quality: u8) -> Seq<u8>;

/// `image::ImageReader::into_dimensions`, for the format guessed from the first bytes: the
/// size in the header, and nothing where either step fails.
#[verifier::external_body]
fn read_header_size(bytes: &[u8]) -> (r: Option<(u32, u32)>)
    ensures
        r == image_header_size(bytes@),
{
    match image::ImageReader::new(std::io::Cursor::new(bytes)).with_guessed_format() {
        Ok(reader) => reader.into_dimensions().ok(),
        Err(_) => None,
    }
}

/// `image::ImageDecoder::orientation`, for the format guessed from the first bytes: the EXIF
/// value, from 1 to 8, of the orientation in the metadata, which is 1 where the metadata state
/// none, and nothing where a step fails.
#[verifier::external_body]
fn read_orientation(bytes: &[u8]) -> (r: Option<u8>)
    ensures
        r == image_orientation(bytes@),
        r matches Some(exif) ==> 1 <= exif <= 8,
{
    match image::ImageReader::new(std::io::Cursor::new(bytes)).with_guessed_format() {
        Ok(reader) => match reader.into_decoder() {
            Ok(mut decoder) => decoder.orientation().ok().map(|o| o.to_exif()),
            Err(_) => None,
        },
        Err(_) => None,
    }
}

/// `image::load_from_memory`: a decoding of the bytes, of the size that the header states.
/// Which pixels it has is left unsaid.
#[verifier::external_body]
fn decode_image(bytes: &[u8]) -> (r: Option<DynamicImage>)
    ensures
        r is Some == image_decodes(bytes@),
        r matches Some(img) ==> is_decoding(bytes@, img),
        r matches Some(img) ==> image_header_size(bytes@) == Some(image_size(img)),
{
    image::load_from_memory(bytes).ok()
}

/// `image::DynamicImage::width`: the first component of the size.
pub assume_specification[ image::DynamicImage::width ](img: &image::DynamicImage) -> (r: u32)
    ensures
        r == image_size(*img).0,
;

/// `image::DynamicImage::height`: the second component of the size.
pub assume_specification[ image::DynamicImage::height ](img: &image::DynamicImage) -> (r: u32)
    ensures
        r == image_size(*img).1,
;

/// Width and height after an image is turned upright: orientations 5 to 8 swap the axes.
pub open spec fn upright_size(size: (u32, u32), exif: u8) -> (u32, u32) {
    if 5 <= exif <= 8 {
        (size.1, size.0)
    } else {
        size
    }
}

/// `image::DynamicImage::apply_orientation` with `image::metadata::Orientation::from_exif`:
/// moves the pixels as the orientation asks, and leaves the image alone where the value is 1
/// or no EXIF orientation.
#[verifier::external_body]
fn turn_upright(img: DynamicImage, exif: u8) -> (r: DynamicImage)
    ensures
        r == upright_image(img, exif),
        image_size(r) == upright_size(image_size(img), exif),
        !(2 <= exif <= 8) ==> r == img,
{
    let mut img = img;
    if let Some(orientation) = image::metadata::Orientation::from_exif(exif) {
        img.apply_orientation(orientation);
    }
    img
}

/// Whether JPEG can express a size.
pub open spec fn jpeg_expressible(size: (u32, u32)) -> bool {
    1 <= size.0 <= MAX_JPEG_SIDE && 1 <= size.1 <= MAX_JPEG_SIDE
}

/// `image::DynamicImage::resize_exact` with the Catmull-Rom filter: the image resampled to the
/// size asked for. Which pixels it has is left unsaid. The bounds on the size keep the positions
/// of the filter, which are computed in 24 bits, within the image, and the buffers within what a
/// vector can hold on a 64-bit machine.
#[verifier::external_body]
fn resample_catmull_rom(img: &DynamicImage, w: u32, h: u32) -> (r: DynamicImage)
    requires
        jpeg_expressible((w, h)),
    ensures
        is_resampling(*img, w, h, r),
        image_size(r) == (w, h),
{
    img.resize_exact(w, h, image::imageops::FilterType::CatmullRom)
}

/// `image::ImageBuffer::write_with_encoder` with `image::codecs::jpeg::JpegEncoder`, on the
/// image in RGB: writes every image whose size JPEG can express, and the header of the file
/// states that size.
#[verifier::external_body]
fn encode_jpeg(img: &DynamicImage, quality: u8) -> (r: Option<Vec<u8>>)
    ensures
        r is Some == jpeg_expressible(image_size(*img)),
        r matches Some(bytes) ==> bytes@ == jpeg_encoding(*img, quality),
        r matches Some(bytes) ==> image_header_size(bytes@) == Some(image_size(*img)),
{
    let mut buf = std::io::Cursor::new(Vec::new());
    let encoder = image::codecs::jpeg::JpegEncoder::new_with_quality(&mut buf, quality);
    match img.to_rgb8().write_with_encoder(encoder) {
        Ok(()) => Some(buf.into_inner()),
        Err(_) => None,
    }
}

/// The size at which an image is sent under a budget.
pub open spec fn fitted_size(size: (u32, u32), max_tokens: u32) -> (u32, u32) {
    let r = fitted(size.0 as int, size.1 as int, max_tokens as int);
    (r.0 as u32, r.1 as u32)
}

/// Whether a file is sent as it is: its header cannot be read, or it fits and is upright.
pub open spec fn is_sent_unchanged(
    header: Option<(u32, u32)>,
    orientation: u8,
    max_tokens: u32,
) -> bool {
    match header {
        Some(size) => fitted_size(size, max_tokens) == size && orientation <= 1,
        None => true,
    }
}

/// Whether `out` is the image `img` resampled to its fitted size; one that fits already is kept.
pub open spec fn is_fitted_image(img: DynamicImage, max_tokens: u32, out: DynamicImage) -> bool {
    let size = fitted_size(image_size(img), max_tokens);
    image_size(out) == size && if size == image_size(img) {
        out == img
    } else {
        is_resampling(img, size.0, size.1, out)
    }
}

/// Whether `bytes` is what is sent for a decoded image: the JPEG file of the upright image at
/// its fitted size, or the original file where JPEG cannot express that size.
pub open spec fn is_prepared(
    original: Seq<u8>,
    img: DynamicImage,
    orientation: u8,
    max_tokens: u32,
    bytes: Seq<u8>,
) -> bool {
    let upright = upright_image(img, orientation);
    &&& image_size(upright) == upright_size(image_size(img), orientation)
    &&& if jpeg_expressible(fitted_size(image_size(upright), max_tokens)) {
        exists|out: DynamicImage|
            is_fitted_image(upright, max_tokens, out) && bytes == #[trigger] jpeg_encoding(
                out,
                JPEG_QUALITY,
            )
    } else {
        bytes == original
    }
}

/// Decides from the header whether a file is sent as it is.
pub fn sent_unchanged(header: Option<(u32, u32)>, orientation: u8, max_tokens: u32) -> (r: bool)
    ensures
        r == is_sent_unchanged(header, orientation, max_tokens),
{
    match header {
        Some((w, h)) => {
            let (tw, th): (u32, u32) = fit_dimensions(w, h, max_tokens);
            tw == w && th == h && orientation <= 1
        },
        None => true,
    }
}

/// The bytes to send for an image that was decoded from the file `original`.
pub fn prepare_decoded(
    original: Vec<u8>,
    img: DynamicImage,
    orientation: u8,
    max_tokens: u32,
) -> (r: Vec<u8>)
    ensures
        is_prepared(original@, img, orientation, max_tokens, r@),
        ({
            let size = fitted_size(upright_size(image_size(img), orientation), max_tokens);
            if jpeg_expressible(size) {
                image_header_size(r@) == Some(size)
            } else {
                r@ == original@
            }
        }),
{
    let upright: DynamicImage = turn_upright(img, orientation);
    let (w, h): (u32, u32) = (upright.width(), upright.height());
    let (tw, th): (u32, u32) = fit_dimensions(w, h, max_tokens);
    if tw < 1 || tw > MAX_JPEG_SIDE || th < 1 || th > MAX_JPEG_SIDE {
        return original;
    }
    let out: DynamicImage = if tw != w || th != h {
        resample_catmull_rom(&upright, tw, th)
    } else {
        upright
    };
    match encode_jpeg(&out, JPEG_QUALITY) {
        Some(bytes) => bytes,
        None => original,
    }
}

/// What preparing the file `original` comes to. It is sent as it is where its header says so
/// or it cannot be decoded. Else `bytes` is prepared from a decoding of it, of the size in the
/// header, and its own header states the fitted size.
pub open spec fn prepares(
    original: Seq<u8>,
    orientation: u8,
    max_tokens: u32,
    bytes: Seq<u8>,
) -> bool {
    let header = image_header_size(original);
    if is_sent_unchanged(header, orientation, max_tokens) || !image_decodes(original) {
        bytes == original
    } else {
        let size = fitted_size(upright_size(header->0, orientation), max_tokens);
        &&& exists|img: DynamicImage|
            is_decoding(original, img) && header == Some(image_size(img)) && #[trigger] is_prepared(
                original,
                img,
                orientation,
                max_tokens,
                bytes,
            )
        &&& if jpeg_expressible(size) {
            image_header_size(bytes) == Some(size)
        } else {
            bytes == original
        }
    }
}

/// Bytes to send to the vision model for the file `original`, whose EXIF orientation is
/// `orientation`.
///
/// Images above `max_tokens`, or with a non-default orientation, are decoded, turned upright,
/// scaled down to fit and encoded again as JPEG. Anything that cannot be decoded is sent as it
/// is.
pub fn prepare_oriented(original: Vec<u8>, orientation: u8, max_tokens: u32) -> (r: Vec<u8>)
    ensures
        prepares(original@, orientation, max_tokens, r@),
{
    if sent_unchanged(read_header_size(&original), orientation, max_tokens) {
        return original;
    }
    match decode_image(&original) {
        Some(img) => prepare_decoded(original, img, orientation, max_tokens),
        None => original,
    }
}

/// The EXIF orientation of a file; upright where none can be read.
pub open spec fn orientation_of(bytes: Seq<u8>) -> u8 {
    match image_orientation(bytes) {
        Some(exif) => exif,
        None => UPRIGHT,
    }
}

/// The EXIF orientation of a file; upright where none can be read.
pub fn extract_orientation(bytes: &[u8]) -> (r: u8)
    ensures
        r == orientation_of(bytes@),
        1 <= r <= 8,
{
    match read_orientation(bytes) {
        Some(exif) => exif,
        None => UPRIGHT,
    }
}

/// Bytes to send to the vision model for the file `original`: those of [`prepare_oriented`] for
/// the orientation that the file states.
pub fn prepare_image_bytes(original: Vec<u8>, max_tokens: u32) -> (r: Vec<u8>)
    ensures
        prepares(original@, orientation_of(original@), max_tokens, r@),
        image_orientation(original@) matches Some(exif) ==> prepares(
            original@,
            exif,
            max_tokens,
            r@,
        ),
        image_orientation(original@) is None ==> prepares(original@, 1, max_tokens, r@),
{
    let orientation: u8 = extract_orientation(&original);
    prepare_oriented(original, orientation, max_tokens)
}

/// Law: turning an image upright and fitting it come to the same size in either order.
pub proof fn law_upright_and_fit_commute(size: (u32, u32), orientation: u8, max_tokens: u32)
    ensures
        fitted_size(upright_size(size, orientation), max_tokens) == upright_size(
            fitted_size(size, max_tokens),
            orientation,
        ),
{
    law_fit_symmetric(size.0 as int, size.1 as int, max_tokens as int);
}

/// Law: an image that can be decoded costs at most the budget when it is sent, if it fits as it
/// is, or if the budget has a token and JPEG can express the fitted size.
pub proof fn law_sent_within_budget(
    original: Seq<u8>,
    size: (u32, u32),
    orientation: u8,
    max_tokens: u32,
    bytes: Seq<u8>,
)
    requires
        image_header_size(original) == Some(size),
        image_decodes(original),
        image_tokens(size.0 as int, size.1 as int) <= max_tokens || (max_tokens >= 1
            && jpeg_expressible(fitted_size(size, max_tokens))),
        prepares(original, orientation, max_tokens, bytes),
    ensures
        image_header_size(bytes) matches Some(sent) && image_tokens(sent.0 as int, sent.1 as int)
            <= max_tokens,
{
    let (w, h, max) = (size.0 as int, size.1 as int, max_tokens as int);
    if max >= 1 {
        law_fit_within_budget(w, h, max);
    }
    law_fit_never_enlarges(w, h, max);
    law_upright_and_fit_commute(size, orientation, max_tokens);
    let r = fitted(w, h, max);
    law_image_tokens_symmetric(r.0, r.1);
    if image_tokens(w, h) <= max {
        law_fit_keeps_what_fits(w, h, max);
    }
}

/// Law: a file that is sent otherwise than it is states at most its own upright size.
pub proof fn law_sent_never_enlarged(
    original: Seq<u8>,
    size: (u32, u32),
    orientation: u8,
    max_tokens: u32,
    bytes: Seq<u8>,
)
    requires
        image_header_size(original) == Some(size),
        prepares(original, orientation, max_tokens, bytes),
        bytes != original,
    ensures
        image_header_size(bytes) matches Some(sent) && sent.0 <= upright_size(size, orientation).0
            && sent.1 <= upright_size(size, orientation).1,
{
    let upright = upright_size(size, orientation);
    law_fit_never_enlarges(upright.0 as int, upright.1 as int, max_tokens as int);
}

/// Law: a file is sent as it is where its header cannot be read, where it cannot be decoded, and
/// where it is upright and within the budget, or cannot be scaled down any further.
pub proof fn law_passed_through(
    original: Seq<u8>,
    orientation: u8,
    max_tokens: u32,
    bytes: Seq<u8>,
)
    requires
        prepares(original, orientation, max_tokens, bytes),
        image_header_size(original) is None || !image_decodes(original) || (image_header_size(
            original,
        ) matches Some(size) && orientation <= 1 && (image_tokens(size.0 as int, size.1 as int)
            <= max_tokens || fitted(size.0 as int, size.1 as int, max_tokens as int) == (
            size.0 as int,
            size.1 as int,
        ))),
    ensures
        bytes == original,
{
    if image_header_size(original) is Some && image_decodes(original) {
        let size = image_header_size(original)->0;
        if image_tokens(size.0 as int, size.1 as int) <= max_tokens {
            law_fit_keeps_what_fits(size.0 as int, size.1 as int, max_tokens as int);
        }
    }
}

/// Law: the header alone decides whether a file may be sent as it is. Without a readable header
/// it is. With one it is if and only if it is upright and scaling it down to the budget would
/// leave its size as it is.
pub proof fn law_header_decides(w: u32, h: u32, orientation: u8, max_tokens: u32)
    ensures
        is_sent_unchanged(None, orientation, max_tokens),
        is_sent_unchanged(Some((w, h)), orientation, max_tokens) <==> orientation <= 1 && fitted(
            w as int,
            h as int,
            max_tokens as int,
        ) == (w as int, h as int),
{
    law_fit_never_enlarges(w as int, h as int, max_tokens as int);
}

/// Law: whatever is made of a decoded image is made of the image turned by the very orientation
/// given, whatever that is, and whether or not the image is scaled. If the upright image has
/// `uw` by `uh` pixels and fits at `tw` by `th`, then what is sent is the JPEG file, at quality
/// 90, of the upright image itself, where it fits, or of the upright image resampled to that
/// size. Only where JPEG cannot express the size is it the original file.
pub proof fn law_decoded_is_sent_upright(
    original: Seq<u8>,
    img: DynamicImage,
    orientation: u8,
    max_tokens: u32,
    upright: (u32, u32),
    sent: (u32, u32),
    bytes: Seq<u8>,
)
    requires
        is_prepared(original, img, orientation, max_tokens, bytes),
        upright == (if 5 <= orientation <= 8 {
            (image_size(img).1, image_size(img).0)
        } else {
            image_size(img)
        }),
        (sent.0 as int, sent.1 as int) == fitted(
            upright.0 as int,
            upright.1 as int,
            max_tokens as int,
        ),
    ensures
        1 <= sent.0 <= 65535 && 1 <= sent.1 <= 65535 ==> exists|out: DynamicImage|
            #![trigger jpeg_encoding(out, 90)]
            {
                &&& bytes == jpeg_encoding(out, 90)
                &&& image_size(out) == sent
                &&& sent == upright ==> out == upright_image(img, orientation)
                &&& sent != upright ==> is_resampling(
                    upright_image(img, orientation),
                    sent.0,
                    sent.1,
                    out,
                )
            },
        !(1 <= sent.0 <= 65535 && 1 <= sent.1 <= 65535) ==> bytes == original,
{
    let turned = upright_image(img, orientation);
    assert(image_size(turned) == upright);
    assert(fitted_size(upright, max_tokens) == sent);
    if jpeg_expressible(sent) {
        let out = choose|out: DynamicImage|
            is_fitted_image(turned, max_tokens, out) && bytes == #[trigger] jpeg_encoding(
                out,
                JPEG_QUALITY,
            );
        assert(bytes == jpeg_encoding(out, 90));
    }
}

/// Law: a photo is sent upright. If a file of `size` pixels can be decoded, and is turned or does
/// not fit as it is, then it is decoded, turned by the very orientation given, resampled to the
/// size at which it fits, unless it has that size, and encoded as JPEG at quality 90.
pub proof fn law_photo_is_sent_upright(
    original: Seq<u8>,
    size: (u32, u32),
    orientation: u8,
    max_tokens: u32,
    upright: (u32, u32),
    sent: (u32, u32),
    bytes: Seq<u8>,
)
    requires
        prepares(original, orientation, max_tokens, bytes),
        image_header_size(original) == Some(size),
        image_decodes(original),
        upright == (if 5 <= orientation <= 8 {
            (size.1, size.0)
        } else {
            size
        }),
        (sent.0 as int, sent.1 as int) == fitted(
            upright.0 as int,
            upright.1 as int,
            max_tokens as int,
        ),
        orientation >= 2 || sent != upright,
    ensures
        1 <= sent.0 <= 65535 && 1 <= sent.1 <= 65535 ==> exists|
            img: DynamicImage,
            out: DynamicImage,
        |
            #![trigger is_decoding(original, img), jpeg_encoding(out, 90)]
            {
                &&& is_decoding(original, img)
                &&& image_size(img) == size
                &&& bytes == jpeg_encoding(out, 90)
                &&& image_size(out) == sent
                &&& sent == upright ==> out == upright_image(img, orientation)
                &&& sent != upright ==> is_resampling(
                    upright_image(img, orientation),
                    sent.0,
                    sent.1,
                    out,
                )
            },
        1 <= sent.0 <= 65535 && 1 <= sent.1 <= 65535 ==> image_header_size(bytes) == Some(sent),
        !(1 <= sent.0 <= 65535 && 1 <= sent.1 <= 65535) ==> bytes == original,
{
    law_upright_and_fit_commute(size, orientation, max_tokens);
    law_fit_never_enlarges(size.0 as int, size.1 as int, max_tokens as int);
    law_fit_never_enlarges(upright.0 as int, upright.1 as int, max_tokens as int);
    assert(fitted_size(upright, max_tokens) == sent);
    assert(!is_sent_unchanged(Some(size), orientation, max_tokens));
    let img = choose|img: DynamicImage|
        is_decoding(original, img) && Some(size) == Some(image_size(img))
            && #[trigger] is_prepared(original, img, orientation, max_tokens, bytes);
    assert(is_prepared(original, img, orientation, max_tokens, bytes));
    law_decoded_is_sent_upright(original, img, orientation, max_tokens, upright, sent, bytes);
    if 1 <= sent.0 <= 65535 && 1 <= sent.1 <= 65535 {
        let out = choose|out: DynamicImage|
            #![trigger jpeg_encoding(out, 90)]
            {
                &&& bytes == jpeg_encoding(out, 90)
                &&& image_size(out) == sent
                &&& sent == upright ==> out == upright_image(img, orientation)
                &&& sent != upright ==> is_resampling(
                    upright_image(img, orientation),
                    sent.0,
                    sent.1,
                    out,
                )
            };
        assert(is_decoding(original, img) && bytes == jpeg_encoding(out, 90));
    }
}

/// Law: a file is turned by the orientation that it states, and not at all where none can be
/// read.
pub proof fn law_own_orientation(bytes: Seq<u8>)
    ensures
        image_orientation(bytes) matches Some(exif) ==> orientation_of(bytes) == exif,
        image_orientation(bytes) is None ==> orientation_of(bytes) == 1,
{
}

} // verus!
