//! Assembling a tall page's screenshot from its slices.

use vstd::prelude::*;
use vstd::string::to_string_from_display_ensures;

use image::{GenericImage, ImageError, ImageFormat, RgbaImage};

use crate::error::AppError;
use crate::text::{decimal, push_decimal, starts_with, starts_with_concat};

verus! {

/// An RGBA image held in memory (an `image::RgbaImage`).
#[verifier::external_body]
pub struct Bitmap {
    image: RgbaImage,
}

/// `image::ImageError`, why an image operation failed.
#[verifier::external_type_specification]
#[verifier::external_body]
pub struct ExImageError(ImageError);

/// A pixel's red, green, blue and alpha channels.
pub type Channels = (u8, u8, u8, u8);

/// The pixels that an image holds, by column and row.
pub uninterp spec fn image_pixels(image: Bitmap) -> Map<(u32, u32), Channels>;

/// The width and height that an image was made with.
pub uninterp spec fn image_dimensions(image: Bitmap) -> (u32, u32);

/// The size and pixels of the image that `image::load_from_memory_with_format`
/// decodes from PNG bytes, converted to RGBA by `DynamicImage::into_rgba8`;
/// `None` when the bytes do not decode.
pub uninterp spec fn decoded_png(png: Seq<u8>) -> Option<((u32, u32), Map<(u32, u32), Channels>)>;

/// The PNG bytes that `ImageBuffer::write_to` with `ImageFormat::Png` writes
/// for an RGBA image of size `dimensions` and pixels `pixels`; `None` when
/// encoding fails.
pub uninterp spec fn encoded_png(dimensions: (u32, u32), pixels: Map<(u32, u32), Channels>) -> Option<
    Seq<u8>,
>;

/// The positions of a `width` by `height` image.
pub open spec fn in_raster(width: u32, height: u32, p: (u32, u32)) -> bool {
    p.0 < width && p.1 < height
}

/// Whether an image holds exactly one pixel at each position of its size.
pub open spec fn is_raster(image: Bitmap) -> bool {
    let (w, h) = image_dimensions(image);
    forall|p: (u32, u32)| #[trigger] image_pixels(image).contains_key(p) <==> in_raster(w, h, p)
}

/// The pixels of a `width` by `height` image with every channel zero.
pub open spec fn blank_pixels(width: u32, height: u32) -> Map<(u32, u32), Channels> {
    Map::new(|p: (u32, u32)| in_raster(width, height, p), |p: (u32, u32)| (0u8, 0u8, 0u8, 0u8))
}

/// Whether a `width` by `height` image fits in memory: its bytes, four per
/// pixel, do not exceed the largest allocation.
pub open spec fn fits_in_memory(width: u32, height: u32) -> bool {
    width * height * 4 <= isize::MAX
}

/// Whether an image of size `from` can be resized to `width` by `height`:
/// the intermediate image of `from.0` by `height` floating-point pixels and
/// the result both fit in memory.
pub open spec fn resize_fits(from: (u32, u32), width: u32, height: u32) -> bool {
    &&& from.0 * height * 16 <= isize::MAX
    &&& fits_in_memory(width, height)
}

/// Whether an image of size `slice` fits inside one of size `canvas` with
/// its top-left corner at (`x`, `y`).
pub open spec fn fits_at(canvas: (u32, u32), slice: (u32, u32), x: u32, y: u32) -> bool {
    &&& slice.0 <= canvas.0
    &&& x <= canvas.0 - slice.0
    &&& slice.1 <= canvas.1
    &&& y <= canvas.1 - slice.1
}

/// `canvas` with `slice`, of size `width` by `height`, copied over it with
/// its top-left corner at (`x`, `y`).
pub open spec fn pasted(
    canvas: Map<(u32, u32), Channels>,
    slice: Map<(u32, u32), Channels>,
    width: u32,
    height: u32,
    x: u32,
    y: u32,
) -> Map<(u32, u32), Channels> {
    Map::new(
        |p: (u32, u32)| canvas.contains_key(p),
        |p: (u32, u32)|
            if x <= p.0 < x + width && y <= p.1 < y + height {
                slice[((p.0 - x) as u32, (p.1 - y) as u32)]
            } else {
                canvas[p]
            },
    )
}

/// `ImageBuffer::new`: a `width` by `height` image with every channel zero.
/// It panics when the image does not fit in memory, which `requires` leaves
/// out.
#[verifier::external_body]
fn new_bitmap(width: u32, height: u32) -> (image: Bitmap)
    requires
        fits_in_memory(width, height),
    ensures
        image_dimensions(image) == (width, height),
        image_pixels(image) == blank_pixels(width, height),
{
    Bitmap { image: RgbaImage::new(width, height) }
}

/// `ImageBuffer::dimensions`.
#[verifier::external_body]
fn dimensions(image: &Bitmap) -> (d: (u32, u32))
    ensures
        d == image_dimensions(*image),
{
    image.image.dimensions()
}

/// `image::load_from_memory_with_format` with `ImageFormat::Png`, the
/// result converted to RGBA by `DynamicImage::into_rgba8`.
#[verifier::external_body]
fn load_png(png: &[u8]) -> (r: Result<Bitmap, ImageError>)
    ensures
        match r {
            Ok(image) => is_raster(image) && decoded_png(png@) == Some(
                (image_dimensions(image), image_pixels(image)),
            ),
            Err(_) => decoded_png(png@) is None,
        },
{
    match image::load_from_memory_with_format(png, ImageFormat::Png) {
        Ok(decoded) => Ok(Bitmap { image: decoded.into_rgba8() }),
        Err(error) => Err(error),
    }
}

/// `image::imageops::resize` with `FilterType::Lanczos3`: the image resized
/// to `width` by `height`, a full raster of that size. Its pixel values are
/// not stated: the filter computes them with `f32::sin`, whose precision
/// std leaves to the platform. It panics when the intermediate or the
/// result does not fit in memory, which `requires` leaves out.
#[verifier::external_body]
fn resize_lanczos3(image: &Bitmap, width: u32, height: u32) -> (r: Bitmap)
    requires
        resize_fits(image_dimensions(*image), width, height),
    ensures
        is_raster(r),
        image_dimensions(r) == (width, height),
{
    Bitmap {
        image: image::imageops::resize(
            &image.image,
            width,
            height,
            image::imageops::FilterType::Lanczos3,
        ),
    }
}

/// `GenericImage::copy_from`: copies `slice` into `canvas` with its top-left
/// corner at (`x`, `y`). It fails, changing nothing, when the slice does not
/// fit inside the canvas at that place.
#[verifier::external_body]
fn copy_into(canvas: &mut Bitmap, slice: &Bitmap, x: u32, y: u32) -> (r: Result<(), ImageError>)
    ensures
        image_dimensions(*final(canvas)) == image_dimensions(*old(canvas)),
        fits_at(image_dimensions(*old(canvas)), image_dimensions(*slice), x, y) ==> r is Ok
            && image_pixels(*final(canvas)) == pasted(
            image_pixels(*old(canvas)),
            image_pixels(*slice),
            image_dimensions(*slice).0,
            image_dimensions(*slice).1,
            x,
            y,
        ),
        !fits_at(image_dimensions(*old(canvas)), image_dimensions(*slice), x, y) ==> r is Err
            && image_pixels(*final(canvas)) == image_pixels(*old(canvas)),
{
    canvas.image.copy_from(&slice.image, x, y)
}

/// Whether an image of this size decodes within the default limits of
/// `image`'s readers: its RGBA buffer takes at most 256 MiB, well within the
/// 512 MiB that `Limits::default()` allows a decoder to allocate.
pub open spec fn within_decode_limits(dimensions: (u32, u32)) -> bool {
    dimensions.0 * dimensions.1 * 4 <= 0x1000_0000
}

/// `ImageBuffer::write_to` with `ImageFormat::Png`, into a vector. PNG is
/// lossless: the bytes are an 8-bit RGBA PNG of the image's size and pixels,
/// and decoding them gives the image back when its size is within the
/// readers' default limits.
#[verifier::external_body]
fn write_png(image: &Bitmap) -> (r: Result<Vec<u8>, ImageError>)
    ensures
        match r {
            Ok(bytes) => encoded_png(image_dimensions(*image), image_pixels(*image)) == Some(
                bytes@,
            ),
            Err(_) => encoded_png(image_dimensions(*image), image_pixels(*image)) is None,
        },
        r matches Ok(bytes) ==> (within_decode_limits(image_dimensions(*image)) ==> decoded_png(
            bytes@,
        ) == Some((image_dimensions(*image), image_pixels(*image)))),
{
    let mut output = std::io::Cursor::new(Vec::new());
    match image.image.write_to(&mut output, ImageFormat::Png) {
        Ok(()) => Ok(output.into_inner()),
        Err(error) => Err(error),
    }
}

/// The start of what is reported when a screenshot does not decode.
pub const DECODE_MESSAGE: &'static str = "failed to decode screenshot PNG: ";

/// The start of what is reported when the stitched image does not encode.
pub const ENCODE_MESSAGE: &'static str = "failed to encode PNG: ";

/// The start of what is reported when a slice does not fit the image.
pub const STITCH_MESSAGE: &'static str = "failed to stitch screenshot slice at y=";

/// What a stitching error about the slice at CSS offset `offset` starts
/// with.
pub open spec fn stitch_error_prefix(offset: u32) -> Seq<char> {
    STITCH_MESSAGE@ + decimal(offset as nat) + ": "@
}

/// Whether `fitted` can be the pixels of a slice of size `dimensions` and
/// pixels `pixels` once it is brought to `width` by `height`: the slice's
/// own pixels when it has that size, else some full `width` by `height`
/// raster (what the resize filter makes of it).
pub open spec fn fits_slice(
    dimensions: (u32, u32),
    pixels: Map<(u32, u32), Channels>,
    width: u32,
    height: u32,
    fitted: Map<(u32, u32), Channels>,
) -> bool {
    if dimensions == (width, height) {
        fitted == pixels
    } else {
        forall|p: (u32, u32)| #[trigger] fitted.contains_key(p) <==> in_raster(width, height, p)
    }
}

/// Whether `after` is `before` with `fitted`, the slice brought to `width`
/// by `height`, pasted at the left edge at row `top`.
pub open spec fn pastes_band(
    before: Map<(u32, u32), Channels>,
    after: Map<(u32, u32), Channels>,
    dimensions: (u32, u32),
    pixels: Map<(u32, u32), Channels>,
    width: u32,
    height: u32,
    top: u32,
    fitted: Map<(u32, u32), Channels>,
) -> bool {
    &&& fits_slice(dimensions, pixels, width, height, fitted)
    &&& after == pasted(before, fitted, width, height, 0, top)
}

/// What pasting a slice of size `dimensions` and pixels `pixels`, brought to
/// `width` by `height`, at row `top` of the image `before` gives: the image
/// `after` and the outcome `r`. The image keeps its size; when the slice
/// fits at the left edge at that row, the band beneath it holds the slice
/// (resized when its size differs) and the rest is unchanged; else nothing
/// changes and the error names the slice's CSS `offset`.
pub open spec fn paste_outcome(
    before: Bitmap,
    after: Bitmap,
    dimensions: (u32, u32),
    pixels: Map<(u32, u32), Channels>,
    width: u32,
    height: u32,
    top: u32,
    offset: u32,
    r: Result<(), AppError>,
) -> bool {
    &&& image_dimensions(after) == image_dimensions(before)
    &&& if fits_at(image_dimensions(before), (width, height), 0, top) {
        &&& r is Ok
        &&& exists|fitted: Map<(u32, u32), Channels>|
            #[trigger] pastes_band(
                image_pixels(before),
                image_pixels(after),
                dimensions,
                pixels,
                width,
                height,
                top,
                fitted,
            )
    } else {
        &&& r matches Err(AppError::Render(m)) && starts_with(m@, stitch_error_prefix(offset))
        &&& image_pixels(after) == image_pixels(before)
    }
}

/// A `width` by `height` image with every channel zero, for slices to be
/// pasted into.
pub fn blank_canvas(width: u32, height: u32) -> (image: Bitmap)
    requires
        fits_in_memory(width, height),
    ensures
        image_dimensions(image) == (width, height),
        image_pixels(image) == blank_pixels(width, height),
{
    new_bitmap(width, height)
}

/// Decodes a PNG screenshot.
pub fn decode_png_rgba(png: &[u8]) -> (r: Result<Bitmap, AppError>)
    ensures
        match decoded_png(png@) {
            Some((d, px)) => r matches Ok(image) && is_raster(image) && image_dimensions(image)
                == d && image_pixels(image) == px,
            None => r matches Err(AppError::Render(m)) && starts_with(m@, DECODE_MESSAGE@),
        },
{
    match load_png(png) {
        Ok(image) => Ok(image),
        Err(error) => {
            let text = error.to_string();
            let mut m = DECODE_MESSAGE.to_owned();
            m.append(text.as_str());
            proof {
                starts_with_concat(DECODE_MESSAGE@, text@);
            }
            Err(AppError::Render(m))
        },
    }
}

/// Encodes an image as PNG. The bytes decode back to the same image (size
/// and every pixel) when its size is within the readers' default limits.
pub fn encode_png(image: &Bitmap) -> (r: Result<Vec<u8>, AppError>)
    ensures
        match encoded_png(image_dimensions(*image), image_pixels(*image)) {
            Some(bytes) => r matches Ok(v) && v@ == bytes,
            None => r matches Err(AppError::Render(m)) && starts_with(m@, ENCODE_MESSAGE@),
        },
        r matches Ok(v) ==> (within_decode_limits(image_dimensions(*image)) ==> decoded_png(v@)
            == Some((image_dimensions(*image), image_pixels(*image)))),
{
    match write_png(image) {
        Ok(bytes) => Ok(bytes),
        Err(error) => {
            let text = error.to_string();
            let mut m = ENCODE_MESSAGE.to_owned();
            m.append(text.as_str());
            proof {
                starts_with_concat(ENCODE_MESSAGE@, text@);
            }
            Err(AppError::Render(m))
        },
    }
}

/// Pastes a screenshot slice into the image at row `top`, first resizing it
/// to `width` by `height` when it has another size; `offset` is the slice's
/// CSS offset, named in the error when the slice does not fit.
pub fn paste_slice(
    canvas: &mut Bitmap,
    slice: Bitmap,
    width: u32,
    height: u32,
    top: u32,
    offset: u32,
) -> (r: Result<(), AppError>)
    requires
        image_dimensions(slice) == (width, height) || resize_fits(
            image_dimensions(slice),
            width,
            height,
        ),
    ensures
        paste_outcome(
            *old(canvas),
            *final(canvas),
            image_dimensions(slice),
            image_pixels(slice),
            width,
            height,
            top,
            offset,
            r,
        ),
{
    let ghost slice_dims = image_dimensions(slice);
    let ghost slice_pixels = image_pixels(slice);
    let d: (u32, u32) = dimensions(&slice);
    let fitted = if d.0 == width && d.1 == height {
        slice
    } else {
        resize_lanczos3(&slice, width, height)
    };
    assert(image_dimensions(fitted) == (width, height));
    assert(fits_slice(slice_dims, slice_pixels, width, height, image_pixels(fitted)));
    match copy_into(canvas, &fitted, 0, top) {
        Ok(()) => {
            assert(pastes_band(
                image_pixels(*old(canvas)),
                image_pixels(*canvas),
                slice_dims,
                slice_pixels,
                width,
                height,
                top,
                image_pixels(fitted),
            ));
            Ok(())
        },
        Err(error) => {
            let text = error.to_string();
            let mut m = STITCH_MESSAGE.to_owned();
            push_decimal(&mut m, offset as u64);
            m.append(": ");
            let ghost prefix = m@;
            m.append(text.as_str());
            proof {
                reveal_strlit(": ");
                assert(prefix == stitch_error_prefix(offset));
                starts_with_concat(prefix, text@);
            }
            Err(AppError::Render(m))
        },
    }
}

/// Decodes a PNG screenshot slice and pastes it into the image at row
/// `top`, brought to `width` by `height`. `None` when the slice needs a
/// resize that does not fit in memory; nothing is changed then.
pub fn stitch_png_slice(
    canvas: &mut Bitmap,
    png: &[u8],
    width: u32,
    height: u32,
    top: u32,
    offset: u32,
) -> (r: Option<Result<(), AppError>>)
    ensures
        match decoded_png(png@) {
            None => *final(canvas) == *old(canvas) && (r matches Some(Err(AppError::Render(m)))
                && starts_with(m@, DECODE_MESSAGE@)),
            Some((d, px)) => if d == (width, height) || resize_fits(d, width, height) {
                r matches Some(outcome) && paste_outcome(
                    *old(canvas),
                    *final(canvas),
                    d,
                    px,
                    width,
                    height,
                    top,
                    offset,
                    outcome,
                )
            } else {
                r is None && *final(canvas) == *old(canvas)
            },
        },
{
    let slice = match decode_png_rgba(png) {
        Ok(slice) => slice,
        Err(error) => {
            return Some(Err(error));
        },
    };
    let d: (u32, u32) = dimensions(&slice);
    let a: u128 = d.0 as u128;
    let b: u128 = height as u128;
    let c: u128 = width as u128;
    assert(a * b <= 0xffff_ffffu128 * 0xffff_ffffu128) by (nonlinear_arith)
        requires
            a <= 0xffff_ffff,
            b <= 0xffff_ffff,
    ;
    assert(c * b <= 0xffff_ffffu128 * 0xffff_ffffu128) by (nonlinear_arith)
        requires
            c <= 0xffff_ffff,
            b <= 0xffff_ffff,
    ;
    let resizable: bool = a * b * 16 <= isize::MAX as u128 && c * b * 4 <= isize::MAX as u128;
    if !(d.0 == width && d.1 == height) && !resizable {
        return None;
    }
    Some(paste_slice(canvas, slice, width, height, top, offset))
}

} // verus!
