//! The raster that the `image` crate stores, and what this crate takes on
//! trust about it.
//!
//! Nothing here is proved. Each function below makes one call into `image`
//! and states what that call does; the rest of the crate is verified against
//! these statements.

use vstd::prelude::*;

verus! {

/// A red-green-blue raster, kept in an `image::RgbImage`.
///
/// The verifier cannot be told of `ImageBuffer` itself, whose pixel parameter
/// is bound by a trait of `image`, so the buffer sits in a struct that is
/// closed to it. What a raster holds is told by [`raster_width`],
/// [`raster_height`] and [`raster_pixel`].
#[verifier::external_body]
pub struct Raster {
    buffer: image::RgbImage,
}

/// `image::ImageError`, handed on and never looked into.
#[verifier::external_type_specification]
#[verifier::external_body]
pub struct ExImageError(image::ImageError);

/// `image::DynamicImage`, a decoded picture of any colour type. It is only
/// handed from the decoder to the conversion.
#[verifier::external_type_specification]
#[verifier::external_body]
pub struct ExDynamicImage(image::DynamicImage);

/// The number of columns of a raster.
pub uninterp spec fn raster_width(raster: Raster) -> nat;

/// The number of rows of a raster.
pub uninterp spec fn raster_height(raster: Raster) -> nat;

/// The red, green and blue value that a raster holds at column `x`, row `y`.
/// It means something only inside the raster's width and height.
pub uninterp spec fn raster_pixel(raster: Raster, x: nat, y: nat) -> (u8, u8, u8);

/// All the pixels of a raster, by column and row.
pub open spec fn raster_pixels(raster: Raster) -> Map<(nat, nat), (u8, u8, u8)> {
    Map::new(
        |p: (nat, nat)| p.0 < raster_width(raster) && p.1 < raster_height(raster),
        |p: (nat, nat)| raster_pixel(raster, p.0, p.1),
    )
}

/// What the PNG encoder writes for a raster of the given size and pixels, or
/// `None` where it reports an error.
pub uninterp spec fn png_encoding(
    width: nat,
    height: nat,
    pixels: Map<(nat, nat), (u8, u8, u8)>,
) -> Option<Seq<u8>>;

/// The width, the height and the pixels of a decoded picture of any colour
/// type, once it is converted to eight-bit red, green and blue.
pub uninterp spec fn rgb8_of(picture: image::DynamicImage) -> (
    nat,
    nat,
    Map<(nat, nat), (u8, u8, u8)>,
);

/// The width, the height and the pixels, as eight-bit red, green and blue,
/// of the picture that the PNG decoder reads out of `bytes`, or `None` where
/// it reports an error.
pub uninterp spec fn png_decoding(bytes: Seq<u8>) -> Option<
    (nat, nat, Map<(nat, nat), (u8, u8, u8)>),
>;

/// `image::RgbImage::new`: a raster of the given size with every channel of
/// every pixel zero. The call panics when the length of the buffer, three
/// bytes per pixel, overflows on the way to being computed or is more than a
/// vector can hold, so such sizes are left out.
#[verifier::external_body]
pub(crate) fn raster_new(width: u32, height: u32) -> (raster: Raster)
    requires
        3 * width <= usize::MAX,
        3 * width * height <= isize::MAX,
    ensures
        raster_width(raster) == width,
        raster_height(raster) == height,
        forall|x: nat, y: nat|
            x < width && y < height ==> #[trigger] raster_pixel(raster, x, y) == (0u8, 0u8, 0u8),
{
    Raster { buffer: image::RgbImage::new(width, height) }
}

/// `ImageBuffer::width`.
#[verifier::external_body]
pub(crate) fn raster_columns(raster: &Raster) -> (width: u32)
    ensures
        width == raster_width(*raster),
{
    raster.buffer.width()
}

/// `ImageBuffer::height`.
#[verifier::external_body]
pub(crate) fn raster_rows(raster: &Raster) -> (height: u32)
    ensures
        height == raster_height(*raster),
{
    raster.buffer.height()
}

/// `ImageBuffer::get_pixel`: the pixel at a column and row. The call panics
/// outside the raster, so such coordinates are left out.
#[verifier::external_body]
pub(crate) fn raster_get(raster: &Raster, x: u32, y: u32) -> (rgb: (u8, u8, u8))
    requires
        x < raster_width(*raster),
        y < raster_height(*raster),
    ensures
        rgb == raster_pixel(*raster, x as nat, y as nat),
{
    let pixel = raster.buffer.get_pixel(x, y);
    (pixel.0[0], pixel.0[1], pixel.0[2])
}

/// `ImageBuffer::put_pixel`: overwrites the pixel at a column and row and
/// nothing else. The call panics outside the raster, so such coordinates are
/// left out.
#[verifier::external_body]
pub(crate) fn raster_put(raster: &mut Raster, x: u32, y: u32, rgb: (u8, u8, u8))
    requires
        x < raster_width(*old(raster)),
        y < raster_height(*old(raster)),
    ensures
        raster_width(*final(raster)) == raster_width(*old(raster)),
        raster_height(*final(raster)) == raster_height(*old(raster)),
        raster_pixel(*final(raster), x as nat, y as nat) == rgb,
        forall|i: nat, j: nat|
            i < raster_width(*old(raster)) && j < raster_height(*old(raster)) && (i, j) != (
                x as nat,
                y as nat,
            ) ==> #[trigger] raster_pixel(*final(raster), i, j) == raster_pixel(
                *old(raster),
                i,
                j,
            ),
{
    raster.buffer.put_pixel(x, y, image::Rgb([rgb.0, rgb.1, rgb.2]));
}

/// `ImageBuffer::clone`: a raster of the same size with the same pixels.
#[verifier::external_body]
pub(crate) fn raster_copy(raster: &Raster) -> (copy: Raster)
    ensures
        raster_width(copy) == raster_width(*raster),
        raster_height(copy) == raster_height(*raster),
        forall|x: nat, y: nat|
            x < raster_width(*raster) && y < raster_height(*raster) ==> #[trigger] raster_pixel(
                copy,
                x,
                y,
            ) == raster_pixel(*raster, x, y),
{
    Raster { buffer: raster.buffer.clone() }
}

/// `ImageBuffer::write_to` with `ImageFormat::Png`, into a buffer in memory:
/// the bytes written, which depend on the raster's size and pixels alone, or
/// the encoder's error.
#[verifier::external_body]
pub(crate) fn raster_png(raster: &Raster) -> (written: Result<Vec<u8>, image::ImageError>)
    ensures
        match written {
            Ok(bytes) => png_encoding(
                raster_width(*raster),
                raster_height(*raster),
                raster_pixels(*raster),
            ) == Some(bytes@),
            Err(_) => png_encoding(
                raster_width(*raster),
                raster_height(*raster),
                raster_pixels(*raster),
            ) is None,
        },
{
    let mut cursor = std::io::Cursor::new(Vec::new());
    match raster.buffer.write_to(&mut cursor, image::ImageFormat::Png) {
        Ok(()) => Ok(cursor.into_inner()),
        Err(error) => Err(error),
    }
}

/// `image::load_from_memory_with_format` with `ImageFormat::Png`: the
/// picture that the bytes decode to, which depends on the bytes alone, or the
/// decoder's error.
#[verifier::external_body]
pub(crate) fn png_load(bytes: &[u8]) -> (read: Result<image::DynamicImage, image::ImageError>)
    ensures
        match read {
            Ok(picture) => png_decoding(bytes@) == Some(rgb8_of(picture)),
            Err(_) => png_decoding(bytes@) is None,
        },
{
    image::load_from_memory_with_format(bytes, image::ImageFormat::Png)
}

/// `DynamicImage::to_rgb8`: a copy of the picture as a raster of eight-bit
/// red, green and blue.
#[verifier::external_body]
pub(crate) fn picture_to_rgb8(picture: &image::DynamicImage) -> (raster: Raster)
    ensures
        rgb8_of(*picture) == (raster_width(raster), raster_height(raster), raster_pixels(raster)),
{
    Raster { buffer: picture.to_rgb8() }
}

} // verus!
