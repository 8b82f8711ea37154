//! Rasters from and to the images of the `image` crate.
//!
//! Of the `image` crate itself nothing is proved here: the contracts of the
//! private functions that call it restate what the crate does.

use vstd::prelude::*;
use crate::nearest::{opaque, Rgba};
use crate::raster::{lemma_position_index, Raster};
use crate::theme::Color;

verus! {

/// `DynamicImage` of the `image` crate: an image in any of the crate's
/// sample formats. What it holds is known through the names below alone.
#[verifier::external_type_specification]
#[verifier::external_body]
pub struct ExDynamicImage(image::DynamicImage);

/// An 8-bit RGB pixel buffer of the `image` crate (`RgbImage`), held so
/// that it can be filled pixel by pixel. What it holds is known through
/// `buffer_dimensions` and `buffer_pixels` alone.
#[verifier::external_body]
pub struct RgbBuffer {
    inner: image::RgbImage,
}

/// The width and the height of an image, in this order.
pub uninterp spec fn image_dimensions(image: image::DynamicImage) -> (u32, u32);

/// The pixels of an image row by row, one for each position inside its
/// dimensions, each as red, green, blue and alpha of eight bits, whatever
/// samples the image stores.
pub uninterp spec fn image_pixels(image: image::DynamicImage) -> Seq<(u8, u8, u8, u8)>;

/// Whether an image stores its samples as floating-point numbers.
pub uninterp spec fn stores_floats(image: image::DynamicImage) -> bool;

/// Whether an image stores its pixels as 8-bit RGB, without alpha.
pub uninterp spec fn stores_rgb8(image: image::DynamicImage) -> bool;

/// The width and the height of an RGB buffer, in this order.
pub uninterp spec fn buffer_dimensions(buffer: RgbBuffer) -> (u32, u32);

/// The pixels of an RGB buffer row by row, one for each position inside
/// its dimensions.
pub uninterp spec fn buffer_pixels(buffer: RgbBuffer) -> Seq<(u8, u8, u8)>;

/// `GenericImageView::dimensions` on a `DynamicImage`: the width and height
/// of the buffer that the image holds. The image has as many pixels as
/// there are positions inside them.
#[verifier::external_body]
fn dimensions(image: &image::DynamicImage) -> (size: (u32, u32))
    ensures
        size == image_dimensions(*image),
        image_pixels(*image).len() == size.0 * size.1,
{
    image::GenericImageView::dimensions(image)
}

/// Tells the variants of `DynamicImage` with 32-bit float samples,
/// `ImageRgb32F` and `ImageRgba32F`, from the others.
#[verifier::external_body]
fn holds_floats(image: &image::DynamicImage) -> (floats: bool)
    ensures
        floats == stores_floats(*image),
{
    matches!(image, image::DynamicImage::ImageRgb32F(_) | image::DynamicImage::ImageRgba32F(_))
}

/// `GenericImageView::get_pixel` on a `DynamicImage`: the pixel at `(x, y)`
/// converted to 8-bit RGBA. The call panics outside the image's bounds, and
/// on a float sample that is not a number; so the position must lie inside
/// the bounds, and the image must not store floats.
#[verifier::external_body]
fn pixel_at(image: &image::DynamicImage, x: u32, y: u32) -> (pixel: (u8, u8, u8, u8))
    requires
        x < image_dimensions(*image).0,
        y < image_dimensions(*image).1,
        !stores_floats(*image),
    ensures
        pixel == image_pixels(*image)[y * image_dimensions(*image).0 + x],
{
    let p = image::GenericImageView::get_pixel(image, x, y);
    (p.0[0], p.0[1], p.0[2], p.0[3])
}

/// `ImageBuffer::new` for 8-bit RGB: a buffer of the given width and
/// height, with a pixel for each position inside them. The call panics
/// when three bytes per pixel come to more than a vector can hold, so that
/// size must fit.
#[verifier::external_body]
fn new_buffer(width: u32, height: u32) -> (buffer: RgbBuffer)
    requires
        3 * width * height <= isize::MAX,
    ensures
        buffer_dimensions(buffer) == (width, height),
        buffer_pixels(buffer).len() == width * height,
{
    RgbBuffer { inner: image::ImageBuffer::new(width, height) }
}

/// `ImageBuffer::put_pixel` for 8-bit RGB: the pixel at `(x, y)` becomes
/// the given color, every other pixel and the dimensions stay. The call
/// panics outside the buffer's bounds, so the position must lie inside
/// them.
#[verifier::external_body]
fn put_color(buffer: &mut RgbBuffer, x: u32, y: u32, color: (u8, u8, u8))
    requires
        x < buffer_dimensions(*old(buffer)).0,
        y < buffer_dimensions(*old(buffer)).1,
    ensures
        buffer_dimensions(*final(buffer)) == buffer_dimensions(*old(buffer)),
        buffer_pixels(*final(buffer)) == buffer_pixels(*old(buffer)).update(
            y * buffer_dimensions(*old(buffer)).0 + x,
            color,
        ),
{
    buffer.inner.put_pixel(x, y, image::Rgb([color.0, color.1, color.2]));
}

/// `DynamicImage::ImageRgb8`: the image that holds the buffer, so it stores
/// 8-bit RGB and no floats. It has the buffer's dimensions; read as RGBA,
/// each pixel has the buffer's red, green and blue and full alpha.
#[verifier::external_body]
fn into_image(buffer: RgbBuffer) -> (image: image::DynamicImage)
    ensures
        stores_rgb8(image),
        !stores_floats(image),
        image_dimensions(image) == buffer_dimensions(buffer),
        image_pixels(image) == buffer_pixels(buffer).map_values(|color: (u8, u8, u8)| opaque(color)),
{
    image::DynamicImage::ImageRgb8(buffer.inner)
}

/// Whether three bytes for each of `width * height` pixels fit in a buffer.
fn rgb_size_fits(width: u32, height: u32) -> (fits: bool)
    ensures
        fits <==> 3 * width * height <= isize::MAX,
{
    let row: u128 = 3 * (width as u128);
    assert(row * (height as u128) <= 0x3_0000_0000 * 0x1_0000_0000) by (nonlinear_arith)
        requires
            row <= 0x3_0000_0000,
            height <= 0x1_0000_0000,
    ;
    assert(3 * width * height == row * (height as u128)) by (nonlinear_arith)
        requires
            row == 3 * width,
    ;
    row * (height as u128) <= isize::MAX as u128
}

/// The pixels of an image as a raster of 8-bit RGBA, whatever integer
/// samples the image stores: gray is spread over red, green and blue,
/// sixteen bits are scaled to eight, and a pixel without alpha is opaque,
/// as the `image` crate converts them.
///
/// An image of floating-point samples is not read, because its samples
/// need not be numbers. Convert it to integer samples first.
pub fn read_pixels(image: &image::DynamicImage) -> (raster: Option<Raster<Rgba>>)
    ensures
        raster is Some <==> !stores_floats(*image),
        raster matches Some(r) ==> {
            &&& r@.width == image_dimensions(*image).0
            &&& r@.height == image_dimensions(*image).1
            &&& r@.pixels == image_pixels(*image)
            &&& r@.well_formed()
        },
{
    if holds_floats(image) {
        return None;
    }
    let (width, height) = dimensions(image);
    let mut pixels: Vec<Rgba> = Vec::new();
    let mut y: u32 = 0;
    while y < height
        invariant
            y <= height,
            !stores_floats(*image),
            (width, height) == image_dimensions(*image),
            image_pixels(*image).len() == width * height,
            pixels@.len() == y * width,
            pixels@ == image_pixels(*image).take(y * width),
        decreases height - y,
    {
        let mut x: u32 = 0;
        while x < width
            invariant
                x <= width,
                y < height,
                !stores_floats(*image),
                (width, height) == image_dimensions(*image),
                image_pixels(*image).len() == width * height,
                pixels@.len() == y * width + x,
                pixels@ == image_pixels(*image).take(y * width + x),
            decreases width - x,
        {
            proof {
                lemma_position_index(width as int, height as int, x as int, y as int);
            }
            let pixel = pixel_at(image, x, y);
            pixels.push(pixel);
            x = x + 1;
            assert(pixels@ =~= image_pixels(*image).take(y * width + x));
        }
        assert((y + 1) * width == y * width + width) by (nonlinear_arith);
        y = y + 1;
    }
    proof {
        assert(image_pixels(*image).take(height * width) =~= image_pixels(*image)) by {
            assert(height * width == width * height) by (nonlinear_arith);
        }
        assert(height * width == width * height) by (nonlinear_arith);
    }
    Some(Raster::filled(width, height, pixels))
}

/// A raster of colors as an image of the `image` crate. The image stores
/// 8-bit RGB, so it is opaque. There is no such image when three bytes per
/// pixel come to more than a buffer can hold on this machine.
pub fn to_image(raster: &Raster<Color>) -> (image: Option<image::DynamicImage>)
    ensures
        image is Some <==> 3 * raster@.width * raster@.height <= isize::MAX,
        image matches Some(i) ==> {
            &&& stores_rgb8(i)
            &&& !stores_floats(i)
            &&& image_dimensions(i).0 == raster@.width
            &&& image_dimensions(i).1 == raster@.height
            &&& image_pixels(i) == raster@.pixels.map_values(|color: Color| opaque(color))
        },
{
    let width: u32 = raster.width();
    let height: u32 = raster.height();
    let pixels = raster.pixels();
    if !rgb_size_fits(width, height) {
        return None;
    }
    let mut buffer = new_buffer(width, height);
    let mut y: u32 = 0;
    while y < height
        invariant
            y <= height,
            buffer_dimensions(buffer) == (width, height),
            buffer_pixels(buffer).len() == width * height,
            pixels@.len() == width * height,
            0 <= y * width <= width * height,
            buffer_pixels(buffer).take(y * width) == pixels@.take(y * width),
        decreases height - y,
    {
        let mut x: u32 = 0;
        while x < width
            invariant
                x <= width,
                y < height,
                buffer_dimensions(buffer) == (width, height),
                buffer_pixels(buffer).len() == width * height,
                pixels@.len() == width * height,
                0 <= y * width + x <= width * height,
                buffer_pixels(buffer).take(y * width + x) == pixels@.take(y * width + x),
            decreases width - x,
        {
            proof {
                lemma_position_index(width as int, height as int, x as int, y as int);
                assert(0 <= y * width) by (nonlinear_arith)
                    requires
                        0 <= y,
                        0 <= width,
                ;
                assert(y * width + x < pixels.len());
            }
            let index: usize = (y as usize) * (width as usize) + (x as usize);
            put_color(&mut buffer, x, y, pixels[index]);
            x = x + 1;
            assert(buffer_pixels(buffer).take(y * width + x) =~= pixels@.take(y * width + x));
        }
        assert((y + 1) * width == y * width + width) by (nonlinear_arith);
        y = y + 1;
    }
    proof {
        assert(height * width == width * height) by (nonlinear_arith);
        assert(buffer_pixels(buffer) =~= buffer_pixels(buffer).take(height * width));
        assert(pixels@ =~= pixels@.take(height * width));
    }
    Some(into_image(buffer))
}

} // verus!
