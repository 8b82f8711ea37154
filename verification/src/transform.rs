//! Theming a whole image.

use vstd::prelude::*;
use crate::nearest::{closest_color, nearest, EmptyPalette, Rgba};
use crate::raster::Raster;
use crate::theme::{Color, Theme};

verus! {

/// The pixels recolored with the palette: each one replaced by the palette
/// entry nearest to it. It means something only for a palette that has an
/// entry, or for no pixels.
pub open spec fn themed(palette: Seq<Color>, pixels: Seq<Rgba>) -> Seq<Color> {
    pixels.map_values(|pixel: Rgba| nearest(palette, pixel))
}

/// Recolors an image with a theme. The result is a new image of the same
/// width and height in which the pixel at each position is the theme color
/// closest to the pixel at that position in `image`, as `closest_color`
/// finds it. It has no alpha channel. The image given is left as it is.
///
/// Theming fails when there is a pixel to match and the theme has no
/// color. An image without pixels is themed by any theme.
pub fn apply_theme(image: &Raster<Rgba>, theme: &Theme) -> (result: Result<
    Raster<Color>,
    EmptyPalette,
>)
    ensures
        result is Err <==> theme@.len() == 0 && image@.pixels.len() > 0,
        result matches Ok(recolored) ==> {
            &&& recolored@.width == image@.width
            &&& recolored@.height == image@.height
            &&& recolored@.pixels == themed(theme@, image@.pixels)
            &&& recolored@.well_formed()
        },
{
    let width: u32 = image.width();
    let height: u32 = image.height();
    let pixels = image.pixels();
    let mut colors: Vec<Color> = Vec::new();
    let mut i: usize = 0;
    while i < pixels.len()
        invariant
            i <= pixels@.len(),
            pixels@ == image@.pixels,
            colors@ == themed(theme@, pixels@.take(i as int)),
            i > 0 ==> theme@.len() > 0,
        decreases pixels@.len() - i,
    {
        let color = match closest_color(theme, pixels[i]) {
            Ok(color) => color,
            Err(error) => {
                return Err(error);
            },
        };
        colors.push(color);
        i = i + 1;
        assert(colors@ =~= themed(theme@, pixels@.take(i as int)));
    }
    assert(pixels@.take(i as int) =~= pixels@);
    Ok(Raster::filled(width, height, colors))
}

} // verus!
