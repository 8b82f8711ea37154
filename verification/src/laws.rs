//! What holds of nearest-color search and of themed images, whatever the
//! pixels and the palette.

use vstd::prelude::*;
use crate::nearest::{
    distance, is_nearest, lemma_nearest_index_is, nearest, nearest_index, opaque, rgb, Rgba,
};
use crate::raster::{lemma_position_index, RasterView};
use crate::theme::Color;
use crate::transform::themed;

verus! {

/// The colors that occur among the pixels, alpha set aside.
pub open spec fn colors_of(pixels: Seq<Rgba>) -> Set<Color> {
    pixels.map_values(|pixel: Rgba| rgb(pixel)).to_set()
}

/// A palette with at least one entry has a nearest entry for every pixel,
/// and `nearest_index` names it.
pub proof fn lemma_nearest_exists(palette: Seq<Color>, pixel: Rgba)
    requires
        palette.len() > 0,
    ensures
        is_nearest(palette, pixel, nearest_index(palette, pixel)),
    decreases palette.len(),
{
    if palette.len() == 1 {
        assert(is_nearest(palette, pixel, 0));
    } else {
        let front = palette.drop_last();
        let last = palette.len() - 1;
        lemma_nearest_exists(front, pixel);
        let k = nearest_index(front, pixel);
        assert(front[k] == palette[k]);
        assert forall|j: int| 0 <= j < last implies distance(pixel, palette[k]) <= distance(
            pixel,
            #[trigger] palette[j],
        ) by {
            assert(front[j] == palette[j]);
        }
        assert forall|j: int| 0 <= j < k implies distance(pixel, palette[k]) < distance(
            pixel,
            #[trigger] palette[j],
        ) by {
            assert(front[j] == palette[j]);
        }
        if distance(pixel, palette[last]) < distance(pixel, palette[k]) {
            assert(is_nearest(palette, pixel, last));
        } else {
            assert(is_nearest(palette, pixel, k));
        }
    }
}

/// The nearest entry is an entry of the palette.
pub proof fn lemma_nearest_in_palette(palette: Seq<Color>, pixel: Rgba)
    requires
        palette.len() > 0,
    ensures
        0 <= nearest_index(palette, pixel) < palette.len(),
        palette.contains(nearest(palette, pixel)),
{
    lemma_nearest_exists(palette, pixel);
}

/// No entry of the palette is closer to the pixel than the nearest one.
pub proof fn lemma_nearest_is_closest(palette: Seq<Color>, pixel: Rgba, j: int)
    requires
        0 <= j < palette.len(),
    ensures
        distance(pixel, nearest(palette, pixel)) <= distance(pixel, palette[j]),
{
    lemma_nearest_exists(palette, pixel);
}

/// Ties go to the earlier entry: of two entries equally far from the pixel,
/// the later one is never the nearest.
pub proof fn lemma_tie_goes_to_earlier(palette: Seq<Color>, pixel: Rgba, i: int, j: int)
    requires
        0 <= i < j < palette.len(),
        distance(pixel, palette[i]) == distance(pixel, palette[j]),
    ensures
        nearest_index(palette, pixel) != j,
{
    lemma_nearest_exists(palette, pixel);
    if nearest_index(palette, pixel) == j {
        assert(distance(pixel, palette[j]) < distance(pixel, palette[i]));
    }
}

/// A palette of one color maps every pixel to that color.
pub proof fn lemma_single_color(palette: Seq<Color>, pixel: Rgba)
    requires
        palette.len() == 1,
    ensures
        nearest(palette, pixel) == palette[0],
{
    lemma_nearest_exists(palette, pixel);
}

/// Alpha plays no part: pixels with the same red, green and blue have the
/// same nearest entry.
pub proof fn lemma_alpha_invariance(palette: Seq<Color>, p: Rgba, q: Rgba)
    requires
        palette.len() > 0,
        rgb(p) == rgb(q),
    ensures
        nearest_index(palette, p) == nearest_index(palette, q),
        nearest(palette, p) == nearest(palette, q),
{
    lemma_nearest_exists(palette, p);
    let i = nearest_index(palette, p);
    assert forall|j: int| 0 <= j < palette.len() implies distance(q, palette[i]) <= distance(
        q,
        #[trigger] palette[j],
    ) by {
        assert(distance(p, palette[j]) == distance(q, palette[j]));
    }
    assert forall|j: int| 0 <= j < i implies distance(q, palette[i]) < distance(
        q,
        #[trigger] palette[j],
    ) by {
        assert(distance(p, palette[j]) == distance(q, palette[j]));
    }
    assert(is_nearest(palette, q, i));
    lemma_nearest_index_is(palette, q, i);
}

/// A distance is never negative, and it is zero for the very same color
/// only.
pub proof fn lemma_zero_distance(pixel: Rgba, color: Color)
    ensures
        distance(pixel, color) >= 0,
        distance(pixel, color) == 0 <==> rgb(pixel) == color,
{
    let dr = pixel.0 as int - color.0 as int;
    let dg = pixel.1 as int - color.1 as int;
    let db = pixel.2 as int - color.2 as int;
    assert(dr * dr >= 0 && (dr * dr == 0 <==> dr == 0)) by (nonlinear_arith);
    assert(dg * dg >= 0 && (dg * dg == 0 <==> dg == 0)) by (nonlinear_arith);
    assert(db * db >= 0 && (db * db == 0 <==> db == 0)) by (nonlinear_arith);
}

/// A pixel whose color is in the palette keeps its color.
pub proof fn lemma_palette_color_is_kept(palette: Seq<Color>, pixel: Rgba)
    requires
        palette.contains(rgb(pixel)),
    ensures
        nearest(palette, pixel) == rgb(pixel),
{
    let k = choose|k: int| 0 <= k < palette.len() && palette[k] == rgb(pixel);
    lemma_nearest_exists(palette, pixel);
    lemma_zero_distance(pixel, palette[k]);
    lemma_zero_distance(pixel, nearest(palette, pixel));
    assert(distance(pixel, nearest(palette, pixel)) <= distance(pixel, palette[k]));
}

/// Theming keeps every pixel in its place: in an image themed with the
/// image's own width, the pixel at a position is the palette entry nearest
/// to the pixel that the image has at that position.
pub proof fn lemma_themed_in_place(
    palette: Seq<Color>,
    image: RasterView<Rgba>,
    recolored: RasterView<Color>,
    x: int,
    y: int,
)
    requires
        image.well_formed(),
        image.has(x, y),
        recolored.width == image.width,
        recolored.height == image.height,
        recolored.pixels == themed(palette, image.pixels),
    ensures
        recolored.well_formed(),
        recolored.has(x, y),
        recolored.at(x, y) == nearest(palette, image.at(x, y)),
{
    lemma_position_index(image.width as int, image.height as int, x, y);
}

/// Every themed pixel has a color of the palette.
pub proof fn lemma_themed_colors_in_palette(palette: Seq<Color>, pixels: Seq<Rgba>)
    requires
        palette.len() > 0,
    ensures
        forall|i: int|
            0 <= i < pixels.len() ==> palette.contains(#[trigger] themed(palette, pixels)[i]),
{
    assert forall|i: int| 0 <= i < pixels.len() implies palette.contains(
        #[trigger] themed(palette, pixels)[i],
    ) by {
        lemma_nearest_in_palette(palette, pixels[i]);
    }
}

/// Theming with a palette that holds every color of the image changes no
/// color: each themed pixel has the red, green and blue of the pixel it
/// came from.
pub proof fn lemma_covering_palette_keeps_colors(palette: Seq<Color>, pixels: Seq<Rgba>)
    requires
        colors_of(pixels).subset_of(palette.to_set()),
    ensures
        themed(palette, pixels) == pixels.map_values(|pixel: Rgba| rgb(pixel)),
{
    let colors = pixels.map_values(|pixel: Rgba| rgb(pixel));
    assert forall|i: int| 0 <= i < pixels.len() implies themed(palette, pixels)[i] == colors[i] by {
        assert(colors.contains(colors[i]));
        assert(colors_of(pixels).contains(rgb(pixels[i])));
        assert(palette.to_set().contains(rgb(pixels[i])));
        lemma_palette_color_is_kept(palette, pixels[i]);
    }
    assert(themed(palette, pixels) =~= colors);
}

/// Theming with exactly the colors of the image is the identity on colors.
pub proof fn lemma_identity_palette(palette: Seq<Color>, pixels: Seq<Rgba>)
    requires
        palette.to_set() == colors_of(pixels),
    ensures
        themed(palette, pixels) == pixels.map_values(|pixel: Rgba| rgb(pixel)),
{
    lemma_covering_palette_keeps_colors(palette, pixels);
}

/// Theming is idempotent: theming the themed pixels once more, with the
/// same palette, changes none of them.
pub proof fn lemma_theming_twice(palette: Seq<Color>, pixels: Seq<Rgba>)
    requires
        palette.len() > 0,
    ensures
        themed(palette, themed(palette, pixels).map_values(|color: Color| opaque(color)))
            == themed(palette, pixels),
{
    let once = themed(palette, pixels);
    let again = once.map_values(|color: Color| opaque(color));
    assert forall|i: int| 0 <= i < pixels.len() implies themed(palette, again)[i] == once[i] by {
        lemma_nearest_in_palette(palette, pixels[i]);
        assert(rgb(again[i]) == once[i]);
        lemma_palette_color_is_kept(palette, again[i]);
    }
    assert(themed(palette, again) =~= once);
}

/// Theming with a palette of one color paints every pixel in that color.
pub proof fn lemma_single_color_image(palette: Seq<Color>, pixels: Seq<Rgba>)
    requires
        palette.len() == 1,
    ensures
        forall|i: int| 0 <= i < pixels.len() ==> #[trigger] themed(palette, pixels)[i] == palette[0],
{
    assert forall|i: int| 0 <= i < pixels.len() implies #[trigger] themed(palette, pixels)[i]
        == palette[0] by {
        lemma_single_color(palette, pixels[i]);
    }
}

/// Images that differ at most in alpha are themed alike.
pub proof fn lemma_alpha_invariant_image(palette: Seq<Color>, first: Seq<Rgba>, second: Seq<Rgba>)
    requires
        palette.len() > 0,
        first.map_values(|pixel: Rgba| rgb(pixel)) == second.map_values(|pixel: Rgba| rgb(pixel)),
    ensures
        themed(palette, first) == themed(palette, second),
{
    let colors_first = first.map_values(|pixel: Rgba| rgb(pixel));
    let colors_second = second.map_values(|pixel: Rgba| rgb(pixel));
    assert(first.len() == colors_first.len());
    assert(second.len() == colors_second.len());
    assert forall|i: int| 0 <= i < first.len() implies themed(palette, first)[i] == themed(
        palette,
        second,
    )[i] by {
        assert(colors_first[i] == colors_second[i]);
        lemma_alpha_invariance(palette, first[i], second[i]);
    }
    assert(themed(palette, first) =~= themed(palette, second));
}

} // verus!
