//! Nearest-color search: the theme color closest to a pixel.

use vstd::prelude::*;
use crate::theme::{Color, Theme};

verus! {

/// A pixel: red, green, blue and alpha intensities.
pub type Rgba = (u8, u8, u8, u8);

/// The failure of a search among no colors: a theme without colors has no
/// color closest to a pixel.
#[derive(Clone, Copy, Debug, PartialEq, Eq, Structural)]
pub struct EmptyPalette;

/// The red, green and blue of a pixel.
pub open spec fn rgb(pixel: Rgba) -> Color {
    (pixel.0, pixel.1, pixel.2)
}

/// A color as a fully opaque pixel.
pub open spec fn opaque(color: Color) -> Rgba {
    (color.0, color.1, color.2, 255u8)
}

/// The square of the difference between two channel intensities.
pub open spec fn gap(a: u8, b: u8) -> int {
    (a as int - b as int) * (a as int - b as int)
}

/// The squared Euclidean distance between a pixel and a color over the red,
/// green and blue channels. The pixel's alpha takes no part.
pub open spec fn distance(pixel: Rgba, color: Color) -> int {
    gap(pixel.0, color.0) + gap(pixel.1, color.1) + gap(pixel.2, color.2)
}

/// Entry `i` of the palette is the nearest to the pixel: no entry is
/// closer, and every earlier entry is strictly farther away, so that among
/// equally close entries the first one wins.
pub open spec fn is_nearest(palette: Seq<Color>, pixel: Rgba, i: int) -> bool {
    &&& 0 <= i < palette.len()
    &&& forall|j: int|
        0 <= j < palette.len() ==> distance(pixel, palette[i]) <= distance(pixel, #[trigger] palette[j])
    &&& forall|j: int| 0 <= j < i ==> distance(pixel, palette[i]) < distance(pixel, #[trigger] palette[j])
}

/// The index of the palette entry nearest to the pixel. It means something
/// only for a palette that has an entry.
pub open spec fn nearest_index(palette: Seq<Color>, pixel: Rgba) -> int {
    choose|i: int| is_nearest(palette, pixel, i)
}

/// The palette entry nearest to the pixel. It means something only for a
/// palette that has an entry.
pub open spec fn nearest(palette: Seq<Color>, pixel: Rgba) -> Color {
    palette[nearest_index(palette, pixel)]
}

/// At most one entry of a palette is the nearest to a pixel.
pub proof fn lemma_nearest_unique(palette: Seq<Color>, pixel: Rgba, i: int, j: int)
    requires
        is_nearest(palette, pixel, i),
        is_nearest(palette, pixel, j),
    ensures
        i == j,
{
    if i < j {
        assert(distance(pixel, palette[j]) < distance(pixel, palette[i]));
        assert(distance(pixel, palette[i]) <= distance(pixel, palette[j]));
    } else if j < i {
        assert(distance(pixel, palette[i]) < distance(pixel, palette[j]));
        assert(distance(pixel, palette[j]) <= distance(pixel, palette[i]));
    }
}

/// An entry known to be the nearest is the one that `nearest_index` names.
pub proof fn lemma_nearest_index_is(palette: Seq<Color>, pixel: Rgba, i: int)
    requires
        is_nearest(palette, pixel, i),
    ensures
        nearest_index(palette, pixel) == i,
        nearest(palette, pixel) == palette[i],
{
    lemma_nearest_unique(palette, pixel, i, nearest_index(palette, pixel));
}

/// The squared distance between a pixel and a color, alpha ignored.
fn squared_distance(pixel: Rgba, color: Color) -> (d: u32)
    ensures
        d == distance(pixel, color),
        d <= 195075,
{
    let dr: i32 = pixel.0 as i32 - color.0 as i32;
    let dg: i32 = pixel.1 as i32 - color.1 as i32;
    let db: i32 = pixel.2 as i32 - color.2 as i32;
    assert(0 <= dr * dr <= 65025) by (nonlinear_arith)
        requires
            -255 <= dr <= 255,
    ;
    assert(0 <= dg * dg <= 65025) by (nonlinear_arith)
        requires
            -255 <= dg <= 255,
    ;
    assert(0 <= db * db <= 65025) by (nonlinear_arith)
        requires
            -255 <= db <= 255,
    ;
    (dr * dr + dg * dg + db * db) as u32
}

/// The theme color closest to the pixel by squared Euclidean distance over
/// red, green and blue; among equally close colors the earliest in the
/// theme. A theme without colors has no closest color: that is an error,
/// whatever the pixel.
pub fn closest_color(theme: &Theme, pixel: Rgba) -> (result: Result<Color, EmptyPalette>)
    ensures
        result is Err <==> theme@.len() == 0,
        result matches Ok(color) ==> color == nearest(theme@, pixel),
{
    let colors = theme.colors();
    if colors.len() == 0 {
        return Err(EmptyPalette);
    }
    let mut best: usize = 0;
    let mut best_distance: u32 = squared_distance(pixel, colors[0]);
    let mut i: usize = 1;
    while i < colors.len()
        invariant
            1 <= i <= colors@.len(),
            best < i,
            best_distance == distance(pixel, colors@[best as int]),
            is_nearest(colors@.take(i as int), pixel, best as int),
        decreases colors@.len() - i,
    {
        let d: u32 = squared_distance(pixel, colors[i]);
        if d < best_distance {
            best = i;
            best_distance = d;
        }
        i = i + 1;
    }
    proof {
        assert(colors@.take(i as int) =~= colors@);
        lemma_nearest_index_is(colors@, pixel, best as int);
    }
    Ok(colors[best])
}

} // verus!
