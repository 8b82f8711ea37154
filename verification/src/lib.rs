//! Recolors raster images with a fixed palette.
//!
//! A [`Theme`] is an ordered list of reference colors. Theming an image maps
//! every pixel to the theme color closest to it under squared Euclidean
//! distance over the red, green and blue channels; the alpha channel plays
//! no part and the themed image has none.
//!
//! Images are themed as [`Raster`]s, plain grids of pixels. The module
//! [`interop`] reads them from and writes them to the images of the `image`
//! crate, [`themes`] reads a choice of theme from text.

pub mod colorlist;
pub mod hexcode;
pub mod interop;
pub mod laws;
pub mod naming;
pub mod nearest;
pub mod presets;
pub mod raster;
pub mod theme;
pub mod transform;
pub mod themes;

pub use colorlist::ParseError;
pub use hexcode::HexError;
pub use interop::{read_pixels, to_image};
pub use naming::themed_stem;
pub use nearest::{closest_color, EmptyPalette};
pub use raster::Raster;
pub use theme::Theme;
pub use themes::Themes;
pub use transform::apply_theme;
