//! A snapshot: a copy of the canvas as it was at one moment, and its form as
//! a PNG file.

use crate::grid::Grid;
use crate::point::Color;
use crate::raster::{
    picture_to_rgb8, png_decoding, png_encoding, png_load, raster_columns, raster_get,
    raster_height, raster_pixels, raster_png, raster_rows, raster_width, Raster,
};
use vstd::prelude::*;

verus! {

impl View for Raster {
    type V = Grid;

    /// The grid that the raster stores.
    open spec fn view(&self) -> Grid {
        Grid::of_pixels(raster_width(*self), raster_height(*self), raster_pixels(*self))
    }
}

/// Why a snapshot could not be turned into a file, or a file into a
/// snapshot.
#[derive(Debug, Clone, Copy, PartialEq, Eq, Structural)]
pub enum CodecError {
    /// The encoder refused the snapshot.
    Encoding,
    /// The bytes are not a picture that the decoder can read.
    Decoding,
}

/// The PNG file of a grid, or `None` where the encoder refuses the grid.
pub open spec fn png_of(grid: Grid) -> Option<Seq<u8>> {
    png_encoding(grid.width, grid.height, grid.pixels())
}

/// The grid that the bytes of a PNG file decode to, or `None` where the
/// decoder refuses them.
pub open spec fn grid_of_png(bytes: Seq<u8>) -> Option<Grid> {
    match png_decoding(bytes) {
        Some((width, height, pixels)) => Some(Grid::of_pixels(width, height, pixels)),
        None => None,
    }
}

impl Raster {
    /// The number of columns.
    pub fn width(&self) -> (width: u32)
        ensures
            width == self@.width,
    {
        raster_columns(self)
    }

    /// The number of rows.
    pub fn height(&self) -> (height: u32)
        ensures
            height == self@.height,
    {
        raster_rows(self)
    }

    /// The colour at column `x`, row `y`, or `None` outside the raster.
    pub fn get(&self, x: u32, y: u32) -> (color: Option<Color>)
        ensures
            color == if self@.holds(x as nat, y as nat) {
                Some(self@.at(x as nat, y as nat))
            } else {
                None
            },
    {
        if x < raster_columns(self) && y < raster_rows(self) {
            let rgb = raster_get(self, x, y);
            Some(Color { r: rgb.0, g: rgb.1, b: rgb.2 })
        } else {
            None
        }
    }

    /// Encodes the raster as a PNG file, in memory. The bytes are those that
    /// the encoder of the `image` crate gives for this grid, and the call
    /// fails exactly where that encoder does.
    pub fn to_png(&self) -> (encoded: Result<Vec<u8>, CodecError>)
        ensures
            match encoded {
                Ok(bytes) => png_of(self@) == Some(bytes@),
                Err(error) => png_of(self@) is None && error == CodecError::Encoding,
            },
    {
        assert(raster_pixels(*self) =~= self@.pixels());
        match raster_png(self) {
            Ok(bytes) => Ok(bytes),
            Err(_) => Err(CodecError::Encoding),
        }
    }

    /// Decodes a PNG file that was read into memory, to eight-bit red, green
    /// and blue. The raster is the one that the decoder of the `image` crate
    /// gives for these bytes, and the call fails exactly where that decoder
    /// does.
    pub fn from_png(bytes: &[u8]) -> (decoded: Result<Raster, CodecError>)
        ensures
            match decoded {
                Ok(raster) => grid_of_png(bytes@) == Some(raster@),
                Err(error) => grid_of_png(bytes@) is None && error == CodecError::Decoding,
            },
    {
        match png_load(bytes) {
            Ok(picture) => {
                let raster = picture_to_rgb8(&picture);
                assert(raster@ =~= grid_of_png(bytes@)->Some_0);
                Ok(raster)
            },
            Err(_) => Err(CodecError::Decoding),
        }
    }
}

/// The grid of a raster has exactly the cells inside its width and height.
pub proof fn lemma_raster_wf(raster: Raster)
    ensures
        raster@.wf(),
{
}

} // verus!
