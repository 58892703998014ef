//! Starting up: bringing back the canvas that was saved, if there is one.
//!
//! A file that cannot be read as a picture is no reason not to start. It is
//! set aside and the canvas starts blank. Only a path that is there and is
//! not a file stops the server.

use crate::canvas::Canvas;
use crate::grid::Grid;
use crate::raster::Raster;
use crate::snapshot::{grid_of_png, CodecError};
use vstd::prelude::*;

verus! {

/// What was found at the path that the canvas is saved to.
#[derive(Debug, Clone, PartialEq, Eq)]
pub enum SavedFile {
    /// Nothing is there.
    Missing,
    /// Something is there that is not a regular file.
    NotAFile,
    /// A file is there and could not be read.
    Unreadable,
    /// A file is there, with these bytes.
    Content(Vec<u8>),
}

/// How the canvas started.
#[derive(Debug, Clone, Copy, PartialEq, Eq, Structural)]
pub enum Recovery {
    /// Nothing was saved: the canvas is as it was made.
    Fresh,
    /// The saved picture was laid over the canvas.
    Restored,
    /// The saved file was of no use. The canvas is as it was made, and the
    /// file is to be deleted.
    Discarded,
    /// The path is taken by something that is not a file. The server must
    /// not start.
    Refused,
}

/// What [`restore`] does to a canvas, and how it answers, for what the
/// decoder made of the saved file.
pub open spec fn restored(canvas: Grid, decoded: Option<Grid>) -> (Grid, Recovery) {
    match decoded {
        Some(saved) => (canvas.overlay(saved), Recovery::Restored),
        None => (canvas, Recovery::Discarded),
    }
}

/// What [`recover`] does to a canvas, and how it answers, for what was found
/// at the path.
pub open spec fn recovered(canvas: Grid, found: SavedFile) -> (Grid, Recovery) {
    match found {
        SavedFile::Missing => (canvas, Recovery::Fresh),
        SavedFile::NotAFile => (canvas, Recovery::Refused),
        SavedFile::Unreadable => (canvas, Recovery::Discarded),
        SavedFile::Content(bytes) => restored(canvas, grid_of_png(bytes@)),
    }
}

/// Lays a decoded picture over the canvas, or leaves the canvas alone where
/// decoding failed.
pub fn restore(canvas: &mut Canvas, decoded: Result<Raster, CodecError>) -> (outcome: Recovery)
    ensures
        (final(canvas)@, outcome) == restored(
            old(canvas)@,
            match decoded {
                Ok(raster) => Some(raster@),
                Err(_) => None,
            },
        ),
{
    match decoded {
        Ok(raster) => {
            canvas.load_from(&raster);
            Recovery::Restored
        },
        Err(_) => Recovery::Discarded,
    }
}

/// Brings a freshly made canvas up to what was saved. A saved picture is
/// laid over the canvas corner on corner: where it is smaller than the
/// canvas the rest of the canvas stays as it was, where it is larger the
/// overhang is dropped. A file that does not decode changes nothing.
pub fn recover(canvas: &mut Canvas, found: &SavedFile) -> (outcome: Recovery)
    ensures
        (final(canvas)@, outcome) == recovered(old(canvas)@, *found),
{
    match found {
        SavedFile::Missing => Recovery::Fresh,
        SavedFile::NotAFile => Recovery::Refused,
        SavedFile::Unreadable => Recovery::Discarded,
        SavedFile::Content(bytes) => {
            let decoded = Raster::from_png(bytes.as_slice());
            restore(canvas, decoded)
        },
    }
}

} // verus!
