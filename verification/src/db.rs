//! The track catalog data model: one record per track, loaded once at
//! startup and immutable for the life of the process.

use vstd::prelude::*;

verus! {

/// One catalog entry. An `album_art_id` of 0 means "no artwork".
/// `duration` is kept as an unparsed string; `mime_type` decides the
/// file extension of the track's media URL.
#[derive(Debug, PartialEq, Eq)]
pub struct Track {
    pub id: u16,
    pub title: String,
    pub artist: String,
    pub album: String,
    pub album_art_id: u16,
    pub track_number: u16,
    pub disc_number: u8,
    pub track_id: String,
    pub duration: String,
    pub mime_type: String,
}

} // verus!
