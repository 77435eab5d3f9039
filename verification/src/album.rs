//! A minimal album value: the title-and-dates core of a release group,
//! with its identifier and owning-artist back-reference.
use vstd::prelude::*;
use crate::mbid::Uuid;

verus! {

/// An album: title, release date, identifier, and the owning artist's
/// identifier.
#[derive(Debug, Clone)]
pub struct Album {
    pub title: String,
    pub release_date: String,
    pub id: Uuid,
    pub artist: Uuid,
}

impl Album {
    /// Builds an album from its parts.
    pub fn new(title: String, release_date: String, id: Uuid, artist: Uuid) -> (r: Album)
        ensures
            r.title == title,
            r.release_date == release_date,
            r.id == id,
            r.artist == artist,
    {
        Album { title, release_date, id, artist }
    }
}

} // verus!
