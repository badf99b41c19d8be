//! Albums as a search lists them.

use crate::models::{AlbumArtist};
use crate::search::{SearchResource, Searchable};
use vstd::prelude::*;

verus! {

/// An album as an album search lists it.
#[derive(Debug, Clone)]
pub struct SearchedAlbum {
    /// The id.
    pub id: u64,
    /// The title.
    pub title: String,
    /// The address of the page on the web site.
    pub link: String,
    /// The address of the cover.
    pub cover: String,
    /// The address of the cover, small.
    pub cover_small: String,
    /// The address of the cover, medium-sized.
    pub cover_medium: String,
    /// The address of the cover, big.
    pub cover_big: String,
    /// The address of the cover, extra large.
    pub cover_xl: String,
    /// The id of the first genre; the list of genres says more.
    pub genre_id: Option<i32>,
    /// The number of tracks.
    pub nb_tracks: u64,
    /// The type of record: an album, an EP, and so on.
    pub record_type: String,
    /// Whether the lyrics are explicit.
    pub has_explicit_lyrics: bool,
    /// The artist.
    pub artist: AlbumArtist,
}

impl Searchable for SearchedAlbum {
    open spec fn search_resource() -> SearchResource {
        SearchResource::Albums
    }

    fn resource() -> (resource: SearchResource) {
        SearchResource::Albums
    }
}

} // verus!
