//! Artists and the albums of an artist.

use crate::decimal::{decimal, u64_to_string};
use crate::models::{Album, DeezerConnection, DeezerObject};
use crate::path::{connection_path, entity_path, make_connection_path, make_numbered_path};
use crate::request::{lookup_request, Request};
use vstd::prelude::*;

verus! {

/// An artist, as the artist endpoint reports it.
#[derive(Debug)]
pub struct Artist {
    /// The id.
    pub id: u64,
    /// The name.
    pub name: String,
    /// The address of the page on the web site.
    pub link: String,
    /// The address for sharing.
    pub share_link: String,
    /// The address of the picture.
    pub picture: String,
    /// The address of the picture, small.
    pub picture_small: String,
    /// The address of the picture, medium-sized.
    pub picture_medium: String,
    /// The address of the picture, big.
    pub picture_big: String,
    /// The address of the picture, extra large.
    pub picture_xl: String,
    /// The number of albums.
    pub nb_album: u64,
    /// The number of fans.
    pub nb_fan: u64,
    /// Whether the artist has a radio of their own.
    pub has_radio: bool,
    /// The address of the list of top tracks in the API.
    pub tracklist: String,
}

impl DeezerObject for Artist {
    open spec fn api_url(id: u64) -> Seq<char> {
        entity_path("artist"@, decimal(id as nat))
    }

    fn get_api_url(id: u64) -> (url: String) {
        make_numbered_path("artist", id)
    }
}

impl DeezerConnection<ArtistAlbum> for Artist {
    open spec fn connection_url(identifier: Seq<char>) -> Seq<char> {
        connection_path("artist"@, identifier, "albums"@)
    }

    open spec fn identifier(&self) -> Seq<char> {
        decimal(self.id as nat)
    }

    fn get_connection_url(identifier: &str) -> (url: String) {
        make_connection_path("artist", identifier, "albums")
    }

    fn get_url(&self) -> (url: String) {
        let number = u64_to_string(self.id);
        make_connection_path("artist", number.as_str(), "albums")
    }
}

/// A contributor to an album or a track: a subset of `Artist`.
#[derive(Debug, Clone)]
pub struct ContributorArtist {
    /// The id.
    pub id: u64,
    /// The name.
    pub name: String,
    /// The address of the page on the web site.
    pub link: String,
    /// The address for sharing.
    pub share_link: String,
    /// The address of the picture, small.
    pub picture_small: String,
    /// The address of the picture, medium-sized.
    pub picture_medium: String,
    /// The address of the picture, big.
    pub picture_big: String,
    /// The address of the picture, extra large.
    pub picture_xl: String,
    /// Whether the artist has a radio of their own.
    pub has_radio: bool,
    /// The address of the list of top tracks in the API.
    pub tracklist: String,
}

impl ContributorArtist {
    /// Plans the lookup of the artist that this record stands for: the `Artist`
    /// with the same id.
    pub fn get_full(&self) -> (request: Request)
        ensures
            request@ == lookup_request(Artist::api_url(self.id)),
    {
        Artist::get(self.id)
    }
}

/// An album of an artist, an item of the artist's `albums` relationship: a subset of `Album`.
#[derive(Debug, Clone)]
pub struct ArtistAlbum {
    /// The id.
    pub id: u64,
    /// The title.
    pub title: String,
    /// The address of the page on the web site.
    pub link: String,
    /// The address of the cover.
    pub cover: String,
    /// The address of the cover, small.
    pub cover_small: String,
    /// The address of the cover, medium-sized.
    pub cover_medium: String,
    /// The address of the cover, big.
    pub cover_big: String,
    /// The address of the cover, extra large.
    pub cover_xl: String,
    /// The id of the first genre; the list of genres says more.
    pub genre_id: Option<i32>,
    /// The number of fans.
    pub fans: u32,
    /// The day of release.
    pub release_date: String,
    /// The type of record: an album, an EP, and so on.
    pub record_type: String,
    /// Whether the lyrics are explicit.
    pub explicit_lyrics: bool,
}

impl DeezerObject for ArtistAlbum {
    /// Addressed through its artist: `id` is the artist's.
    open spec fn api_url(id: u64) -> Seq<char> {
        connection_path("artist"@, decimal(id as nat), "albums"@)
    }

    fn get_api_url(id: u64) -> (url: String) {
        let number = u64_to_string(id);
        make_connection_path("artist", number.as_str(), "albums")
    }
}

impl ArtistAlbum {
    /// Plans the lookup of the album that this record stands for: the `Album`
    /// with the same id.
    pub fn get_full(&self) -> (request: Request)
        ensures
            request@ == lookup_request(Album::api_url(self.id)),
    {
        Album::get(self.id)
    }
}

} // verus!
