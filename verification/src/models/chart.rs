//! The charts.

use crate::models::{Album, Artist, DeezerArray, DeezerObject, Playlist, PlaylistUser, Track};
use crate::request::{lookup_request, Request};
use vstd::prelude::*;

verus! {

/// The current charts: the top tracks, albums, artists and playlists.
#[derive(Debug, Clone)]
pub struct Chart {
    /// The top tracks.
    pub tracks: DeezerArray<ChartTrack>,
    /// The top albums.
    pub albums: DeezerArray<ChartAlbum>,
    /// The top artists.
    pub artists: DeezerArray<ChartArtist>,
    /// The top playlists.
    pub playlists: DeezerArray<ChartPlaylist>,
}

/// A track in the charts: a subset of `Track`, with its position.
#[derive(Debug, Clone)]
pub struct ChartTrack {
    /// The id.
    pub id: u64,
    /// The title.
    pub title: String,
    /// The title, short.
    pub title_short: String,
    /// The version of the title.
    pub title_version: String,
    /// The address of the page on the web site.
    pub link: String,
    /// The duration in seconds.
    pub duration_in_seconds: u64,
    /// The rank.
    pub rank: u64,
    /// Whether the lyrics are explicit.
    pub has_explicit_lyrics: bool,
    /// The address of a preview of the track.
    pub preview_url: Option<String>,
    /// The position in the charts.
    pub position: u64,
    /// The artist.
    pub artist: ChartTrackArtist,
    /// The album that the track belongs to.
    pub album: ChartTrackAlbum,
}

impl ChartTrack {
    /// Plans the lookup of the track that this record stands for: the `Track`
    /// with the same id.
    pub fn get_full(&self) -> (request: Request)
        ensures
            request@ == lookup_request(Track::api_url(self.id)),
    {
        Track::get(self.id)
    }
}

/// The artist of a track in the charts: a subset of `Artist`.
#[derive(Debug, Clone)]
pub struct ChartTrackArtist {
    /// The id.
    pub id: u64,
    /// The name.
    pub name: String,
    /// The address of the page on the web site.
    pub link: String,
    /// The address of the picture.
    pub picture: String,
    /// The address of the picture, small.
    pub picture_small: String,
    /// The address of the picture, medium-sized.
    pub picture_medium: String,
    /// The address of the picture, big.
    pub picture_big: String,
    /// The address of the picture, extra large.
    pub picture_xl: String,
    /// Whether the artist has a radio of their own.
    pub has_radio: bool,
}

impl ChartTrackArtist {
    /// Plans the lookup of the artist that this record stands for: the `Artist`
    /// with the same id.
    pub fn get_full(&self) -> (request: Request)
        ensures
            request@ == lookup_request(Artist::api_url(self.id)),
    {
        Artist::get(self.id)
    }
}

/// The album of a track in the charts: a subset of `Album`.
#[derive(Debug, Clone)]
pub struct ChartTrackAlbum {
    /// The id.
    pub id: u64,
    /// The title.
    pub title: String,
    /// The address of the cover.
    pub cover: String,
    /// The address of the cover, small.
    pub cover_small: String,
    /// The address of the cover, medium-sized.
    pub cover_medium: String,
    /// The address of the cover, big.
    pub cover_big: String,
    /// The address of the cover, extra large.
    pub cover_xl: String,
}

impl ChartTrackAlbum {
    /// Plans the lookup of the album that this record stands for: the `Album`
    /// with the same id.
    pub fn get_full(&self) -> (request: Request)
        ensures
            request@ == lookup_request(Album::api_url(self.id)),
    {
        Album::get(self.id)
    }
}

/// An album in the charts: a subset of `Album`, with its position.
#[derive(Debug, Clone)]
pub struct ChartAlbum {
    /// The id.
    pub id: u64,
    /// The title.
    pub title: String,
    /// The address of the cover.
    pub cover: String,
    /// The address of the cover, small.
    pub cover_small: String,
    /// The address of the cover, medium-sized.
    pub cover_medium: String,
    /// The address of the cover, big.
    pub cover_big: String,
    /// The address of the cover, extra large.
    pub cover_xl: String,
    /// The type of record: an album, an EP, and so on.
    pub record_type: String,
    /// Whether the lyrics are explicit.
    pub has_explicit_lyrics: bool,
    /// The position in the charts.
    pub position: u64,
    /// The artist.
    pub artist: ChartAlbumArtist,
}

impl ChartAlbum {
    /// Plans the lookup of the album that this record stands for: the `Album`
    /// with the same id.
    pub fn get_full(&self) -> (request: Request)
        ensures
            request@ == lookup_request(Album::api_url(self.id)),
    {
        Album::get(self.id)
    }
}

/// The artist of an album in the charts: a subset of `Artist`.
#[derive(Debug, Clone)]
pub struct ChartAlbumArtist {
    /// The id.
    pub id: u64,
    /// The name.
    pub name: String,
    /// The address of the page on the web site.
    pub link: String,
    /// The address of the picture.
    pub picture: String,
    /// The address of the picture, small.
    pub picture_small: String,
    /// The address of the picture, medium-sized.
    pub picture_medium: String,
    /// The address of the picture, big.
    pub picture_big: String,
    /// The address of the picture, extra large.
    pub picture_xl: String,
    /// Whether the artist has a radio of their own.
    pub has_radio: bool,
}

impl ChartAlbumArtist {
    /// Plans the lookup of the artist that this record stands for: the `Artist`
    /// with the same id.
    pub fn get_full(&self) -> (request: Request)
        ensures
            request@ == lookup_request(Artist::api_url(self.id)),
    {
        Artist::get(self.id)
    }
}

/// An artist in the charts: a subset of `Artist`, with its position.
#[derive(Debug, Clone)]
pub struct ChartArtist {
    /// The id.
    pub id: u64,
    /// The name.
    pub name: String,
    /// The address of the page on the web site.
    pub link: String,
    /// The address of the picture.
    pub picture: String,
    /// The address of the picture, small.
    pub picture_small: String,
    /// The address of the picture, medium-sized.
    pub picture_medium: String,
    /// The address of the picture, big.
    pub picture_big: String,
    /// The address of the picture, extra large.
    pub picture_xl: String,
    /// Whether the artist has a radio of their own.
    pub has_radio: bool,
    /// The position in the charts.
    pub position: u64,
}

impl ChartArtist {
    /// Plans the lookup of the artist that this record stands for: the `Artist`
    /// with the same id.
    pub fn get_full(&self) -> (request: Request)
        ensures
            request@ == lookup_request(Artist::api_url(self.id)),
    {
        Artist::get(self.id)
    }
}

/// A playlist in the charts: a subset of `Playlist`, with its position.
#[derive(Debug, Clone)]
pub struct ChartPlaylist {
    /// The id.
    pub id: u64,
    /// The title.
    pub title: String,
    /// Whether the playlist is public.
    pub is_public: bool,
    /// The address of the page on the web site.
    pub link: String,
    /// The address of the picture.
    pub picture: String,
    /// The address of the picture, small.
    pub picture_small: String,
    /// The address of the picture, medium-sized.
    pub picture_medium: String,
    /// The address of the picture, big.
    pub picture_big: String,
    /// The address of the picture, extra large.
    pub picture_xl: String,
    /// The position in the charts.
    pub position: u64,
    /// The user who made the playlist.
    pub user: PlaylistUser,
}

impl ChartPlaylist {
    /// Plans the lookup of the playlist that this record stands for: the `Playlist`
    /// with the same id.
    pub fn get_full(&self) -> (request: Request)
        ensures
            request@ == lookup_request(Playlist::api_url(self.id)),
    {
        Playlist::get(self.id)
    }
}

} // verus!
