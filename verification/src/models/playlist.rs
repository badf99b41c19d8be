//! Playlists and what a playlist embeds.

use crate::decimal::decimal;
use crate::models::{Album, Artist, DeezerArray, DeezerObject, Track, User};
use crate::path::{entity_path, make_numbered_path};
use crate::request::{lookup_request, Request};
use vstd::prelude::*;

verus! {

/// A playlist, as the playlist endpoint reports it.
#[derive(Debug, Clone)]
pub struct Playlist {
    /// The id.
    pub id: u64,
    /// The title.
    pub title: String,
    /// A description.
    pub description: String,
    /// The duration in seconds.
    pub duration_in_seconds: u64,
    /// Whether the playlist is public.
    pub is_public: bool,
    /// Whether the playlist is the list of loved tracks.
    pub is_loved_track: bool,
    /// Whether others may add to the playlist.
    pub is_collaborative: bool,
    /// The rating.
    pub rating: Option<u64>,
    /// The number of tracks.
    pub nb_tracks: u64,
    /// The number of tracks that have not been seen yet.
    pub unseen_track_count: Option<u64>,
    /// The number of fans.
    pub fans: u64,
    /// The address of the page on the web site.
    pub link: String,
    /// The address for sharing.
    pub share_link: String,
    /// The address of the picture.
    pub picture: String,
    /// The address of the picture, small.
    pub picture_small: String,
    /// The address of the picture, medium-sized.
    pub picture_medium: String,
    /// The address of the picture, big.
    pub picture_big: String,
    /// The address of the picture, extra large.
    pub picture_xl: String,
    /// A checksum over the tracks of the playlist.
    pub checksum: String,
    /// The user who made the playlist.
    pub creator: PlaylistUser,
    /// The tracks.
    pub tracks: DeezerArray<PlaylistTrack>,
}

impl DeezerObject for Playlist {
    open spec fn api_url(id: u64) -> Seq<char> {
        entity_path("playlist"@, decimal(id as nat))
    }

    fn get_api_url(id: u64) -> (url: String) {
        make_numbered_path("playlist", id)
    }
}

/// The creator of a playlist: a subset of `User`.
#[derive(Debug, Clone)]
pub struct PlaylistUser {
    /// The id.
    pub id: u64,
    /// The name.
    pub name: String,
}

impl PlaylistUser {
    /// Plans the lookup of the user that this record stands for: the `User`
    /// with the same id.
    pub fn get_full(&self) -> (request: Request)
        ensures
            request@ == lookup_request(User::api_url(self.id)),
    {
        User::get(self.id)
    }
}

/// A track of a playlist: a subset of `Track`, with the time it was added.
#[derive(Debug, Clone)]
pub struct PlaylistTrack {
    /// The id.
    pub id: u64,
    /// Whether the current user can play the track.
    pub readable: bool,
    /// The title.
    pub title: String,
    /// The title, short.
    pub title_short: String,
    /// The version of the title.
    pub title_version: Option<String>,
    /// Whether the track has not been seen yet.
    pub unseen: bool,
    /// The address of the page on the web site.
    pub link: String,
    /// The duration in seconds.
    pub duration_in_seconds: u64,
    /// The rank.
    pub rank: u64,
    /// Whether the lyrics are explicit.
    pub has_explicit_lyrics: bool,
    /// The address of a preview of the track.
    pub preview_url: String,
    /// When the track was added to the playlist, in seconds since the epoch.
    pub added_on: u64,
    /// The artist.
    pub artist: PlaylistTrackArtist,
    /// The album that the track belongs to.
    pub album: PlaylistTrackAlbum,
}

impl PlaylistTrack {
    /// Plans the lookup of the track that this record stands for: the `Track`
    /// with the same id.
    pub fn get_full(&self) -> (request: Request)
        ensures
            request@ == lookup_request(Track::api_url(self.id)),
    {
        Track::get(self.id)
    }
}

/// The artist of a track of a playlist: a subset of `Artist`.
#[derive(Debug, Clone)]
pub struct PlaylistTrackArtist {
    /// The id.
    pub id: u64,
    /// The name.
    pub name: String,
    /// The address of the page on the web site.
    pub link: String,
}

impl PlaylistTrackArtist {
    /// Plans the lookup of the artist that this record stands for: the `Artist`
    /// with the same id.
    pub fn get_full(&self) -> (request: Request)
        ensures
            request@ == lookup_request(Artist::api_url(self.id)),
    {
        Artist::get(self.id)
    }
}

/// The album of a track of a playlist: a subset of `Album`.
#[derive(Debug, Clone)]
pub struct PlaylistTrackAlbum {
    /// The id.
    pub id: u64,
    /// The title.
    pub title: String,
    /// The address of the cover.
    pub cover: String,
    /// The address of the cover, small.
    pub cover_small: String,
    /// The address of the cover, medium-sized.
    pub cover_medium: String,
    /// The address of the cover, big.
    pub cover_big: String,
    /// The address of the cover, extra large.
    pub cover_xl: String,
}

impl PlaylistTrackAlbum {
    /// Plans the lookup of the album that this record stands for: the `Album`
    /// with the same id.
    pub fn get_full(&self) -> (request: Request)
        ensures
            request@ == lookup_request(Album::api_url(self.id)),
    {
        Album::get(self.id)
    }
}

} // verus!
