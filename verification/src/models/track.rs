//! Tracks and what a track embeds.

use crate::decimal::decimal;
use crate::models::{Album, Artist, ContributorArtist, DeezerObject};
use crate::path::{entity_path, make_numbered_path};
use crate::request::{lookup_request, Request};
use vstd::prelude::*;

verus! {

/// A track, as the track endpoint reports it.
#[derive(Debug, Clone)]
pub struct Track {
    /// The id.
    pub id: u64,
    /// Whether the current user can play the track.
    pub readable: bool,
    /// The title.
    pub title: String,
    /// The title, short.
    pub title_short: String,
    /// The version of the title.
    pub title_version: String,
    /// Whether the track has not been seen yet.
    pub unseen: Option<bool>,
    /// The ISRC of the recording.
    pub isrc: String,
    /// The address of the page on the web site.
    pub link: String,
    /// The address for sharing.
    pub share_link: String,
    /// The duration in seconds.
    pub duration_in_seconds: u64,
    /// The position of the track in its album.
    pub track_position_in_album: u64,
    /// The number of the disk of the album that holds the track.
    pub album_disk_number: u64,
    /// The rank.
    pub rank: u64,
    /// The day of release.
    pub release_date: String,
    /// Whether the lyrics are explicit.
    pub has_explicit_lyrics: bool,
    /// The address of a preview of the track.
    pub preview_url: Option<String>,
    /// The bit pattern of the single-precision number that the API gives for `bpm`.
    pub bpm_bits: u32,
    /// The bit pattern of the single-precision number that the API gives for `gain`.
    pub gain_bits: u32,
    /// The countries in which the track is available.
    pub available_countries: Vec<String>,
    /// The id of a track to use in place of this one where this one is not readable.
    pub alternative_track_id: Option<u64>,
    /// The artists who contributed.
    pub contributors: Vec<ContributorArtist>,
    /// The artist.
    pub artist: TrackArtist,
    /// The album that the track belongs to.
    pub album: TrackAlbum,
}

impl DeezerObject for Track {
    open spec fn api_url(id: u64) -> Seq<char> {
        entity_path("track"@, decimal(id as nat))
    }

    fn get_api_url(id: u64) -> (url: String) {
        make_numbered_path("track", id)
    }
}

/// The artist of a track, as embedded in the track: a subset of `Artist`.
#[derive(Debug, Clone)]
pub struct TrackArtist {
    /// The id.
    pub id: u64,
    /// The name.
    pub name: String,
    /// The address of the page on the web site.
    pub link: String,
    /// The address for sharing.
    pub share_link: String,
    /// The address of the picture.
    pub picture: String,
    /// The address of the picture, small.
    pub picture_small: String,
    /// The address of the picture, medium-sized.
    pub picture_medium: String,
    /// The address of the picture, big.
    pub picture_big: String,
    /// The address of the picture, extra large.
    pub picture_xl: String,
    /// The number of albums.
    pub nb_album: Option<u64>,
    /// The number of fans.
    pub nb_fan: Option<u64>,
    /// Whether the artist has a radio of their own.
    pub has_radio: bool,
    /// The address of the list of top tracks in the API.
    pub tracklist: String,
}

impl TrackArtist {
    /// Plans the lookup of the artist that this record stands for: the `Artist`
    /// with the same id.
    pub fn get_full(&self) -> (request: Request)
        ensures
            request@ == lookup_request(Artist::api_url(self.id)),
    {
        Artist::get(self.id)
    }
}

/// The album of a track, as embedded in the track: a subset of `Album`.
#[derive(Debug, Clone)]
pub struct TrackAlbum {
    /// The id.
    pub id: u64,
    /// The title.
    pub title: String,
    /// The address of the page on the web site.
    pub link: String,
    /// The address of the cover.
    pub cover: String,
    /// The address of the cover, small.
    pub cover_small: String,
    /// The address of the cover, medium-sized.
    pub cover_medium: String,
    /// The address of the cover, big.
    pub cover_big: String,
    /// The address of the cover, extra large.
    pub cover_xl: String,
    /// The day of release.
    pub release_date: String,
}

impl TrackAlbum {
    /// Plans the lookup of the album that this record stands for: the `Album`
    /// with the same id.
    pub fn get_full(&self) -> (request: Request)
        ensures
            request@ == lookup_request(Album::api_url(self.id)),
    {
        Album::get(self.id)
    }
}

} // verus!
