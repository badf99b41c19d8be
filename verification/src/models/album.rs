//! Albums and what an album embeds.

use crate::decimal::decimal;
use crate::models::{Artist, ContributorArtist, DeezerArray, DeezerObject, Genre, Track};
use crate::path::{entity_path, make_numbered_path};
use crate::request::{lookup_request, Request};
use vstd::prelude::*;

pub mod comments;
pub mod fans;
pub mod tracks;

verus! {

/// An album, as the album endpoint reports it.
#[derive(Debug)]
pub struct Album {
    /// The id.
    pub id: u64,
    /// The title.
    pub title: String,
    /// The UPC.
    pub upc: String,
    /// The address of the page on the web site.
    pub link: String,
    /// The address for sharing.
    pub share_link: String,
    /// The address of the cover.
    pub cover: String,
    /// The address of the cover, small.
    pub cover_small: String,
    /// The address of the cover, medium-sized.
    pub cover_medium: String,
    /// The address of the cover, big.
    pub cover_big: String,
    /// The address of the cover, extra large.
    pub cover_xl: String,
    /// The id of the first genre; the list of genres says more.
    pub genre_id: Option<i32>,
    /// The genres.
    pub genres: DeezerArray<AlbumGenre>,
    /// The name of the label.
    pub label: String,
    /// The number of tracks.
    pub nb_tracks: u64,
    /// The duration in seconds.
    pub duration_in_seconds: u64,
    /// The number of fans.
    pub fans: u64,
    /// The rating.
    pub rating: u64,
    /// The day of release.
    pub release_date: String,
    /// The type of record: an album, an EP, and so on.
    pub record_type: String,
    /// Whether the album is available now.
    pub available: bool,
    /// An album to use in place of this one where this one is not available.
    pub alternative_album: Option<Box<Album>>,
    /// The address of the list of tracks in the API.
    pub tracklist_api_url: String,
    /// Whether the lyrics are explicit.
    pub has_explicit_lyrics: bool,
    /// The artists who contributed.
    pub contributors: Vec<ContributorArtist>,
    /// The artist.
    pub artist: AlbumArtist,
    /// The tracks.
    pub tracks: DeezerArray<AlbumTrack>,
}

impl Album {
    /// A copy of this album, alternatives included. Numbers, flags and
    /// texts are the same in the copy; the embedded records are cloned.
    pub fn duplicate(&self) -> (copy: Album)
        ensures
            copy.id == self.id,
            copy.title == self.title,
            copy.upc == self.upc,
            copy.link == self.link,
            copy.share_link == self.share_link,
            copy.cover == self.cover,
            copy.cover_small == self.cover_small,
            copy.cover_medium == self.cover_medium,
            copy.cover_big == self.cover_big,
            copy.cover_xl == self.cover_xl,
            copy.genre_id == self.genre_id,
            copy.label == self.label,
            copy.nb_tracks == self.nb_tracks,
            copy.duration_in_seconds == self.duration_in_seconds,
            copy.fans == self.fans,
            copy.rating == self.rating,
            copy.release_date == self.release_date,
            copy.record_type == self.record_type,
            copy.available == self.available,
            copy.tracklist_api_url == self.tracklist_api_url,
            copy.has_explicit_lyrics == self.has_explicit_lyrics,
            copy.alternative_album is Some <==> self.alternative_album is Some,
        decreases self,
    {
        Album {
            id: self.id,
            title: self.title.clone(),
            upc: self.upc.clone(),
            link: self.link.clone(),
            share_link: self.share_link.clone(),
            cover: self.cover.clone(),
            cover_small: self.cover_small.clone(),
            cover_medium: self.cover_medium.clone(),
            cover_big: self.cover_big.clone(),
            cover_xl: self.cover_xl.clone(),
            genre_id: self.genre_id,
            genres: self.genres.clone(),
            label: self.label.clone(),
            nb_tracks: self.nb_tracks,
            duration_in_seconds: self.duration_in_seconds,
            fans: self.fans,
            rating: self.rating,
            release_date: self.release_date.clone(),
            record_type: self.record_type.clone(),
            available: self.available,
            alternative_album: match &self.alternative_album {
                Some(other) => Some(Box::new(other.duplicate())),
                None => None,
            },
            tracklist_api_url: self.tracklist_api_url.clone(),
            has_explicit_lyrics: self.has_explicit_lyrics,
            contributors: self.contributors.clone(),
            artist: self.artist.clone(),
            tracks: self.tracks.clone(),
        }
    }
}

impl Clone for Album {
    fn clone(&self) -> (copy: Album)
        ensures
            copy.id == self.id,
            copy.title == self.title,
            copy.upc == self.upc,
    {
        self.duplicate()
    }
}

impl DeezerObject for Album {
    open spec fn api_url(id: u64) -> Seq<char> {
        entity_path("album"@, decimal(id as nat))
    }

    fn get_api_url(id: u64) -> (url: String) {
        make_numbered_path("album", id)
    }
}

/// The artist of an album, as embedded in the album: a subset of `Artist`.
#[derive(Debug, Clone)]
pub struct AlbumArtist {
    /// The id.
    pub id: u64,
    /// The name.
    pub name: String,
    /// The address of the picture.
    pub picture: String,
    /// The address of the picture, small.
    pub picture_small: String,
    /// The address of the picture, medium-sized.
    pub picture_medium: String,
    /// The address of the picture, big.
    pub picture_big: String,
    /// The address of the picture, extra large.
    pub picture_xl: String,
}

impl AlbumArtist {
    /// Plans the lookup of the artist that this record stands for: the `Artist`
    /// with the same id.
    pub fn get_full(&self) -> (request: Request)
        ensures
            request@ == lookup_request(Artist::api_url(self.id)),
    {
        Artist::get(self.id)
    }
}

/// The artist of a track of an album, as embedded there: a subset of `Artist`.
#[derive(Debug, Clone)]
pub struct AlbumTrackArtist {
    /// The id.
    pub id: u64,
    /// The name.
    pub name: String,
    /// The address of the list of top tracks in the API.
    pub tracklist: String,
}

impl AlbumTrackArtist {
    /// Plans the lookup of the artist that this record stands for: the `Artist`
    /// with the same id.
    pub fn get_full(&self) -> (request: Request)
        ensures
            request@ == lookup_request(Artist::api_url(self.id)),
    {
        Artist::get(self.id)
    }
}

/// A track of an album, as embedded in the album: a subset of `Track`.
#[derive(Debug, Clone)]
pub struct AlbumTrack {
    /// The id.
    pub id: u64,
    /// Whether the current user can play the track.
    pub readable: bool,
    /// The title.
    pub title: String,
    /// The title, short.
    pub title_short: String,
    /// The version of the title.
    pub title_version: String,
    /// The address of the page on the web site.
    pub link: String,
    /// The duration in seconds.
    pub duration_in_seconds: u64,
    /// The rank.
    pub rank: u64,
    /// Whether the lyrics are explicit.
    pub explicit_lyrics: bool,
    /// The address of a preview: the first thirty seconds of the track.
    pub preview: String,
    /// The artist.
    pub artist: AlbumTrackArtist,
}

impl AlbumTrack {
    /// Plans the lookup of the track that this record stands for: the `Track`
    /// with the same id.
    pub fn get_full(&self) -> (request: Request)
        ensures
            request@ == lookup_request(Track::api_url(self.id)),
    {
        Track::get(self.id)
    }
}

/// A genre of an album, as embedded in the album: a subset of `Genre`.
#[derive(Debug, Clone)]
pub struct AlbumGenre {
    /// The id.
    pub id: u64,
    /// The name.
    pub name: String,
    /// The address of the picture.
    pub picture: String,
}

impl AlbumGenre {
    /// Plans the lookup of the genre that this record stands for: the `Genre`
    /// with the same id.
    pub fn get_full(&self) -> (request: Request)
        ensures
            request@ == lookup_request(Genre::api_url(self.id)),
    {
        Genre::get(self.id)
    }
}

} // verus!
