//! The tracks of an album.

use crate::decimal::{decimal, u64_to_string};
use crate::models::{Album, DeezerConnection};
use crate::path::{connection_path, make_connection_path};
use vstd::prelude::*;

verus! {

impl DeezerConnection<AlbumTrackConnection> for Album {
    open spec fn connection_url(identifier: Seq<char>) -> Seq<char> {
        connection_path("album"@, identifier, "tracks"@)
    }

    open spec fn identifier(&self) -> Seq<char> {
        decimal(self.id as nat)
    }

    fn get_connection_url(identifier: &str) -> (url: String) {
        make_connection_path("album", identifier, "tracks")
    }

    fn get_url(&self) -> (url: String) {
        let number = u64_to_string(self.id);
        make_connection_path("album", number.as_str(), "tracks")
    }
}

/// A track of an album, an item of the album's `tracks` relationship.
#[derive(Debug, Clone)]
pub struct AlbumTrackConnection {
    /// The id.
    pub id: u64,
    /// Whether the current user can play the track.
    pub readable: bool,
    /// The title.
    pub title: String,
    /// The title, short.
    pub title_short: String,
    /// The version of the title.
    pub title_version: String,
    /// The ISRC of the recording.
    pub isrc: String,
    /// The address of the page on the web site.
    pub link: String,
    /// The duration in seconds.
    pub duration_in_seconds: u64,
    /// The position of the track in its album.
    pub track_position_in_album: u64,
    /// The number of the disk of the album that holds the track.
    pub album_disk_number: u64,
    /// The rank.
    pub rank: u64,
    /// Whether the lyrics are explicit.
    pub has_explicit_lyrics: bool,
    /// The address of a preview of the track.
    pub preview_url: Option<String>,
    /// The id of a track to use in place of this one where this one is not readable.
    pub alternative_track_id: Option<u64>,
    /// The artist.
    pub artist: AlbumTrackConnectionArtist,
}

/// The artist of an `AlbumTrackConnection`.
#[derive(Debug, Clone)]
pub struct AlbumTrackConnectionArtist {
    /// The id.
    pub id: u64,
    /// The name.
    pub name: String,
}

} // verus!
