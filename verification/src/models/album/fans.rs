//! The fans of an album.

use crate::decimal::{decimal, u64_to_string};
use crate::models::{Album, DeezerConnection};
use crate::path::{connection_path, make_connection_path};
use vstd::prelude::*;

verus! {

impl DeezerConnection<AlbumFanConnection> for Album {
    open spec fn connection_url(identifier: Seq<char>) -> Seq<char> {
        connection_path("album"@, identifier, "fans"@)
    }

    open spec fn identifier(&self) -> Seq<char> {
        decimal(self.id as nat)
    }

    fn get_connection_url(identifier: &str) -> (url: String) {
        make_connection_path("album", identifier, "fans")
    }

    fn get_url(&self) -> (url: String) {
        let number = u64_to_string(self.id);
        make_connection_path("album", number.as_str(), "fans")
    }
}

/// A fan of an album, an item of the album's `fans` relationship.
#[derive(Debug, Clone)]
pub struct AlbumFanConnection {
    /// The id.
    pub id: u64,
    /// The name.
    pub name: String,
    /// The address of the page on the web site.
    pub link: String,
    /// The address of the picture.
    pub picture: String,
    /// The address of the picture, small.
    pub picture_small: String,
    /// The address of the picture, medium-sized.
    pub picture_medium: String,
    /// The address of the picture, big.
    pub picture_big: String,
    /// The address of the picture, extra large.
    pub picture_xl: String,
}

} // verus!
