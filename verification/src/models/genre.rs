//! Genres.

use crate::decimal::decimal;
use crate::models::{DeezerEnumerable, DeezerObject};
use crate::path::{entity_path, make_numbered_path};
use vstd::prelude::*;

verus! {

/// A genre, as the genre endpoint reports it.
#[derive(Debug)]
pub struct Genre {
    /// The id.
    pub id: u64,
    /// The name.
    pub name: String,
    /// The address of the picture.
    pub picture: String,
    /// The address of the picture, small.
    pub picture_small: String,
    /// The address of the picture, medium-sized.
    pub picture_medium: String,
    /// The address of the picture, big.
    pub picture_big: String,
    /// The address of the picture, extra large.
    pub picture_xl: String,
}

impl DeezerObject for Genre {
    open spec fn api_url(id: u64) -> Seq<char> {
        entity_path("genre"@, decimal(id as nat))
    }

    fn get_api_url(id: u64) -> (url: String) {
        make_numbered_path("genre", id)
    }
}

impl DeezerEnumerable for Genre {
    open spec fn all_api_url() -> Seq<char> {
        "genre"@
    }

    fn get_all_api_url() -> (url: String) {
        String::from_str("genre")
    }
}

} // verus!
