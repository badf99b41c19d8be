//! Radios.

use crate::decimal::decimal;
use crate::models::{DeezerEnumerable, DeezerObject};
use crate::path::{entity_path, make_numbered_path};
use vstd::prelude::*;

verus! {

/// A radio, as the radio endpoint reports it.
#[derive(Debug)]
pub struct Radio {
    /// The id.
    pub id: u64,
    /// The title.
    pub title: String,
    /// A description.
    pub description: Option<String>,
    /// The address for sharing.
    pub share_link: Option<String>,
    /// The address of the picture.
    pub picture: String,
    /// The address of the picture, small.
    pub picture_small: String,
    /// The address of the picture, medium-sized.
    pub picture_medium: String,
    /// The address of the picture, big.
    pub picture_big: String,
    /// The address of the picture, extra large.
    pub picture_xl: String,
    /// The address of the list of tracks in the API.
    pub track_list: String,
}

impl DeezerObject for Radio {
    open spec fn api_url(id: u64) -> Seq<char> {
        entity_path("radio"@, decimal(id as nat))
    }

    fn get_api_url(id: u64) -> (url: String) {
        make_numbered_path("radio", id)
    }
}

impl DeezerEnumerable for Radio {
    open spec fn all_api_url() -> Seq<char> {
        "radio"@
    }

    fn get_all_api_url() -> (url: String) {
        String::from_str("radio")
    }
}

} // verus!
