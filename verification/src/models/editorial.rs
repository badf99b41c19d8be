//! Editorials.

use crate::decimal::decimal;
use crate::models::{DeezerEnumerable, DeezerObject};
use crate::path::{entity_path, make_numbered_path};
use vstd::prelude::*;

verus! {

/// An editorial, as the editorial endpoint reports it.
#[derive(Debug, Clone)]
pub struct Editorial {
    /// The id.
    pub id: u64,
    /// The name.
    pub name: String,
    /// The address of the picture.
    pub picture: String,
    /// The address of the picture, small.
    pub picture_small: String,
    /// The address of the picture, medium-sized.
    pub picture_medium: String,
    /// The address of the picture, big.
    pub picture_big: String,
    /// The address of the picture, extra large.
    pub picture_xl: String,
}

impl DeezerObject for Editorial {
    open spec fn api_url(id: u64) -> Seq<char> {
        entity_path("editorial"@, decimal(id as nat))
    }

    fn get_api_url(id: u64) -> (url: String) {
        make_numbered_path("editorial", id)
    }
}

impl DeezerEnumerable for Editorial {
    open spec fn all_api_url() -> Seq<char> {
        "editorial"@
    }

    fn get_all_api_url() -> (url: String) {
        String::from_str("editorial")
    }
}

} // verus!
