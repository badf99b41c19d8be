//! Users.

use crate::decimal::decimal;
use crate::models::{DeezerObject};
use crate::path::{entity_path, make_numbered_path};
use vstd::prelude::*;

verus! {

/// A user, as the user endpoint reports it.
#[derive(Debug, Clone)]
pub struct User {
    /// The id.
    pub id: u64,
    /// The name.
    pub name: String,
    /// The last name.
    pub last_name: String,
    /// The first name.
    pub first_name: String,
    /// The e-mail address.
    pub email: String,
    /// The status of the user.
    pub status: u64,
    /// The day of birth.
    pub birthday: String,
    /// The day on which the user signed up.
    pub inscription_date: String,
    /// The gender.
    pub gender: String,
    /// The address of the page on the web site.
    pub link: String,
    /// The address of the picture.
    pub picture: String,
    /// The address of the picture, small.
    pub picture_small: String,
    /// The address of the picture, medium-sized.
    pub picture_medium: String,
    /// The address of the picture, big.
    pub picture_big: String,
    /// The address of the picture, extra large.
    pub picture_xl: String,
    /// The name of the country.
    pub country: String,
    /// The language.
    pub lang: String,
    /// Whether the account is a child's.
    pub is_kid: bool,
    /// The address of the list of tracks in the API.
    pub track_list: String,
}

impl DeezerObject for User {
    open spec fn api_url(id: u64) -> Seq<char> {
        entity_path("user"@, decimal(id as nat))
    }

    fn get_api_url(id: u64) -> (url: String) {
        make_numbered_path("user", id)
    }
}

} // verus!
