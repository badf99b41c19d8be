//! The records of the API and what they know of their own addresses.

use crate::request::{lookup_request, plain_request, OnMissing, Request};
use vstd::prelude::*;

pub mod album;
pub mod artist;
pub mod chart;
pub mod comment;
pub mod editorial;
pub mod genre;
pub mod infos;
pub mod options;
pub mod playlist;
pub mod radio;
pub mod search;
pub mod track;
pub mod user;

pub use self::album::{Album, AlbumArtist, AlbumGenre, AlbumTrack, AlbumTrackArtist};
pub use self::album::comments::AlbumCommentConnection;
pub use self::album::fans::AlbumFanConnection;
pub use self::album::tracks::{AlbumTrackConnection, AlbumTrackConnectionArtist};
pub use self::artist::{Artist, ArtistAlbum, ContributorArtist};
pub use self::chart::{
    Chart, ChartAlbum, ChartAlbumArtist, ChartArtist, ChartPlaylist, ChartTrack, ChartTrackAlbum,
    ChartTrackArtist,
};
pub use self::comment::{Comment, CommentAuthor, CommentParent};
pub use self::editorial::Editorial;
pub use self::genre::Genre;
pub use self::infos::{Infos, Offer};
pub use self::options::Options;
pub use self::playlist::{
    Playlist, PlaylistTrack, PlaylistTrackAlbum, PlaylistTrackArtist, PlaylistUser,
};
pub use self::radio::Radio;
pub use self::search::albums::SearchedAlbum;
pub use self::track::{Track, TrackAlbum, TrackArtist};
pub use self::user::User;

verus! {

/// A record that can be looked up by its numeric id.
pub trait DeezerObject: Sized {
    /// The relative path of the instance with the given id.
    spec fn api_url(id: u64) -> Seq<char>;

    /// Builds the relative path of the instance with the given id.
    fn get_api_url(id: u64) -> (url: String)
        ensures
            url@ == Self::api_url(id),
    ;

    /// Plans the lookup of the instance with the given id.
    fn get(id: u64) -> (request: Request)
        ensures
            request@ == lookup_request(Self::api_url(id)),
    {
        let path = Self::get_api_url(id);
        Request::new(path.as_str(), None, OnMissing::Absent)
    }
}

/// A record of which the API lists all instances.
pub trait DeezerEnumerable: DeezerObject {
    /// The relative path of the list of all instances.
    spec fn all_api_url() -> Seq<char>;

    /// Builds the relative path of the list of all instances.
    fn get_all_api_url() -> (url: String)
        ensures
            url@ == Self::all_api_url(),
    ;

    /// Plans the fetch of all instances. The reply is an envelope.
    fn get_all() -> (request: Request)
        ensures
            request@ == plain_request(Self::all_api_url()),
    {
        let path = Self::get_all_api_url();
        Request::new(path.as_str(), None, OnMissing::Fail)
    }
}

/// A record that owns a collection of `C`s, a relationship that hangs off
/// each of its instances.
pub trait DeezerConnection<C>: Sized {
    /// The relative path of the relationship of the owner that `identifier`
    /// names. The identifier is a path segment as it stands: a number, or
    /// an alternate key with its prefix.
    spec fn connection_url(identifier: Seq<char>) -> Seq<char>;

    /// The path segment that names this instance.
    spec fn identifier(&self) -> Seq<char>;

    /// Builds the relative path of the relationship for an owner.
    fn get_connection_url(identifier: &str) -> (url: String)
        ensures
            url@ == Self::connection_url(identifier@),
    ;

    /// Builds the relative path of the relationship of this instance.
    fn get_url(&self) -> (url: String)
        ensures
            url@ == Self::connection_url(self.identifier()),
    ;
}

/// The envelope in which the API hands out a collection: an object whose
/// `data` member holds the items, in the server's order.
#[derive(Debug, Clone)]
pub struct DeezerArray<T> {
    pub data: Vec<T>,
}

impl<T> View for DeezerArray<T> {
    type V = Seq<T>;

    /// The items in the server's order.
    open spec fn view(&self) -> Seq<T> {
        self.data@
    }
}

impl<T> DeezerArray<T> {
    /// Walks the items in order.
    pub fn iter(&self) -> (iter: std::slice::Iter<'_, T>)
        ensures
            vstd::std_specs::iter::IteratorSpec::remaining(&iter) == self@.as_ref(),
    {
        self.data.as_slice().iter()
    }

    /// The items as a plain sequence, in the same order.
    pub fn into_vec(self) -> (items: Vec<T>)
        ensures
            items@ == self@,
    {
        self.data
    }
}

impl<T> std::ops::Deref for DeezerArray<T> {
    type Target = [T];

    fn deref(&self) -> (items: &[T])
        ensures
            items@ == self@,
    {
        self.data.as_slice()
    }
}

impl<T> AsRef<[T]> for DeezerArray<T> {
    fn as_ref(&self) -> (items: &[T])
        ensures
            items@ == self@,
    {
        self.data.as_slice()
    }
}

impl<T> IntoIterator for DeezerArray<T> {
    type Item = T;

    type IntoIter = std::vec::IntoIter<T>;

    /// Hands the items out in order.
    fn into_iter(self) -> (iter: std::vec::IntoIter<T>)
        ensures
            iter == vstd::std_specs::vec::spec_into_iter(self.data),
    {
        self.data.into_iter()
    }
}

} // verus!
