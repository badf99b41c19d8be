//! The entry point: plans every request that the API answers.

use crate::clients::albums::AlbumsClient;
use crate::decimal::{decimal, u32_to_string};
use crate::models::{
    Album, Artist, Comment, DeezerConnection, DeezerEnumerable, DeezerObject, Editorial, Genre,
    Playlist, Radio, Track, User,
};
use crate::params::{has_key, keys_distinct, lemma_position_unique, value_of, QueryParams};
use crate::request::{
    lookup_request, plain_request, query_request, request_for, OnMissing, Request,
};
use vstd::prelude::*;

verus! {

/// The parameters that select a page: `limit`, then `offset`, each written
/// in decimal, and each only where it is given.
pub open spec fn page_params(limit: Option<u32>, offset: Option<u32>) -> Seq<
    (Seq<char>, Seq<char>),
> {
    let first = match limit {
        Some(n) => seq![("limit"@, decimal(n as nat))],
        None => Seq::<(Seq<char>, Seq<char>)>::empty(),
    };
    match offset {
        Some(n) => first.push(("offset"@, decimal(n as nat))),
        None => first,
    }
}

/// The names `limit` and `offset` differ.
pub proof fn lemma_page_names_differ()
    ensures
        "limit"@ != "offset"@,
{
    reveal_strlit("limit");
    reveal_strlit("offset");
    assert("limit"@.len() == 5);
    assert("offset"@.len() == 6);
}

/// Of the parameters that select a page: `limit` is there if and only if a
/// limit is given, and holds it in decimal; the same for `offset`; and
/// nothing else is there. A parameter that is not given is left out, not
/// sent empty.
pub proof fn lemma_page_params(limit: Option<u32>, offset: Option<u32>)
    ensures
        keys_distinct(page_params(limit, offset)),
        has_key(page_params(limit, offset), "limit"@) <==> limit is Some,
        has_key(page_params(limit, offset), "offset"@) <==> offset is Some,
        limit matches Some(n) ==> value_of(page_params(limit, offset), "limit"@) == decimal(
            n as nat,
        ),
        offset matches Some(n) ==> value_of(page_params(limit, offset), "offset"@) == decimal(
            n as nat,
        ),
        forall|key: Seq<char>|
            has_key(page_params(limit, offset), key) ==> key == "limit"@ || key == "offset"@,
        page_params(limit, offset).len() == (if limit is Some {
            1nat
        } else {
            0nat
        }) + (if offset is Some {
            1nat
        } else {
            0nat
        }),
        limit is None && offset is None ==> page_params(limit, offset) == Seq::<
            (Seq<char>, Seq<char>),
        >::empty(),
{
    lemma_page_names_differ();
    let params = page_params(limit, offset);
    assert(keys_distinct(params));
    match limit {
        Some(n) => {
            assert(params[0] == ("limit"@, decimal(n as nat)));
            lemma_position_unique(params, "limit"@, 0);
        },
        None => {},
    }
    match offset {
        Some(n) => {
            let at = params.len() - 1;
            assert(params[at] == ("offset"@, decimal(n as nat)));
            lemma_position_unique(params, "offset"@, at);
        },
        None => {},
    }
}

/// Builds the parameters that select a page.
pub fn make_page_params(limit: Option<u32>, offset: Option<u32>) -> (params: QueryParams)
    ensures
        params@ == page_params(limit, offset),
{
    proof {
        lemma_page_names_differ();
    }
    let mut params = QueryParams::new();
    if let Some(n) = limit {
        params.insert(String::from_str("limit"), u32_to_string(n));
        assert(params@ =~= seq![("limit"@, decimal(n as nat))]);
    }
    if let Some(n) = offset {
        assert(!has_key(params@, "offset"@));
        params.insert(String::from_str("offset"), u32_to_string(n));
    }
    params
}

/// Plans requests to the API. It holds no connection and performs no I/O:
/// what it hands out is carried out by a transport of the caller's choice.
#[derive(Debug, Clone, Copy)]
pub struct DeezerClient {}

impl Default for DeezerClient {
    fn default() -> (client: DeezerClient) {
        DeezerClient {  }
    }
}

impl DeezerClient {
    /// A client for the public API.
    pub fn new() -> (client: DeezerClient) {
        DeezerClient {  }
    }

    /// The part of the client that deals with albums.
    pub fn albums(&self) -> (albums: AlbumsClient) {
        AlbumsClient::new(*self)
    }

    /// Plans the lookup of the album with the given id.
    pub fn album(&self, id: u64) -> (request: Request)
        ensures
            request@ == lookup_request(Album::api_url(id)),
    {
        self.get_entity::<Album>(id)
    }

    /// Plans the lookup of the artist with the given id.
    pub fn artist(&self, id: u64) -> (request: Request)
        ensures
            request@ == lookup_request(Artist::api_url(id)),
    {
        self.get_entity::<Artist>(id)
    }

    /// Plans the lookup of the comment with the given id.
    pub fn comment(&self, id: u64) -> (request: Request)
        ensures
            request@ == lookup_request(Comment::api_url(id)),
    {
        self.get_entity::<Comment>(id)
    }

    /// Plans the lookup of the editorial with the given id.
    pub fn editorial(&self, id: u64) -> (request: Request)
        ensures
            request@ == lookup_request(Editorial::api_url(id)),
    {
        self.get_entity::<Editorial>(id)
    }

    /// Plans the fetch of all editorials.
    pub fn editorials(&self) -> (request: Request)
        ensures
            request@ == plain_request(Editorial::all_api_url()),
    {
        self.get_all::<Editorial>()
    }

    /// Plans the lookup of the genre with the given id.
    pub fn genre(&self, id: u64) -> (request: Request)
        ensures
            request@ == lookup_request(Genre::api_url(id)),
    {
        self.get_entity::<Genre>(id)
    }

    /// Plans the fetch of all genres.
    pub fn genres(&self) -> (request: Request)
        ensures
            request@ == plain_request(Genre::all_api_url()),
    {
        self.get_all::<Genre>()
    }

    /// Plans the lookup of the playlist with the given id.
    pub fn playlist(&self, id: u64) -> (request: Request)
        ensures
            request@ == lookup_request(Playlist::api_url(id)),
    {
        self.get_entity::<Playlist>(id)
    }

    /// Plans the lookup of the radio with the given id.
    pub fn radio(&self, id: u64) -> (request: Request)
        ensures
            request@ == lookup_request(Radio::api_url(id)),
    {
        self.get_entity::<Radio>(id)
    }

    /// Plans the fetch of all radios.
    pub fn radios(&self) -> (request: Request)
        ensures
            request@ == plain_request(Radio::all_api_url()),
    {
        self.get_all::<Radio>()
    }

    /// Plans the lookup of the track with the given id.
    pub fn track(&self, id: u64) -> (request: Request)
        ensures
            request@ == lookup_request(Track::api_url(id)),
    {
        self.get_entity::<Track>(id)
    }

    /// Plans the lookup of the user with the given id.
    pub fn user(&self, id: u64) -> (request: Request)
        ensures
            request@ == lookup_request(User::api_url(id)),
    {
        self.get_entity::<User>(id)
    }

    /// Plans the fetch of what the API says of itself.
    pub fn api_info(&self) -> (request: Request)
        ensures
            request@ == plain_request("infos"@),
    {
        self.get("infos")
    }

    /// Plans the fetch of the current charts.
    pub fn charts(&self) -> (request: Request)
        ensures
            request@ == plain_request("chart"@),
    {
        self.get("chart")
    }

    /// Plans the fetch of the current user's options.
    pub fn user_options(&self) -> (request: Request)
        ensures
            request@ == plain_request("options"@),
    {
        self.get("options")
    }

    /// Plans the lookup of the `T` with the given id.
    pub fn get_entity<T: DeezerObject>(&self, id: u64) -> (request: Request)
        ensures
            request@ == lookup_request(T::api_url(id)),
    {
        let url = T::get_api_url(id);
        self.get_entity_from_url(url)
    }

    /// Plans the lookup of the instance at the relative path `url`: a GET
    /// without parameters, to which "not found" is the answer "absent".
    pub fn get_entity_from_url(&self, url: String) -> (request: Request)
        ensures
            request@ == lookup_request(url@),
    {
        Request::new(url.as_str(), None, OnMissing::Absent)
    }

    /// Plans the fetch of all `T`s. The reply is an envelope.
    pub fn get_all<T: DeezerEnumerable>(&self) -> (request: Request)
        ensures
            request@ == plain_request(T::all_api_url()),
    {
        let url = T::get_all_api_url();
        self.get(url.as_str())
    }

    /// Plans the fetch of a collection at the relative path `url`, with
    /// parameters. The reply is an envelope.
    pub fn get_array_params(&self, url: &str, query_params: QueryParams) -> (request: Request)
        ensures
            request@ == query_request(url@, query_params@),
    {
        self.get_with_params(url, query_params)
    }

    /// Plans the fetch of the `C`s of the `T` that `identifier` names. The
    /// reply is an envelope.
    pub fn get_connection<T: DeezerConnection<C>, C>(&self, identifier: &str) -> (request: Request)
        ensures
            request@ == plain_request(T::connection_url(identifier@)),
    {
        let url = T::get_connection_url(identifier);
        self.get(url.as_str())
    }

    /// Plans the fetch of one page of the `C`s of the `T` that `identifier`
    /// names: `limit` and `offset` are attached where they are given, and
    /// left out where they are not. The reply is an envelope.
    pub fn _get_connection<T: DeezerConnection<C>, C>(
        &self,
        identifier: &str,
        limit: Option<u32>,
        offset: Option<u32>,
    ) -> (request: Request)
        ensures
            request@ == query_request(T::connection_url(identifier@), page_params(limit, offset)),
    {
        let url = T::get_connection_url(identifier);
        let params = make_page_params(limit, offset);
        self.get_with_params(url.as_str(), params)
    }

    /// Plans the fetch of one page of the `T`s that live under the given id:
    /// the address of a lookup, with `limit` and `offset` attached where
    /// they are given. The reply is an envelope.
    pub fn get_subresource<T: DeezerObject>(
        &self,
        id: u64,
        limit: Option<u32>,
        offset: Option<u32>,
    ) -> (request: Request)
        ensures
            request@ == query_request(T::api_url(id), page_params(limit, offset)),
    {
        let url = T::get_api_url(id);
        let params = make_page_params(limit, offset);
        self.get_with_params(url.as_str(), params)
    }

    /// Plans the GET of the relative path `url` with parameters.
    pub fn get_with_params(&self, url: &str, query_params: QueryParams) -> (request: Request)
        ensures
            request@ == query_request(url@, query_params@),
    {
        self.get_with_optional_params(url, Some(query_params))
    }

    /// Plans the GET of the relative path `url` without parameters.
    pub fn get(&self, url: &str) -> (request: Request)
        ensures
            request@ == plain_request(url@),
    {
        self.get_with_optional_params(url, None)
    }

    /// Plans a GET: the origin joined to the relative path `url`, the
    /// parameters attached if there are any, and every status outside the
    /// success range a failure.
    pub fn get_with_optional_params(&self, url: &str, query_params: Option<QueryParams>) -> (request:
        Request)
        ensures
            request@ == request_for(
                url@,
                match query_params {
                    Some(p) => Some(p@),
                    None => None,
                },
                OnMissing::Fail,
            ),
    {
        Request::new(url, query_params, OnMissing::Fail)
    }
}

} // verus!
