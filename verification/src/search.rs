//! Keyword search: the query, its ordering, and the request it becomes.

use crate::client::DeezerClient;
use crate::params::{has_key, keys_distinct, lemma_position_unique, value_of, QueryParams};
use crate::request::{query_request, OnMissing, Request};
use std::marker::PhantomData;
use vstd::prelude::*;

verus! {

/// What can be searched for. Each has its own search endpoint.
#[derive(Debug, Clone, Copy, PartialEq, Eq, Structural)]
pub enum SearchResource {
    Albums,
    Artists,
    SearchHistory,
    Playlists,
    Podcasts,
    Radio,
    Tracks,
    Users,
}

impl SearchResource {
    /// The relative path of the search endpoint.
    pub open spec fn path(self) -> Seq<char> {
        match self {
            SearchResource::Albums => "search/album"@,
            SearchResource::Artists => "search/artist"@,
            SearchResource::SearchHistory => "search/history"@,
            SearchResource::Playlists => "search/playlist"@,
            SearchResource::Podcasts => "search/podcast"@,
            SearchResource::Radio => "search/radio"@,
            SearchResource::Tracks => "search/track"@,
            SearchResource::Users => "search/user"@,
        }
    }

    /// The relative path of the search endpoint.
    pub fn url(&self) -> (url: &'static str)
        ensures
            url@ == self.path(),
    {
        match self {
            SearchResource::Albums => "search/album",
            SearchResource::Artists => "search/artist",
            SearchResource::SearchHistory => "search/history",
            SearchResource::Playlists => "search/playlist",
            SearchResource::Podcasts => "search/podcast",
            SearchResource::Radio => "search/radio",
            SearchResource::Tracks => "search/track",
            SearchResource::Users => "search/user",
        }
    }
}

impl Default for SearchResource {
    /// Tracks are searched where nothing else is asked for.
    fn default() -> (resource: SearchResource)
        ensures
            resource == SearchResource::Tracks,
    {
        SearchResource::Tracks
    }
}

/// A record that a search can list.
pub trait Searchable: Sized {
    /// The search endpoint that lists records of this type.
    spec fn search_resource() -> SearchResource;

    /// The search endpoint that lists records of this type.
    fn resource() -> (resource: SearchResource)
        ensures
            resource == Self::search_resource(),
    ;
}

/// The order in which a search lists what it finds.
#[derive(Debug, Clone, Copy, PartialEq, Eq, Structural)]
pub enum SearchOrder {
    Ranking,
    TrackAsc,
    TrackDesc,
    ArtistAsc,
    ArtistDesc,
    AlbumAsc,
    AlbumDesc,
    RatingAsc,
    RatingDesc,
    DurationAsc,
    DurationDesc,
}

impl SearchOrder {
    /// The token that stands for this order in a query.
    pub open spec fn wire(self) -> Seq<char> {
        match self {
            SearchOrder::Ranking => "RANKING"@,
            SearchOrder::TrackAsc => "TRACK_ASC"@,
            SearchOrder::TrackDesc => "TRACK_DESC"@,
            SearchOrder::ArtistAsc => "ARTIST_ASC"@,
            SearchOrder::ArtistDesc => "ARTIST_DESC"@,
            SearchOrder::AlbumAsc => "ALBUM_ASC"@,
            SearchOrder::AlbumDesc => "ALBUM_DESC"@,
            SearchOrder::RatingAsc => "RATING_ASC"@,
            SearchOrder::RatingDesc => "RATING_DESC"@,
            SearchOrder::DurationAsc => "DURATION_ASC"@,
            SearchOrder::DurationDesc => "DURATION_DESC"@,
        }
    }

    /// The token that stands for this order in a query.
    pub fn as_str(&self) -> (token: &'static str)
        ensures
            token@ == self.wire(),
    {
        match self {
            SearchOrder::Ranking => "RANKING",
            SearchOrder::TrackAsc => "TRACK_ASC",
            SearchOrder::TrackDesc => "TRACK_DESC",
            SearchOrder::ArtistAsc => "ARTIST_ASC",
            SearchOrder::ArtistDesc => "ARTIST_DESC",
            SearchOrder::AlbumAsc => "ALBUM_ASC",
            SearchOrder::AlbumDesc => "ALBUM_DESC",
            SearchOrder::RatingAsc => "RATING_ASC",
            SearchOrder::RatingDesc => "RATING_DESC",
            SearchOrder::DurationAsc => "DURATION_ASC",
            SearchOrder::DurationDesc => "DURATION_DESC",
        }
    }

    /// The token that stands for this order in a query, as an owned string.
    pub fn to_string(&self) -> (token: String)
        ensures
            token@ == self.wire(),
    {
        String::from_str(self.as_str())
    }
}

impl Default for SearchOrder {
    /// Searches are ordered by ranking where nothing else is asked for.
    fn default() -> (order: SearchOrder)
        ensures
            order == SearchOrder::Ranking,
    {
        SearchOrder::Ranking
    }
}

/// Whether `c` may stand in an order token: an upper-case letter or an
/// underscore.
pub open spec fn is_token_char(c: char) -> bool {
    ('A' <= c <= 'Z') || c == '_'
}

/// What is searched for, and how.
pub struct SearchQuery {
    /// The text to search for.
    pub query: String,
    /// Whether only exact matches are wanted.
    pub strict: bool,
    /// The order of the results.
    pub order: SearchOrder,
}

impl SearchQuery {
    /// The search for `query`, not strict, ordered by ranking.
    pub fn new(query: &str) -> (search: SearchQuery)
        ensures
            search.query@ == query@,
            !search.strict,
            search.order == SearchOrder::Ranking,
    {
        SearchQuery { query: String::from_str(query), strict: false, order: SearchOrder::Ranking }
    }
}

/// The parameters of a search: the text as `q`, then `strict` with the value
/// `on` if and only if strictness is asked for, then the order's token as
/// `order`.
pub open spec fn search_params(query: Seq<char>, strict: bool, order: SearchOrder) -> Seq<
    (Seq<char>, Seq<char>),
> {
    let q = seq![("q"@, query)];
    let with_strict = if strict {
        q.push(("strict"@, "on"@))
    } else {
        q
    };
    with_strict.push(("order"@, order.wire()))
}

/// The names `q`, `strict` and `order` differ from one another.
pub proof fn lemma_search_names_differ()
    ensures
        "q"@ != "strict"@,
        "q"@ != "order"@,
        "strict"@ != "order"@,
{
    reveal_strlit("q");
    reveal_strlit("strict");
    reveal_strlit("order");
    assert("q"@.len() == 1);
    assert("strict"@.len() == 6);
    assert("order"@.len() == 5);
}

/// Of the parameters of a search: `q` holds the text; `strict` is there if
/// and only if strictness is asked for, and then holds `on`; `order` holds
/// the order's token; and nothing else is there.
pub proof fn lemma_search_params(query: Seq<char>, strict: bool, order: SearchOrder)
    ensures
        keys_distinct(search_params(query, strict, order)),
        has_key(search_params(query, strict, order), "q"@),
        value_of(search_params(query, strict, order), "q"@) == query,
        has_key(search_params(query, strict, order), "strict"@) <==> strict,
        strict ==> value_of(search_params(query, strict, order), "strict"@) == "on"@,
        has_key(search_params(query, strict, order), "order"@),
        value_of(search_params(query, strict, order), "order"@) == order.wire(),
        forall|key: Seq<char>|
            has_key(search_params(query, strict, order), key) ==> key == "q"@ || key == "strict"@
                || key == "order"@,
        search_params(query, strict, order).len() == (if strict {
            3nat
        } else {
            2nat
        }),
{
    lemma_search_names_differ();
    let params = search_params(query, strict, order);
    assert(keys_distinct(params));
    assert(params[0] == ("q"@, query));
    lemma_position_unique(params, "q"@, 0);
    if strict {
        assert(params[1] == ("strict"@, "on"@));
        lemma_position_unique(params, "strict"@, 1);
    }
    let last = params.len() - 1;
    assert(params[last] == ("order"@, order.wire()));
    lemma_position_unique(params, "order"@, last);
}

/// Every order has a token of upper-case letters and underscores, and no
/// two orders share one.
pub proof fn lemma_order_tokens(a: SearchOrder, b: SearchOrder)
    ensures
        a.wire().len() > 0,
        forall|i: int| 0 <= i < a.wire().len() ==> is_token_char(#[trigger] a.wire()[i]),
        a.wire() == b.wire() ==> a == b,
{
    reveal_strlit("RANKING");
    reveal_strlit("TRACK_ASC");
    reveal_strlit("TRACK_DESC");
    reveal_strlit("ARTIST_ASC");
    reveal_strlit("ARTIST_DESC");
    reveal_strlit("ALBUM_ASC");
    reveal_strlit("ALBUM_DESC");
    reveal_strlit("RATING_ASC");
    reveal_strlit("RATING_DESC");
    reveal_strlit("DURATION_ASC");
    reveal_strlit("DURATION_DESC");
    if a.wire() == b.wire() {
        assert(a.wire().len() == b.wire().len());
        assert(a.wire()[0] == b.wire()[0]);
        assert(a.wire()[1] == b.wire()[1]);
    }
}

/// Every search endpoint lies under `search/`, and no two resources share
/// one.
pub proof fn lemma_search_paths(a: SearchResource, b: SearchResource)
    ensures
        a.path().len() > 7,
        a.path().subrange(0, 7) == "search/"@,
        a.path() == b.path() ==> a == b,
{
    reveal_strlit("search/");
    reveal_strlit("search/album");
    reveal_strlit("search/artist");
    reveal_strlit("search/history");
    reveal_strlit("search/playlist");
    reveal_strlit("search/podcast");
    reveal_strlit("search/radio");
    reveal_strlit("search/track");
    reveal_strlit("search/user");
    assert(a.path().subrange(0, 7) =~= "search/"@);
    if a.path() == b.path() {
        assert(a.path().len() == b.path().len());
        assert(a.path()[7] == b.path()[7]);
        assert(a.path()[8] == b.path()[8]);
    }
}

/// A search in the making, for records of type `Model`. It is used up by
/// `send`.
pub struct SearchClient<Model> {
    pub client: DeezerClient,
    pub query: SearchQuery,
    pub resource: SearchResource,
    pub _model: PhantomData<Model>,
}

impl<Model: Searchable> SearchClient<Model> {
    /// The search for `query` among the `Model`s, not strict, ordered by
    /// ranking.
    pub fn new(client: DeezerClient, query: &str) -> (search: SearchClient<Model>)
        ensures
            search.query.query@ == query@,
            !search.query.strict,
            search.query.order == SearchOrder::Ranking,
            search.resource == Model::search_resource(),
    {
        SearchClient {
            client,
            query: SearchQuery::new(query),
            resource: Model::resource(),
            _model: PhantomData,
        }
    }

    /// The same search, with only exact matches wanted.
    pub fn strict(self) -> (search: SearchClient<Model>)
        ensures
            search.query.strict,
            search.query.query == self.query.query,
            search.query.order == self.query.order,
            search.resource == self.resource,
    {
        let mut search = self;
        search.query.strict = true;
        search
    }

    /// The same search, with its results in the given order.
    pub fn order(self, order: SearchOrder) -> (search: SearchClient<Model>)
        ensures
            search.query.order == order,
            search.query.query == self.query.query,
            search.query.strict == self.query.strict,
            search.resource == self.resource,
    {
        let mut search = self;
        search.query.order = order;
        search
    }

    /// Plans the search: a GET of the search endpoint with the search's
    /// parameters. The reply is an envelope of `Model`s.
    pub fn send(self) -> (request: Request)
        ensures
            request@ == query_request(
                self.resource.path(),
                search_params(self.query.query@, self.query.strict, self.query.order),
            ),
    {
        proof {
            lemma_search_names_differ();
        }
        let mut params = QueryParams::new();
        params.insert(String::from_str("q"), self.query.query);
        assert(params@ =~= seq![("q"@, self.query.query@)]);
        if self.query.strict {
            assert(!has_key(params@, "strict"@));
            params.insert(String::from_str("strict"), String::from_str("on"));
        }
        assert(!has_key(params@, "order"@));
        params.insert(String::from_str("order"), self.query.order.to_string());
        let url = self.resource.url();
        self.client.get_array_params(url, params)
    }
}

} // verus!
