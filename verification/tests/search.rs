use deezer::models::SearchedAlbum;
use deezer::{
    DeezerClient, SearchClient, SearchOrder, SearchQuery, SearchResource, Searchable,
};
use deezer::request::OnMissing;

fn owned(pairs: &[(&str, &str)]) -> Vec<(String, String)> {
    pairs.iter().map(|(k, v)| (k.to_string(), v.to_string())).collect()
}

#[test]
fn a_new_query_is_not_strict_and_ordered_by_ranking() {
    let query = SearchQuery::new("eminem");
    assert_eq!(query.query, "eminem");
    assert!(!query.strict);
    assert_eq!(query.order, SearchOrder::Ranking);
}

#[test]
fn the_default_order_is_ranking() {
    assert_eq!(SearchOrder::default(), SearchOrder::Ranking);
}

#[test]
fn the_default_resource_is_tracks() {
    assert_eq!(SearchResource::default(), SearchResource::Tracks);
}

#[test]
fn every_order_has_its_token() {
    assert_eq!(SearchOrder::Ranking.to_string(), "RANKING");
    assert_eq!(SearchOrder::TrackAsc.to_string(), "TRACK_ASC");
    assert_eq!(SearchOrder::TrackDesc.to_string(), "TRACK_DESC");
    assert_eq!(SearchOrder::ArtistAsc.to_string(), "ARTIST_ASC");
    assert_eq!(SearchOrder::ArtistDesc.to_string(), "ARTIST_DESC");
    assert_eq!(SearchOrder::AlbumAsc.to_string(), "ALBUM_ASC");
    assert_eq!(SearchOrder::AlbumDesc.to_string(), "ALBUM_DESC");
    assert_eq!(SearchOrder::RatingAsc.to_string(), "RATING_ASC");
    assert_eq!(SearchOrder::RatingDesc.to_string(), "RATING_DESC");
    assert_eq!(SearchOrder::DurationAsc.to_string(), "DURATION_ASC");
    assert_eq!(SearchOrder::DurationDesc.to_string(), "DURATION_DESC");
    assert_eq!(SearchOrder::DurationDesc.as_str(), "DURATION_DESC");
}

#[test]
fn order_tokens_are_upper_case_and_distinct() {
    let all = [
        SearchOrder::Ranking,
        SearchOrder::TrackAsc,
        SearchOrder::TrackDesc,
        SearchOrder::ArtistAsc,
        SearchOrder::ArtistDesc,
        SearchOrder::AlbumAsc,
        SearchOrder::AlbumDesc,
        SearchOrder::RatingAsc,
        SearchOrder::RatingDesc,
        SearchOrder::DurationAsc,
        SearchOrder::DurationDesc,
    ];
    assert_eq!(all.len(), 11);
    for (i, a) in all.iter().enumerate() {
        assert!(a.as_str().chars().all(|c| c.is_ascii_uppercase() || c == '_'));
        for (j, b) in all.iter().enumerate() {
            assert_eq!(a.as_str() == b.as_str(), i == j);
        }
    }
}

#[test]
fn every_resource_has_its_search_path() {
    assert_eq!(SearchResource::Albums.url(), "search/album");
    assert_eq!(SearchResource::Artists.url(), "search/artist");
    assert_eq!(SearchResource::SearchHistory.url(), "search/history");
    assert_eq!(SearchResource::Playlists.url(), "search/playlist");
    assert_eq!(SearchResource::Podcasts.url(), "search/podcast");
    assert_eq!(SearchResource::Radio.url(), "search/radio");
    assert_eq!(SearchResource::Tracks.url(), "search/track");
    assert_eq!(SearchResource::Users.url(), "search/user");
}

#[test]
fn searched_albums_are_found_by_the_album_search() {
    assert_eq!(SearchedAlbum::resource(), SearchResource::Albums);
}

#[test]
fn a_default_search_sends_q_and_order_and_no_strict() {
    let search: SearchClient<SearchedAlbum> = SearchClient::new(DeezerClient::new(), "eminem");
    let request = search.send();
    assert_eq!(request.url, "https://api.deezer.com/search/album");
    assert_eq!(request.on_missing, OnMissing::Fail);
    let params = request.params.expect("a search has parameters");
    assert_eq!(params.pairs(), &owned(&[("q", "eminem"), ("order", "RANKING")]));
    assert!(!params.contains_key("strict"));
    assert_eq!(params.len(), 2);
}

#[test]
fn a_strict_search_adds_exactly_strict_on() {
    let search: SearchClient<SearchedAlbum> = SearchClient::new(DeezerClient::new(), "eminem");
    let request = search.strict().send();
    let params = request.params.expect("a search has parameters");
    assert_eq!(
        params.pairs(),
        &owned(&[("q", "eminem"), ("strict", "on"), ("order", "RANKING")])
    );
    assert_eq!(params.get("strict"), Some(&"on".to_string()));
}

#[test]
fn an_ordered_search_sends_the_orders_token() {
    let search: SearchClient<SearchedAlbum> = SearchClient::new(DeezerClient::new(), "daft punk");
    let request = search.order(SearchOrder::AlbumDesc).send();
    let params = request.params.expect("a search has parameters");
    assert_eq!(params.pairs(), &owned(&[("q", "daft punk"), ("order", "ALBUM_DESC")]));
}

#[test]
fn strict_and_order_compose_in_either_sequence() {
    let one: SearchClient<SearchedAlbum> = SearchClient::new(DeezerClient::new(), "x");
    let two: SearchClient<SearchedAlbum> = SearchClient::new(DeezerClient::new(), "x");
    let a = one.strict().order(SearchOrder::RatingAsc).send();
    let b = two.order(SearchOrder::RatingAsc).strict().send();
    let expected = owned(&[("q", "x"), ("strict", "on"), ("order", "RATING_ASC")]);
    assert_eq!(a.params.expect("parameters").pairs(), &expected);
    assert_eq!(b.params.expect("parameters").pairs(), &expected);
    assert_eq!(a.url, b.url);
}

#[test]
fn the_last_order_wins() {
    let search: SearchClient<SearchedAlbum> = SearchClient::new(DeezerClient::new(), "x");
    let request = search.order(SearchOrder::TrackAsc).order(SearchOrder::DurationDesc).send();
    let params = request.params.expect("parameters");
    assert_eq!(params.get("order"), Some(&"DURATION_DESC".to_string()));
}

#[test]
fn the_query_text_is_sent_as_it_stands() {
    let search: SearchClient<SearchedAlbum> =
        SearchClient::new(DeezerClient::new(), "a&b=c d/é");
    let request = search.send();
    let params = request.params.expect("parameters");
    assert_eq!(params.get("q"), Some(&"a&b=c d/é".to_string()));
    let empty: SearchClient<SearchedAlbum> = SearchClient::new(DeezerClient::new(), "");
    let params = empty.send().params.expect("parameters");
    assert_eq!(params.pairs(), &owned(&[("q", ""), ("order", "RANKING")]));
}

#[test]
fn album_search_starts_from_the_albums_client() {
    let search = DeezerClient::new().albums().search("eminem");
    assert_eq!(search.resource, SearchResource::Albums);
    assert_eq!(search.query.query, "eminem");
    assert!(!search.query.strict);
    assert_eq!(search.query.order, SearchOrder::Ranking);
    let request = search.send();
    assert_eq!(request.url, "https://api.deezer.com/search/album");
}
