//! What each API endpoint asks of the upstream API and how it answers from
//! the upstream's reply: the song, suggestion, lyrics, search, album,
//! playlist and artist endpoints.

use vstd::prelude::*;
use vstd::string::StrSliceExecFns;

use crate::crypto::DownloadLink;
use crate::json::{
    as_text, get, field, items, items_of, member, member_of, nonempty_text, opt_str_val, str_val,
    text_of, text_or_empty, JsonValue,
};
use crate::models::{Album, AppError, Lyrics, Playlist, SearchResultCategory, Song, Artist};
use crate::number::{decimal_text, format_i64};
use crate::parse::{
    is_album_list_of, is_album_of, is_artist_of, is_playlist_of, is_song_list_of, is_song_of,
    images_of, parse_album, parse_artist, parse_playlist, parse_song, parse_song_list,
    same_opt_text, text_at,
};
use crate::text::{split_nth, split_piece};

verus! {

/// The query of the songs endpoint: song ids, or a song link.
#[derive(Debug, Clone)]
pub struct SongsQuery {
    pub ids: Option<String>,
    pub link: Option<String>,
}

/// The query of the suggestions endpoint.
#[derive(Debug, Clone)]
pub struct SuggestionsQuery {
    pub limit: Option<String>,
}

/// The query of the global search endpoint.
#[derive(Debug, Clone)]
pub struct SearchQuery {
    pub query: String,
}

/// The query of the category search endpoints.
#[derive(Debug, Clone)]
pub struct CategorySearchQuery {
    pub query: String,
    pub page: Option<i32>,
    pub limit: Option<i32>,
}

/// The query of the album and playlist endpoints.
#[derive(Debug, Clone)]
pub struct IdQuery {
    pub id: String,
}

/// The query of the artist endpoint.
#[derive(Debug, Clone)]
pub struct ArtistQuery {
    pub page: Option<i32>,
    pub song_count: Option<i32>,
    pub album_count: Option<i32>,
}

/// An artist with the artist's top songs and albums.
#[derive(Debug, Clone, PartialEq)]
pub struct ArtistDetail {
    pub id: String,
    pub name: String,
    pub fan_count: Option<String>,
    pub wiki: Option<String>,
    pub image: Vec<DownloadLink>,
    pub top_songs: Vec<Song>,
    pub top_albums: Vec<Album>,
}

/// A call of the upstream API: the endpoint and its query parameters.
#[derive(Debug, Clone)]
pub struct UpstreamRequest {
    pub endpoint: String,
    pub params: Vec<(String, String)>,
}

/// The parameters as pairs of texts.
pub open spec fn pairs_of(params: Seq<(String, String)>) -> Seq<(Seq<char>, Seq<char>)> {
    params.map_values(|p: (String, String)| (p.0@, p.1@))
}

/// `r` calls `endpoint` with exactly `params`, in that order.
pub open spec fn is_request(
    r: UpstreamRequest,
    endpoint: Seq<char>,
    params: Seq<(Seq<char>, Seq<char>)>,
) -> bool {
    r.endpoint@ == endpoint && pairs_of(r.params@) == params
}

/// `e` is the error of kind `kind` (a status) with the message `m`.
pub open spec fn is_error(e: AppError, status: u16, m: Seq<char>) -> bool {
    crate::models::status_of(e) == status && crate::models::message_of(e) == m
}

/// A request of `endpoint` with one parameter.
fn request1(endpoint: &str, k: &str, v: String) -> (r: UpstreamRequest)
    ensures
        is_request(r, endpoint@, seq![(k@, v@)]),
{
    let mut params: Vec<(String, String)> = Vec::new();
    params.push((k.to_owned(), v));
    let r = UpstreamRequest { endpoint: endpoint.to_owned(), params };
    assert(pairs_of(r.params@) =~= seq![(k@, v@)]);
    r
}

/// A request of `endpoint` with two parameters.
fn request2(endpoint: &str, k1: &str, v1: String, k2: &str, v2: String) -> (r: UpstreamRequest)
    ensures
        is_request(r, endpoint@, seq![(k1@, v1@), (k2@, v2@)]),
{
    let mut params: Vec<(String, String)> = Vec::new();
    params.push((k1.to_owned(), v1));
    params.push((k2.to_owned(), v2));
    let r = UpstreamRequest { endpoint: endpoint.to_owned(), params };
    assert(pairs_of(r.params@) =~= seq![(k1@, v1@), (k2@, v2@)]);
    r
}

/// A request of `endpoint` with three parameters.
fn request3(endpoint: &str, k1: &str, v1: String, k2: &str, v2: String, k3: &str, v3: String) -> (r:
    UpstreamRequest)
    ensures
        is_request(r, endpoint@, seq![(k1@, v1@), (k2@, v2@), (k3@, v3@)]),
{
    let mut params: Vec<(String, String)> = Vec::new();
    params.push((k1.to_owned(), v1));
    params.push((k2.to_owned(), v2));
    params.push((k3.to_owned(), v3));
    let r = UpstreamRequest { endpoint: endpoint.to_owned(), params };
    assert(pairs_of(r.params@) =~= seq![(k1@, v1@), (k2@, v2@), (k3@, v3@)]);
    r
}

/// The token of a song link: the second `/`-separated part of what follows
/// `hqaudio.suvojeetsengupta.in/song/`, up to a `?`.
pub open spec fn link_token_of(link: Seq<char>) -> Option<Seq<char>> {
    match split_piece(link, "hqaudio.suvojeetsengupta.in/song/"@, 1) {
        None => None,
        Some(after) => match split_piece(after, "/"@, 1) {
            None => None,
            Some(path) => split_piece(path, "?"@, 0),
        },
    }
}

/// The token of a song link, where it has one.
pub fn song_link_token(link: &str) -> (r: Option<String>)
    ensures
        match r {
            Some(t) => link_token_of(link@) == Some(t@),
            None => link_token_of(link@) is None,
        },
{
    proof {
        reveal_strlit("hqaudio.suvojeetsengupta.in/song/");
        reveal_strlit("/");
        reveal_strlit("?");
    }
    let after = match split_nth(link, "hqaudio.suvojeetsengupta.in/song/", 1) {
        Some(a) => a,
        None => return None,
    };
    let path = match split_nth(after.as_str(), "/", 1) {
        Some(p) => p,
        None => return None,
    };
    split_nth(path.as_str(), "?", 0)
}

/// The upstream call of the songs endpoint: by link (`webapi.get` with the
/// link's token) where a link is given, else by ids (`song.getDetails`).
pub fn songs_request(query: &SongsQuery) -> (r: Result<UpstreamRequest, AppError>)
    ensures
        match (query.ids, query.link) {
            (None, None) => r matches Err(e) && is_error(
                e,
                400,
                "Either 'ids' or 'link' query parameter is required"@,
            ),
            (_, Some(link)) => match link_token_of(link@) {
                Some(token) => r matches Ok(req) && is_request(
                    req,
                    "webapi.get"@,
                    seq![("token"@, token), ("type"@, "song"@)],
                ),
                None => r matches Err(e) && is_error(e, 400, "Invalid HqAudio song link"@),
            },
            (Some(ids), None) => r matches Ok(req) && is_request(
                req,
                "song.getDetails"@,
                seq![("pids"@, ids@)],
            ),
        },
{
    match &query.link {
        Some(link) => match song_link_token(link.as_str()) {
            Some(token) => Ok(
                request2("webapi.get", "token", token, "type", "song".to_owned()),
            ),
            None => Err(AppError::BadRequest("Invalid HqAudio song link".to_owned())),
        },
        None => match &query.ids {
            Some(ids) => Ok(request1("song.getDetails", "pids", ids.clone())),
            None => Err(
                AppError::BadRequest(
                    "Either 'ids' or 'link' query parameter is required".to_owned(),
                ),
            ),
        },
    }
}

/// Where a song-details reply lists its songs: its `songs` array, else the
/// reply itself.
pub open spec fn song_details_list(raw: JsonValue) -> JsonValue {
    if items_of(member(raw, "songs"@)) is Some {
        member(raw, "songs"@)
    } else {
        raw
    }
}

/// The songs of a song-details reply; `Song not found` where it lists none.
pub fn songs_from_response(raw: &JsonValue) -> (r: Result<Vec<Song>, AppError>)
    ensures
        match r {
            Ok(songs) => is_song_list_of(songs@, song_details_list(*raw)) && songs@.len() > 0,
            Err(e) => is_error(e, 404, "Song not found"@) && match items_of(
                song_details_list(*raw),
            ) {
                Some(entries) => entries.len() == 0,
                None => true,
            },
        },
{
    let listed = member_of(raw, "songs");
    let songs = if items(listed).is_some() {
        parse_song_list(listed)
    } else {
        parse_song_list(raw)
    };
    if songs.len() == 0 {
        return Err(AppError::NotFound("Song not found".to_owned()));
    }
    Ok(songs)
}

/// The upstream call of the song endpoint.
pub fn song_by_id_request(id: &str) -> (r: UpstreamRequest)
    ensures
        is_request(r, "song.getDetails"@, seq![("pids"@, id@)]),
{
    request1("song.getDetails", "pids", id.to_owned())
}

/// The first upstream call of the suggestions endpoint: a radio station
/// seeded with the song.
pub fn station_request(id: &str) -> (r: UpstreamRequest)
    ensures
        is_request(
            r,
            "webradio.createEntityStation"@,
            seq![("entity_id"@, id@), ("entity_type"@, "queue"@)],
        ),
{
    request2(
        "webradio.createEntityStation",
        "entity_id",
        id.to_owned(),
        "entity_type",
        "queue".to_owned(),
    )
}

/// The id of the station that the upstream created, where it gave one.
pub fn station_id(raw: &JsonValue) -> (r: Option<String>)
    ensures
        match r {
            Some(s) => text_of(member(*raw, "stationid"@)) == Some(s@),
            None => text_of(member(*raw, "stationid"@)) is None,
        },
{
    match as_text(member_of(raw, "stationid")) {
        Some(s) => Some(s.clone()),
        None => None,
    }
}

/// The number of suggestions asked for: the given limit, else 10.
pub open spec fn suggestion_limit(limit: Option<String>) -> Seq<char> {
    match limit {
        Some(l) => l@,
        None => "10"@,
    }
}

/// The second upstream call of the suggestions endpoint: songs of the
/// station.
pub fn station_songs_request(station: &str, query: &SuggestionsQuery) -> (r: UpstreamRequest)
    ensures
        is_request(
            r,
            "webradio.getSong"@,
            seq![("stationid"@, station@), ("k"@, suggestion_limit(query.limit))],
        ),
{
    let limit = match &query.limit {
        Some(l) => l.clone(),
        None => "10".to_owned(),
    };
    request2("webradio.getSong", "stationid", station.to_owned(), "k", limit)
}

/// The song of each element of `entries` that has a `song` member, in
/// order.
pub open spec fn suggested_songs(songs: Seq<Song>, entries: Seq<JsonValue>) -> bool
    decreases entries.len(),
{
    if entries.len() == 0 {
        songs.len() == 0
    } else {
        match field(entries.last(), "song"@) {
            Some(song) => songs.len() > 0 && is_song_of(songs.last(), song) && suggested_songs(
                songs.drop_last(),
                entries.drop_last(),
            ),
            None => suggested_songs(songs, entries.drop_last()),
        }
    }
}

/// The suggested songs of a station's reply: the `song` of each element
/// that has one, where the reply is an array; none otherwise.
pub fn suggestions_from_response(raw: &JsonValue) -> (songs: Vec<Song>)
    ensures
        match items_of(*raw) {
            Some(entries) => suggested_songs(songs@, entries),
            None => songs@.len() == 0,
        },
{
    let mut songs: Vec<Song> = Vec::new();
    match items(raw) {
        Some(entries) => {
            let mut i: usize = 0;
            while i < entries.len()
                invariant
                    items_of(*raw) == Some(entries@),
                    i <= entries@.len(),
                    suggested_songs(songs@, entries@.take(i as int)),
                decreases entries@.len() - i,
            {
                let ghost before = songs@;
                assert(entries@.take(i + 1).drop_last() =~= entries@.take(i as int));
                match get(&entries[i], "song") {
                    Some(song) => {
                        songs.push(parse_song(song));
                        assert(songs@.drop_last() =~= before);
                    },
                    None => {},
                }
                i = i + 1;
            }
            assert(entries@.take(entries@.len() as int) =~= entries@);
        },
        None => {},
    }
    songs
}

/// The upstream call of the lyrics endpoint.
pub fn lyrics_request(id: &str) -> (r: UpstreamRequest)
    ensures
        is_request(r, "lyrics.getLyrics"@, seq![("lyrics_id"@, id@)]),
{
    request1("lyrics.getLyrics", "lyrics_id", id.to_owned())
}

/// The lyrics of a lyrics reply; `Lyrics not found` where it has no
/// `lyrics` text.
pub fn lyrics_from_response(raw: &JsonValue) -> (r: Result<Lyrics, AppError>)
    ensures
        match text_of(member(*raw, "lyrics"@)) {
            Some(text) => r matches Ok(l) && l.lyrics@ == text && same_opt_text(
                l.copyright,
                nonempty_text(member(*raw, "copyright"@)),
            ) && same_opt_text(l.snippet, nonempty_text(member(*raw, "snippet"@))),
            None => r matches Err(e) && is_error(e, 404, "Lyrics not found"@),
        },
{
    match as_text(member_of(raw, "lyrics")) {
        Some(text) => Ok(
            Lyrics {
                lyrics: text.clone(),
                copyright: opt_str_val(member_of(raw, "copyright")),
                snippet: opt_str_val(member_of(raw, "snippet")),
            },
        ),
        None => Err(AppError::NotFound("Lyrics not found".to_owned())),
    }
}

/// The upstream call of the global search endpoint.
pub fn search_request(query: &SearchQuery) -> (r: UpstreamRequest)
    ensures
        is_request(r, "autocomplete.get"@, seq![("query"@, query.query@)]),
{
    request1("autocomplete.get", "query", query.query.clone())
}

/// A page number or size as text: the given one, else the default.
pub open spec fn number_or(n: Option<i32>, default: int) -> Seq<char> {
    match n {
        Some(x) => decimal_text(x as int),
        None => decimal_text(default),
    }
}

/// The upstream call of a category search (`endpoint` is one of
/// `search.getResults`, `search.getArtistResults`, `search.getAlbumResults`
/// and `search.getPlaylistResults`): page (default 1), page size (default
/// 20) and query.
pub fn category_search_request(endpoint: &str, query: &CategorySearchQuery) -> (r: UpstreamRequest)
    ensures
        is_request(
            r,
            endpoint@,
            seq![
                ("p"@, number_or(query.page, 1)),
                ("n"@, number_or(query.limit, 20)),
                ("q"@, query.query@),
            ],
        ),
{
    let page: i32 = match query.page {
        Some(p) => p,
        None => 1,
    };
    let limit: i32 = match query.limit {
        Some(l) => l,
        None => 20,
    };
    request3(
        endpoint,
        "p",
        format_i64(page as i64),
        "n",
        format_i64(limit as i64),
        "q",
        query.query.clone(),
    )
}

/// `artists` are the artists that the array `list` of a search reply
/// describes, each named by its `title` (none where `list` is not an array).
pub open spec fn is_titled_artist_list_of(artists: Seq<Artist>, list: JsonValue) -> bool {
    match items_of(list) {
        Some(entries) => {
            &&& artists.len() == entries.len()
            &&& forall|i: int|
                0 <= i < entries.len() ==> is_artist_of(#[trigger] artists[i], entries[i], "title"@)
        },
        None => artists.len() == 0,
    }
}

/// `playlists` are the playlists that the array `list` describes (none
/// where `list` is not an array).
pub open spec fn is_playlist_list_of(playlists: Seq<Playlist>, list: JsonValue) -> bool {
    match items_of(list) {
        Some(entries) => {
            &&& playlists.len() == entries.len()
            &&& forall|i: int|
                0 <= i < entries.len() ==> is_playlist_of(#[trigger] playlists[i], entries[i])
        },
        None => playlists.len() == 0,
    }
}

/// The songs of a song search reply.
pub fn song_results(raw: &JsonValue) -> (r: SearchResultCategory<Song>)
    ensures
        r.position == 1,
        is_song_list_of(r.results@, member(*raw, "results"@)),
{
    SearchResultCategory { results: parse_song_list(member_of(raw, "results")), position: 1 }
}

/// The artists of an artist search reply.
pub fn artist_results(raw: &JsonValue) -> (r: SearchResultCategory<Artist>)
    ensures
        r.position == 1,
        is_titled_artist_list_of(r.results@, member(*raw, "results"@)),
{
    let list = member_of(raw, "results");
    let mut results: Vec<Artist> = Vec::new();
    match items(list) {
        Some(entries) => {
            let mut i: usize = 0;
            while i < entries.len()
                invariant
                    items_of(*list) == Some(entries@),
                    i <= entries@.len(),
                    results@.len() == i,
                    forall|k: int|
                        0 <= k < i ==> is_artist_of(#[trigger] results@[k], entries@[k], "title"@),
                decreases entries@.len() - i,
            {
                results.push(parse_artist(&entries[i]));
                i = i + 1;
            }
        },
        None => {},
    }
    SearchResultCategory { results, position: 1 }
}

/// The albums of an array (none where `list` is not an array).
fn parse_album_list(list: &JsonValue) -> (albums: Vec<Album>)
    ensures
        is_album_list_of(albums@, *list),
{
    let mut albums: Vec<Album> = Vec::new();
    match items(list) {
        Some(entries) => {
            let mut i: usize = 0;
            while i < entries.len()
                invariant
                    items_of(*list) == Some(entries@),
                    i <= entries@.len(),
                    albums@.len() == i,
                    forall|k: int| 0 <= k < i ==> is_album_of(#[trigger] albums@[k], entries@[k]),
                decreases entries@.len() - i,
            {
                albums.push(parse_album(&entries[i]));
                i = i + 1;
            }
        },
        None => {},
    }
    albums
}

/// The albums of an album search reply.
pub fn album_results(raw: &JsonValue) -> (r: SearchResultCategory<Album>)
    ensures
        r.position == 1,
        is_album_list_of(r.results@, member(*raw, "results"@)),
{
    SearchResultCategory { results: parse_album_list(member_of(raw, "results")), position: 1 }
}

/// The playlists of a playlist search reply.
pub fn playlist_results(raw: &JsonValue) -> (r: SearchResultCategory<Playlist>)
    ensures
        r.position == 1,
        is_playlist_list_of(r.results@, member(*raw, "results"@)),
{
    let list = member_of(raw, "results");
    let mut results: Vec<Playlist> = Vec::new();
    match items(list) {
        Some(entries) => {
            let mut i: usize = 0;
            while i < entries.len()
                invariant
                    items_of(*list) == Some(entries@),
                    i <= entries@.len(),
                    results@.len() == i,
                    forall|k: int| 0 <= k < i ==> is_playlist_of(#[trigger] results@[k], entries@[k]),
                decreases entries@.len() - i,
            {
                results.push(parse_playlist(&entries[i]));
                i = i + 1;
            }
        },
        None => {},
    }
    SearchResultCategory { results, position: 1 }
}

/// The upstream call of the album endpoint.
pub fn album_request(query: &IdQuery) -> (r: UpstreamRequest)
    ensures
        is_request(r, "content.getAlbumDetails"@, seq![("albumid"@, query.id@)]),
{
    request1("content.getAlbumDetails", "albumid", query.id.clone())
}

/// The songs of an album reply: its `songs` array (none where it has none).
pub fn album_songs(raw: &JsonValue) -> (songs: Vec<Song>)
    ensures
        is_song_list_of(songs@, member(*raw, "songs"@)),
{
    parse_song_list(member_of(raw, "songs"))
}

/// The upstream call of the playlist endpoint.
pub fn playlist_request(query: &IdQuery) -> (r: UpstreamRequest)
    ensures
        is_request(r, "playlist.getDetails"@, seq![("listid"@, query.id@)]),
{
    request1("playlist.getDetails", "listid", query.id.clone())
}

/// The songs of a playlist reply: its `list` array, at position 1.
pub fn playlist_songs(raw: &JsonValue) -> (r: SearchResultCategory<Song>)
    ensures
        r.position == 1,
        is_song_list_of(r.results@, member(*raw, "list"@)),
{
    SearchResultCategory { results: parse_song_list(member_of(raw, "list")), position: 1 }
}

/// The upstream call of the artist endpoint: page (default 1), numbers of
/// songs and albums (default 20 each).
pub fn artist_request(id: &str, query: &ArtistQuery) -> (r: UpstreamRequest)
    ensures
        r.endpoint@ == "artist.getArtistPageDetails"@,
        pairs_of(r.params@) == seq![
            ("artistId"@, id@),
            ("page"@, number_or(query.page, 1)),
            ("song_count"@, number_or(query.song_count, 20)),
            ("album_count"@, number_or(query.album_count, 20)),
        ],
{
    let page: i32 = match query.page {
        Some(p) => p,
        None => 1,
    };
    let song_count: i32 = match query.song_count {
        Some(n) => n,
        None => 20,
    };
    let album_count: i32 = match query.album_count {
        Some(n) => n,
        None => 20,
    };
    let mut params: Vec<(String, String)> = Vec::new();
    params.push(("artistId".to_owned(), id.to_owned()));
    params.push(("page".to_owned(), format_i64(page as i64)));
    params.push(("song_count".to_owned(), format_i64(song_count as i64)));
    params.push(("album_count".to_owned(), format_i64(album_count as i64)));
    let r = UpstreamRequest { endpoint: "artist.getArtistPageDetails".to_owned(), params };
    assert(pairs_of(r.params@) =~= seq![
        ("artistId"@, id@),
        ("page"@, number_or(query.page, 1)),
        ("song_count"@, number_or(query.song_count, 20)),
        ("album_count"@, number_or(query.album_count, 20)),
    ]);
    r
}

/// `d` is the artist that an artist reply `raw` describes.
pub open spec fn is_artist_detail_of(d: ArtistDetail, raw: JsonValue) -> bool {
    &&& d.id@ == text_at(raw, "artistId"@)
    &&& d.name@ == text_at(raw, "name"@)
    &&& same_opt_text(d.fan_count, nonempty_text(member(raw, "fan_count"@)))
    &&& same_opt_text(d.wiki, nonempty_text(member(raw, "wiki"@)))
    &&& images_of(raw, d.image@)
    &&& is_song_list_of(d.top_songs@, member(raw, "topSongs"@))
    &&& is_album_list_of(d.top_albums@, member(raw, "topAlbums"@))
}

/// The artist of an artist reply; `Artist not found or invalid ID` where
/// the reply has no name.
pub fn artist_detail_from_response(raw: &JsonValue) -> (r: Result<ArtistDetail, AppError>)
    ensures
        match r {
            Ok(d) => is_artist_detail_of(d, *raw) && text_at(*raw, "name"@).len() > 0
                && d.id@ == text_or_empty(member(*raw, "artistId"@)),
            Err(e) => is_error(e, 404, "Artist not found or invalid ID"@) && text_at(
                *raw,
                "name"@,
            ).len() == 0,
        },
{
    let top_songs = parse_song_list(member_of(raw, "topSongs"));
    let top_albums = parse_album_list(member_of(raw, "topAlbums"));
    let name = str_val(member_of(raw, "name"));
    if name.as_str().unicode_len() == 0 {
        return Err(AppError::NotFound("Artist not found or invalid ID".to_owned()));
    }
    Ok(
        ArtistDetail {
            id: str_val(member_of(raw, "artistId")),
            name,
            fan_count: opt_str_val(member_of(raw, "fan_count")),
            wiki: opt_str_val(member_of(raw, "wiki")),
            image: create_artist_images(raw),
            top_songs,
            top_albums,
        },
    )
}

/// The cover images of the `image` member of `v`.
fn create_artist_images(v: &JsonValue) -> (links: Vec<DownloadLink>)
    ensures
        images_of(*v, links@),
{
    crate::crypto::create_image_links(str_val(member_of(v, "image")).as_str())
}

/// The id of an artist read from an artist reply is the text of the
/// reply's `artistId` member (empty where it has none), not of an `id`
/// member.
pub proof fn law_artist_detail_id_is_artist_id(d: ArtistDetail, raw: JsonValue)
    requires
        is_artist_detail_of(d, raw),
    ensures
        d.id@ == text_or_empty(member(raw, "artistId"@)),
{
}

} // verus!
