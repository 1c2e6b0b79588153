use hqaudio_api::handlers::{
    album_request, album_results, album_songs, artist_detail_from_response, artist_request,
    artist_results, category_search_request, lyrics_from_response, lyrics_request,
    playlist_request, playlist_results, playlist_songs, song_by_id_request, song_link_token,
    song_results, songs_from_response, songs_request, station_id, station_request,
    station_songs_request, suggestions_from_response, ArtistQuery, CategorySearchQuery, IdQuery,
    SongsQuery, SuggestionsQuery, UpstreamRequest,
};
use hqaudio_api::json::{JsonNumber, JsonValue};
use hqaudio_api::models::AppError;
use hqaudio_api::parse::{parse_playlist, parse_song, search_response};

fn s(t: &str) -> JsonValue {
    JsonValue::Str(t.to_string())
}

fn obj(entries: Vec<(&str, JsonValue)>) -> JsonValue {
    JsonValue::Object(entries.into_iter().map(|(k, v)| (k.to_string(), v)).collect())
}

fn params(r: &UpstreamRequest) -> Vec<(&str, &str)> {
    r.params.iter().map(|(k, v)| (k.as_str(), v.as_str())).collect()
}

fn song_json(id: &str) -> JsonValue {
    obj(vec![
        ("id", s(id)),
        ("title", s("Tum Hi Ho")),
        ("type", s("song")),
        ("year", s("2013")),
        ("explicit_content", s("0")),
        ("play_count", s("1000")),
        ("language", s("hindi")),
        ("perma_url", s("https://www.hqaudio.com/song/tum-hi-ho/x")),
        ("image", s("http://c.saavncdn.com/a-150x150.jpg")),
        (
            "more_info",
            obj(vec![
                ("release_date", s("")),
                ("duration", s("262")),
                ("label", s("T-Series")),
                ("has_lyrics", JsonValue::Bool(true)),
                ("album_id", s("1142502")),
                ("album", s("Aashiqui 2")),
                ("copyright_text", s("(P) 2013")),
                ("encrypted_media_url", s("iPPGVzyogeiPwpro65A0eUaQggN+8+J4LZ3AJQNq3T7xWSofYfNw/Q==")),
                (
                    "artistMap",
                    obj(vec![(
                        "primary_artists",
                        JsonValue::Array(vec![obj(vec![
                            ("id", s("455130")),
                            ("name", s("Arijit Singh")),
                            ("role", s("singer")),
                            ("type", s("artist")),
                            ("image", s("")),
                            ("perma_url", s("https://www.hqaudio.com/artist/arijit")),
                        ])]),
                    )]),
                ),
            ]),
        ),
    ])
}

#[test]
fn reads_a_song() {
    let song = parse_song(&song_json("abc"));
    assert_eq!(song.id, "abc");
    assert_eq!(song.name, "Tum Hi Ho");
    assert_eq!(song.kind, "song");
    assert_eq!(song.year, Some("2013".to_string()));
    assert_eq!(song.release_date, None);
    assert_eq!(song.duration, Some(262));
    assert_eq!(song.label, Some("T-Series".to_string()));
    assert!(!song.explicit_content);
    assert_eq!(song.play_count, Some(1000));
    assert!(song.has_lyrics);
    assert_eq!(song.lyrics_id, None);
    assert_eq!(song.copyright, Some("(P) 2013".to_string()));
    assert_eq!(song.album.id, Some("1142502".to_string()));
    assert_eq!(song.album.name, Some("Aashiqui 2".to_string()));
    assert_eq!(song.album.url, None);
    assert_eq!(song.artists.primary.len(), 1);
    assert_eq!(song.artists.primary[0].name, "Arijit Singh");
    assert!(song.artists.primary[0].image.is_empty());
    assert!(song.artists.featured.is_empty());
    assert!(song.artists.all.is_empty());
    assert_eq!(song.image.len(), 3);
    assert_eq!(song.image[2].url, "https://c.saavncdn.com/a-500x500.jpg");
    assert_eq!(song.download_url.len(), 5);
    assert_eq!(song.download_url[4].url, "http://aac.saavncdn.com/123/abc_320.mp4");
}

#[test]
fn song_link_tokens() {
    assert_eq!(
        song_link_token("https://hqaudio.suvojeetsengupta.in/song/tum-hi-ho/OQMaey5hbVc?ref=x"),
        Some("OQMaey5hbVc".to_string())
    );
    assert_eq!(song_link_token("https://hqaudio.suvojeetsengupta.in/song/tum-hi-ho"), None);
    assert_eq!(song_link_token("https://example.com/song/a/b"), None);
}

#[test]
fn songs_request_by_link_or_ids() {
    let r = songs_request(&SongsQuery {
        ids: Some("x".to_string()),
        link: Some("https://hqaudio.suvojeetsengupta.in/song/a/TOKEN".to_string()),
    })
    .unwrap();
    assert_eq!(r.endpoint, "webapi.get");
    assert_eq!(params(&r), vec![("token", "TOKEN"), ("type", "song")]);
    let r = songs_request(&SongsQuery { ids: Some("1,2".to_string()), link: None }).unwrap();
    assert_eq!(r.endpoint, "song.getDetails");
    assert_eq!(params(&r), vec![("pids", "1,2")]);
    assert_eq!(
        songs_request(&SongsQuery { ids: None, link: None }).unwrap_err(),
        AppError::BadRequest("Either 'ids' or 'link' query parameter is required".to_string())
    );
    assert_eq!(
        songs_request(&SongsQuery { ids: None, link: Some("bad".to_string()) }).unwrap_err(),
        AppError::BadRequest("Invalid HqAudio song link".to_string())
    );
}

#[test]
fn songs_from_replies() {
    let wrapped = obj(vec![("songs", JsonValue::Array(vec![song_json("a"), song_json("b")]))]);
    let songs = songs_from_response(&wrapped).unwrap();
    assert_eq!(songs.len(), 2);
    assert_eq!(songs[1].id, "b");
    let bare = JsonValue::Array(vec![song_json("c")]);
    assert_eq!(songs_from_response(&bare).unwrap()[0].id, "c");
    let err = songs_from_response(&obj(vec![])).unwrap_err();
    assert_eq!(err, AppError::NotFound("Song not found".to_string()));
    assert_eq!(err.status_code(), 404);
    assert_eq!(err.message(), "Song not found");
    assert_eq!(song_by_id_request("9").endpoint, "song.getDetails");
}

#[test]
fn suggestions_flow() {
    let r = station_request("abc");
    assert_eq!(r.endpoint, "webradio.createEntityStation");
    assert_eq!(params(&r), vec![("entity_id", "abc"), ("entity_type", "queue")]);
    assert_eq!(station_id(&obj(vec![("stationid", s("st1"))])), Some("st1".to_string()));
    assert_eq!(station_id(&obj(vec![])), None);
    let r = station_songs_request("st1", &SuggestionsQuery { limit: None });
    assert_eq!(params(&r), vec![("stationid", "st1"), ("k", "10")]);
    let r = station_songs_request("st1", &SuggestionsQuery { limit: Some("3".to_string()) });
    assert_eq!(params(&r), vec![("stationid", "st1"), ("k", "3")]);
    let reply = JsonValue::Array(vec![
        obj(vec![("song", song_json("a"))]),
        obj(vec![("other", s("x"))]),
        obj(vec![("song", song_json("b"))]),
    ]);
    let songs = suggestions_from_response(&reply);
    assert_eq!(songs.iter().map(|x| x.id.as_str()).collect::<Vec<_>>(), vec!["a", "b"]);
    assert!(suggestions_from_response(&obj(vec![])).is_empty());
}

#[test]
fn lyrics_replies() {
    assert_eq!(params(&lyrics_request("l1")), vec![("lyrics_id", "l1")]);
    let l = lyrics_from_response(&obj(vec![("lyrics", s("la la")), ("snippet", s(""))])).unwrap();
    assert_eq!(l.lyrics, "la la");
    assert_eq!(l.copyright, None);
    assert_eq!(l.snippet, None);
    assert_eq!(
        lyrics_from_response(&obj(vec![])).unwrap_err(),
        AppError::NotFound("Lyrics not found".to_string())
    );
}

#[test]
fn category_searches() {
    let q = CategorySearchQuery { query: "arijit".to_string(), page: None, limit: Some(5) };
    let r = category_search_request("search.getResults", &q);
    assert_eq!(params(&r), vec![("p", "1"), ("n", "5"), ("q", "arijit")]);
    let reply = obj(vec![("results", JsonValue::Array(vec![song_json("a")]))]);
    let page = song_results(&reply);
    assert_eq!(page.position, 1);
    assert_eq!(page.results[0].id, "a");
    let artists = artist_results(&obj(vec![(
        "results",
        JsonValue::Array(vec![obj(vec![("title", s("Arijit"))])]),
    )]));
    assert_eq!(artists.results[0].name, "Arijit");
    assert!(album_results(&obj(vec![])).results.is_empty());
    let playlists = playlist_results(&obj(vec![(
        "results",
        JsonValue::Array(vec![obj(vec![("listname", s("Top")), ("url", s("u"))])]),
    )]));
    assert_eq!(playlists.results[0].name, "Top");
    assert_eq!(playlists.results[0].url, "u");
}

#[test]
fn playlist_names_fall_back() {
    let p = parse_playlist(&obj(vec![("title", s("")), ("name", s("N")), ("perma_url", s("p"))]));
    assert_eq!(p.name, "N");
    assert_eq!(p.url, "p");
}

#[test]
fn album_and_playlist_details() {
    assert_eq!(params(&album_request(&IdQuery { id: "7".to_string() })), vec![("albumid", "7")]);
    assert_eq!(album_songs(&obj(vec![("songs", JsonValue::Array(vec![song_json("a")]))])).len(), 1);
    let r = playlist_request(&IdQuery { id: "8".to_string() });
    assert_eq!(r.endpoint, "playlist.getDetails");
    let page = playlist_songs(&obj(vec![("list", JsonValue::Array(vec![song_json("a")]))]));
    assert_eq!((page.results.len(), page.position), (1, 1));
}

#[test]
fn artist_details() {
    let r = artist_request("459320", &ArtistQuery { page: Some(2), song_count: None, album_count: Some(-1) });
    assert_eq!(r.endpoint, "artist.getArtistPageDetails");
    assert_eq!(
        params(&r),
        vec![("artistId", "459320"), ("page", "2"), ("song_count", "20"), ("album_count", "-1")]
    );
    let reply = obj(vec![
        ("artistId", s("459320")),
        ("name", s("Arijit Singh")),
        ("fan_count", s("100")),
        ("topSongs", JsonValue::Array(vec![song_json("a")])),
        ("topAlbums", JsonValue::Array(vec![obj(vec![("title", s("A"))])])),
    ]);
    let d = artist_detail_from_response(&reply).unwrap();
    assert_eq!(d.name, "Arijit Singh");
    assert_eq!(d.fan_count, Some("100".to_string()));
    assert_eq!(d.wiki, None);
    assert_eq!(d.top_songs.len(), 1);
    assert_eq!(d.top_albums[0].name, "A");
    assert_eq!(
        artist_detail_from_response(&obj(vec![])).unwrap_err(),
        AppError::NotFound("Artist not found or invalid ID".to_string())
    );
}

#[test]
fn global_search() {
    let raw = obj(vec![
        (
            "songs",
            obj(vec![
                ("data", JsonValue::Array(vec![obj(vec![("id", s("s1")), ("more_info", obj(vec![("singers", s("A"))]))])])),
                ("position", JsonValue::Number(JsonNumber::PosInt(2))),
            ]),
        ),
        ("artists", obj(vec![("data", JsonValue::Array(vec![obj(vec![("position", s("3"))])])), ("position", s("1"))])),
    ]);
    let r = search_response(&raw);
    assert_eq!(r.songs.position, 2);
    assert_eq!(r.songs.results[0].id, "s1");
    assert_eq!(r.songs.results[0].singers, "A");
    assert_eq!(r.artists.position, 1);
    assert_eq!(r.artists.results[0].position, 3);
    assert!(r.albums.results.is_empty());
    assert_eq!(r.albums.position, 0);
    assert!(r.top_query.results.is_empty());
}
