//! Reading the upstream's JSON into the response models: songs, artists,
//! albums, playlists and the categories of a global search.

use vstd::prelude::*;

use crate::crypto::{create_download_links, create_image_links, download_links_of, image_links_of};
use crate::json::{
    bool_val, flag_of, i32_val, i64_val, int32_or_zero, items, items_of, member, member_of,
    nonempty_text, opt_str_val, optional_int, str_val, text_or_empty, JsonValue,
};
use crate::models::{
    Album, AlbumInfo, AlbumSearchItem, Artist, ArtistGroup, ArtistSearchItem, Playlist,
    PlaylistSearchItem, SearchResponse, SearchResultCategory, Song, SongSearchItem,
};

verus! {

/// An optional text holds what the optional view gives.
pub open spec fn same_opt_text(o: Option<String>, t: Option<Seq<char>>) -> bool {
    match o {
        Some(s) => t == Some(s@),
        None => t is None,
    }
}

/// The text of member `key` of `v`, or empty text.
pub open spec fn text_at(v: JsonValue, key: Seq<char>) -> Seq<char> {
    text_or_empty(member(v, key))
}

/// `links` are the cover images of the image URL in member `image` of `v`.
pub open spec fn images_of(v: JsonValue, links: Seq<crate::crypto::DownloadLink>) -> bool {
    image_links_of(text_at(v, "image"@), links)
}

/// `a` is the artist that `v` describes, its name read from `name_key`.
pub open spec fn is_artist_of(a: Artist, v: JsonValue, name_key: Seq<char>) -> bool {
    &&& a.id@ == text_at(v, "id"@)
    &&& a.name@ == text_at(v, name_key)
    &&& a.role@ == text_at(v, "role"@)
    &&& a.kind@ == text_at(v, "type"@)
    &&& images_of(v, a.image@)
    &&& a.url@ == text_at(v, "perma_url"@)
}

/// `artists` are the artists that the array `list` describes (none where
/// `list` is not an array).
pub open spec fn is_artist_list_of(artists: Seq<Artist>, list: JsonValue) -> bool {
    match items_of(list) {
        Some(entries) => {
            &&& artists.len() == entries.len()
            &&& forall|i: int|
                0 <= i < entries.len() ==> is_artist_of(
                    #[trigger] artists[i],
                    entries[i],
                    "name"@,
                )
        },
        None => artists.len() == 0,
    }
}

/// `s` is the song that `v` describes.
pub open spec fn is_song_of(s: Song, v: JsonValue) -> bool {
    let info = member(v, "more_info"@);
    let artist_map = member(info, "artistMap"@);
    &&& s.id@ == text_at(v, "id"@)
    &&& s.name@ == text_at(v, "title"@)
    &&& s.kind@ == text_at(v, "type"@)
    &&& same_opt_text(s.year, nonempty_text(member(v, "year"@)))
    &&& same_opt_text(s.release_date, nonempty_text(member(info, "release_date"@)))
    &&& s.duration == optional_int(member(info, "duration"@))
    &&& same_opt_text(s.label, nonempty_text(member(info, "label"@)))
    &&& s.explicit_content == flag_of(member(v, "explicit_content"@))
    &&& s.play_count == optional_int(member(v, "play_count"@))
    &&& s.language@ == text_at(v, "language"@)
    &&& s.has_lyrics == flag_of(member(info, "has_lyrics"@))
    &&& same_opt_text(s.lyrics_id, nonempty_text(member(info, "lyrics_id"@)))
    &&& s.url@ == text_at(v, "perma_url"@)
    &&& same_opt_text(s.copyright, nonempty_text(member(info, "copyright_text"@)))
    &&& same_opt_text(s.album.id, nonempty_text(member(info, "album_id"@)))
    &&& same_opt_text(s.album.name, nonempty_text(member(info, "album"@)))
    &&& same_opt_text(s.album.url, nonempty_text(member(info, "album_url"@)))
    &&& is_artist_list_of(s.artists.primary@, member(artist_map, "primary_artists"@))
    &&& is_artist_list_of(s.artists.featured@, member(artist_map, "featured_artists"@))
    &&& is_artist_list_of(s.artists.all@, member(artist_map, "artists"@))
    &&& images_of(v, s.image@)
    &&& download_links_of(text_at(info, "encrypted_media_url"@), s.download_url@)
}

/// `songs` are the songs that the array `list` describes (none where `list`
/// is not an array).
pub open spec fn is_song_list_of(songs: Seq<Song>, list: JsonValue) -> bool {
    match items_of(list) {
        Some(entries) => {
            &&& songs.len() == entries.len()
            &&& forall|i: int| 0 <= i < entries.len() ==> is_song_of(#[trigger] songs[i], entries[i])
        },
        None => songs.len() == 0,
    }
}

/// `a` is the album that `v` describes.
pub open spec fn is_album_of(a: Album, v: JsonValue) -> bool {
    &&& a.id@ == text_at(v, "id"@)
    &&& a.name@ == text_at(v, "title"@)
    &&& same_opt_text(a.year, nonempty_text(member(v, "year"@)))
    &&& a.url@ == text_at(v, "perma_url"@)
    &&& images_of(v, a.image@)
}

/// `albums` are the albums that the array `list` describes.
pub open spec fn is_album_list_of(albums: Seq<Album>, list: JsonValue) -> bool {
    match items_of(list) {
        Some(entries) => {
            &&& albums.len() == entries.len()
            &&& forall|i: int|
                0 <= i < entries.len() ==> is_album_of(#[trigger] albums[i], entries[i])
        },
        None => albums.len() == 0,
    }
}

/// The first non-empty of two texts, else the third.
pub open spec fn first_nonempty(a: Seq<char>, b: Seq<char>, c: Seq<char>) -> Seq<char> {
    if a.len() > 0 {
        a
    } else if b.len() > 0 {
        b
    } else {
        c
    }
}

/// `p` is the playlist that `v` describes: its name from `title`, else
/// `listname`, else `name`; its URL from `perma_url`, else `url`.
pub open spec fn is_playlist_of(p: Playlist, v: JsonValue) -> bool {
    &&& p.id@ == text_at(v, "id"@)
    &&& p.name@ == first_nonempty(text_at(v, "title"@), text_at(v, "listname"@), text_at(v, "name"@))
    &&& p.url@ == first_nonempty(text_at(v, "perma_url"@), text_at(v, "url"@), text_at(v, "url"@))
    &&& images_of(v, p.image@)
}

/// `s` is the song search result that `v` describes.
pub open spec fn is_song_item_of(s: SongSearchItem, v: JsonValue) -> bool {
    let info = member(v, "more_info"@);
    &&& s.id@ == text_at(v, "id"@)
    &&& s.title@ == text_at(v, "title"@)
    &&& images_of(v, s.image@)
    &&& s.album@ == text_at(v, "album"@)
    &&& s.url@ == text_at(v, "url"@)
    &&& s.kind@ == text_at(v, "type"@)
    &&& s.description@ == text_at(v, "description"@)
    &&& s.primary_artists@ == text_at(info, "primary_artists"@)
    &&& s.singers@ == text_at(info, "singers"@)
    &&& s.language@ == text_at(info, "language"@)
}

/// `a` is the album search result that `v` describes.
pub open spec fn is_album_item_of(a: AlbumSearchItem, v: JsonValue) -> bool {
    let info = member(v, "more_info"@);
    &&& a.id@ == text_at(v, "id"@)
    &&& a.title@ == text_at(v, "title"@)
    &&& images_of(v, a.image@)
    &&& a.artist@ == text_at(v, "music"@)
    &&& a.url@ == text_at(v, "url"@)
    &&& a.kind@ == text_at(v, "type"@)
    &&& a.description@ == text_at(v, "description"@)
    &&& a.year@ == text_at(info, "year"@)
    &&& a.language@ == text_at(info, "language"@)
    &&& a.song_ids@ == text_at(info, "song_pids"@)
}

/// `a` is the artist search result that `v` describes.
pub open spec fn is_artist_item_of(a: ArtistSearchItem, v: JsonValue) -> bool {
    &&& a.id@ == text_at(v, "id"@)
    &&& a.title@ == text_at(v, "title"@)
    &&& images_of(v, a.image@)
    &&& a.kind@ == text_at(v, "type"@)
    &&& a.description@ == text_at(v, "description"@)
    &&& a.position == int32_or_zero(member(v, "position"@))
}

/// `p` is the playlist search result that `v` describes.
pub open spec fn is_playlist_item_of(p: PlaylistSearchItem, v: JsonValue) -> bool {
    &&& p.id@ == text_at(v, "id"@)
    &&& p.title@ == text_at(v, "title"@)
    &&& images_of(v, p.image@)
    &&& p.url@ == text_at(v, "url"@)
    &&& p.language@ == text_at(member(v, "more_info"@), "language"@)
    &&& p.kind@ == text_at(v, "type"@)
    &&& p.description@ == text_at(v, "description"@)
}

/// The elements of the `data` array of the search category `cat` (none
/// where it has no such array).
pub open spec fn category_entries(cat: JsonValue) -> Seq<JsonValue> {
    match items_of(member(cat, "data"@)) {
        Some(entries) => entries,
        None => Seq::empty(),
    }
}

/// `c` has the `position` of the search category `cat` and one result per
/// element of its `data` array.
pub open spec fn has_category_shape<T>(c: SearchResultCategory<T>, cat: JsonValue) -> bool {
    &&& c.position == int32_or_zero(member(cat, "position"@))
    &&& c.results@.len() == category_entries(cat).len()
}

/// `c` is the album category that `cat` describes.
pub open spec fn is_album_category_of(c: SearchResultCategory<AlbumSearchItem>, cat: JsonValue) -> bool {
    &&& has_category_shape(c, cat)
    &&& forall|i: int|
        0 <= i < c.results@.len() ==> is_album_item_of(#[trigger] c.results@[i], category_entries(cat)[i])
}

/// `c` is the song category that `cat` describes.
pub open spec fn is_song_category_of(c: SearchResultCategory<SongSearchItem>, cat: JsonValue) -> bool {
    &&& has_category_shape(c, cat)
    &&& forall|i: int|
        0 <= i < c.results@.len() ==> is_song_item_of(#[trigger] c.results@[i], category_entries(cat)[i])
}

/// `c` is the artist category that `cat` describes.
pub open spec fn is_artist_category_of(c: SearchResultCategory<ArtistSearchItem>, cat: JsonValue) -> bool {
    &&& has_category_shape(c, cat)
    &&& forall|i: int|
        0 <= i < c.results@.len() ==> is_artist_item_of(#[trigger] c.results@[i], category_entries(cat)[i])
}

/// `c` is the playlist category that `cat` describes.
pub open spec fn is_playlist_category_of(
    c: SearchResultCategory<PlaylistSearchItem>,
    cat: JsonValue,
) -> bool {
    &&& has_category_shape(c, cat)
    &&& forall|i: int|
        0 <= i < c.results@.len() ==> is_playlist_item_of(
            #[trigger] c.results@[i],
            category_entries(cat)[i],
        )
}

/// `r` is the global search response that `raw` describes.
pub open spec fn is_search_response_of(r: SearchResponse, raw: JsonValue) -> bool {
    &&& is_album_category_of(r.albums, member(raw, "albums"@))
    &&& is_song_category_of(r.songs, member(raw, "songs"@))
    &&& is_artist_category_of(r.artists, member(raw, "artists"@))
    &&& is_playlist_category_of(r.playlists, member(raw, "playlists"@))
    &&& is_song_category_of(r.top_query, member(raw, "topquery"@))
}

/// The cover images of the URL in member `image` of `v`.
fn images(v: &JsonValue) -> (links: Vec<crate::crypto::DownloadLink>)
    ensures
        images_of(*v, links@),
{
    create_image_links(str_val(member_of(v, "image")).as_str())
}

/// Reads an artist from an entry of a song's artist map.
fn parse_artist_map(v: &JsonValue) -> (a: Artist)
    ensures
        is_artist_of(a, *v, "name"@),
{
    Artist {
        id: str_val(member_of(v, "id")),
        name: str_val(member_of(v, "name")),
        role: str_val(member_of(v, "role")),
        kind: str_val(member_of(v, "type")),
        image: images(v),
        url: str_val(member_of(v, "perma_url")),
    }
}

/// Reads the artists of an artist-map array.
fn parse_artist_list(list: &JsonValue) -> (artists: Vec<Artist>)
    ensures
        is_artist_list_of(artists@, *list),
{
    let mut artists: Vec<Artist> = Vec::new();
    match items(list) {
        Some(entries) => {
            let mut i: usize = 0;
            while i < entries.len()
                invariant
                    items_of(*list) == Some(entries@),
                    i <= entries@.len(),
                    artists@.len() == i,
                    forall|k: int|
                        0 <= k < i ==> is_artist_of(#[trigger] artists@[k], entries@[k], "name"@),
                decreases entries@.len() - i,
            {
                artists.push(parse_artist_map(&entries[i]));
                i = i + 1;
            }
        },
        None => {},
    }
    artists
}

/// Reads a song.
pub fn parse_song(v: &JsonValue) -> (s: Song)
    ensures
        is_song_of(s, *v),
        s.url@ == text_or_empty(member(*v, "perma_url"@)),
        s.name@ == text_or_empty(member(*v, "title"@)),
        s.id@ == text_or_empty(member(*v, "id"@)),
{
    let more_info = member_of(v, "more_info");
    let artist_map = member_of(more_info, "artistMap");
    let primary = parse_artist_list(member_of(artist_map, "primary_artists"));
    let featured = parse_artist_list(member_of(artist_map, "featured_artists"));
    let all = parse_artist_list(member_of(artist_map, "artists"));
    let album = AlbumInfo {
        id: opt_str_val(member_of(more_info, "album_id")),
        name: opt_str_val(member_of(more_info, "album")),
        url: opt_str_val(member_of(more_info, "album_url")),
    };
    Song {
        id: str_val(member_of(v, "id")),
        name: str_val(member_of(v, "title")),
        kind: str_val(member_of(v, "type")),
        year: opt_str_val(member_of(v, "year")),
        release_date: opt_str_val(member_of(more_info, "release_date")),
        duration: i64_val(member_of(more_info, "duration")),
        label: opt_str_val(member_of(more_info, "label")),
        explicit_content: bool_val(member_of(v, "explicit_content")),
        play_count: i64_val(member_of(v, "play_count")),
        language: str_val(member_of(v, "language")),
        has_lyrics: bool_val(member_of(more_info, "has_lyrics")),
        lyrics_id: opt_str_val(member_of(more_info, "lyrics_id")),
        url: str_val(member_of(v, "perma_url")),
        copyright: opt_str_val(member_of(more_info, "copyright_text")),
        album,
        artists: ArtistGroup { primary, featured, all },
        image: images(v),
        download_url: create_download_links(
            str_val(member_of(more_info, "encrypted_media_url")).as_str(),
        ),
    }
}

/// Reads the songs of an array (none where `list` is not an array).
pub fn parse_song_list(list: &JsonValue) -> (songs: Vec<Song>)
    ensures
        is_song_list_of(songs@, *list),
{
    let mut songs: Vec<Song> = Vec::new();
    match items(list) {
        Some(entries) => {
            let mut i: usize = 0;
            while i < entries.len()
                invariant
                    items_of(*list) == Some(entries@),
                    i <= entries@.len(),
                    songs@.len() == i,
                    forall|k: int| 0 <= k < i ==> is_song_of(#[trigger] songs@[k], entries@[k]),
                decreases entries@.len() - i,
            {
                songs.push(parse_song(&entries[i]));
                i = i + 1;
            }
        },
        None => {},
    }
    songs
}

/// Reads an artist from a search result.
pub fn parse_artist(v: &JsonValue) -> (a: Artist)
    ensures
        is_artist_of(a, *v, "title"@),
        a.name@ == text_or_empty(member(*v, "title"@)),
        a.url@ == text_or_empty(member(*v, "perma_url"@)),
{
    Artist {
        id: str_val(member_of(v, "id")),
        name: str_val(member_of(v, "title")),
        role: str_val(member_of(v, "role")),
        kind: str_val(member_of(v, "type")),
        image: images(v),
        url: str_val(member_of(v, "perma_url")),
    }
}

/// Reads an album.
pub fn parse_album(v: &JsonValue) -> (a: Album)
    ensures
        is_album_of(a, *v),
        a.name@ == text_or_empty(member(*v, "title"@)),
        a.url@ == text_or_empty(member(*v, "perma_url"@)),
{
    Album {
        id: str_val(member_of(v, "id")),
        name: str_val(member_of(v, "title")),
        year: opt_str_val(member_of(v, "year")),
        url: str_val(member_of(v, "perma_url")),
        image: images(v),
    }
}

/// Reads a playlist.
pub fn parse_playlist(v: &JsonValue) -> (p: Playlist)
    ensures
        is_playlist_of(p, *v),
        text_or_empty(member(*v, "title"@)).len() > 0 ==> p.name@ == text_or_empty(
            member(*v, "title"@),
        ),
        text_or_empty(member(*v, "perma_url"@)).len() > 0 ==> p.url@ == text_or_empty(
            member(*v, "perma_url"@),
        ),
        text_or_empty(member(*v, "perma_url"@)).len() == 0 ==> p.url@ == text_or_empty(
            member(*v, "url"@),
        ),
{
    let title = str_val(member_of(v, "title"));
    let name = if title.as_str().unicode_len() > 0 {
        title
    } else {
        let listname = str_val(member_of(v, "listname"));
        if listname.as_str().unicode_len() > 0 {
            listname
        } else {
            str_val(member_of(v, "name"))
        }
    };
    let perma_url = str_val(member_of(v, "perma_url"));
    let url = if perma_url.as_str().unicode_len() > 0 {
        perma_url
    } else {
        str_val(member_of(v, "url"))
    };
    Playlist { id: str_val(member_of(v, "id")), name, url, image: images(v) }
}

/// Reads a song search result.
pub fn map_song_item(v: &JsonValue) -> (s: SongSearchItem)
    ensures
        is_song_item_of(s, *v),
        s.album@ == text_or_empty(member(*v, "album"@)),
        s.url@ == text_or_empty(member(*v, "url"@)),
        s.singers@ == text_or_empty(member(member(*v, "more_info"@), "singers"@)),
        s.primary_artists@ == text_or_empty(member(member(*v, "more_info"@), "primary_artists"@)),
{
    let info = member_of(v, "more_info");
    SongSearchItem {
        id: str_val(member_of(v, "id")),
        title: str_val(member_of(v, "title")),
        image: images(v),
        album: str_val(member_of(v, "album")),
        url: str_val(member_of(v, "url")),
        kind: str_val(member_of(v, "type")),
        description: str_val(member_of(v, "description")),
        primary_artists: str_val(member_of(info, "primary_artists")),
        singers: str_val(member_of(info, "singers")),
        language: str_val(member_of(info, "language")),
    }
}

/// Reads an album search result.
pub fn map_album_item(v: &JsonValue) -> (a: AlbumSearchItem)
    ensures
        is_album_item_of(a, *v),
        a.artist@ == text_or_empty(member(*v, "music"@)),
        a.song_ids@ == text_or_empty(member(member(*v, "more_info"@), "song_pids"@)),
        a.year@ == text_or_empty(member(member(*v, "more_info"@), "year"@)),
{
    let info = member_of(v, "more_info");
    AlbumSearchItem {
        id: str_val(member_of(v, "id")),
        title: str_val(member_of(v, "title")),
        image: images(v),
        artist: str_val(member_of(v, "music")),
        url: str_val(member_of(v, "url")),
        kind: str_val(member_of(v, "type")),
        description: str_val(member_of(v, "description")),
        year: str_val(member_of(info, "year")),
        language: str_val(member_of(info, "language")),
        song_ids: str_val(member_of(info, "song_pids")),
    }
}

/// Reads an artist search result.
pub fn map_artist_item(v: &JsonValue) -> (a: ArtistSearchItem)
    ensures
        is_artist_item_of(a, *v),
{
    ArtistSearchItem {
        id: str_val(member_of(v, "id")),
        title: str_val(member_of(v, "title")),
        image: images(v),
        kind: str_val(member_of(v, "type")),
        description: str_val(member_of(v, "description")),
        position: i32_val(member_of(v, "position")),
    }
}

/// Reads a playlist search result.
pub fn map_playlist_item(v: &JsonValue) -> (p: PlaylistSearchItem)
    ensures
        is_playlist_item_of(p, *v),
        p.url@ == text_or_empty(member(*v, "url"@)),
        p.language@ == text_or_empty(member(member(*v, "more_info"@), "language"@)),
{
    PlaylistSearchItem {
        id: str_val(member_of(v, "id")),
        title: str_val(member_of(v, "title")),
        image: images(v),
        url: str_val(member_of(v, "url")),
        language: str_val(member_of(member_of(v, "more_info"), "language")),
        kind: str_val(member_of(v, "type")),
        description: str_val(member_of(v, "description")),
    }
}

/// Reads a search category: each element of its `data` array read by
/// `mapper` (no results where there is no such array), and its `position`.
pub fn parse_category<T, F: Fn(&JsonValue) -> T>(cat: &JsonValue, mapper: F) -> (c:
    SearchResultCategory<T>)
    requires
        forall|x: &JsonValue| #[trigger] mapper.requires((x,)),
    ensures
        has_category_shape(c, *cat),
        forall|i: int|
            0 <= i < c.results@.len() ==> mapper.ensures(
                (&category_entries(*cat)[i],),
                #[trigger] c.results@[i],
            ),
{
    let mut results: Vec<T> = Vec::new();
    let data = member_of(cat, "data");
    match items(data) {
        Some(entries) => {
            let mut i: usize = 0;
            while i < entries.len()
                invariant
                    forall|x: &JsonValue| #[trigger] mapper.requires((x,)),
                    items_of(*data) == Some(entries@),
                    i <= entries@.len(),
                    results@.len() == i,
                    forall|k: int|
                        0 <= k < i ==> mapper.ensures((&entries@[k],), #[trigger] results@[k]),
                decreases entries@.len() - i,
            {
                let item = mapper(&entries[i]);
                results.push(item);
                i = i + 1;
            }
        },
        None => {},
    }
    SearchResultCategory { results, position: i32_val(member_of(cat, "position")) }
}

/// Reads the response of a global search: albums, songs, artists,
/// playlists and the top query, each a category of `raw`.
pub fn search_response(raw: &JsonValue) -> (r: SearchResponse)
    ensures
        is_search_response_of(r, *raw),
{
    let albums = parse_category(member_of(raw, "albums"), map_album_item);
    let songs = parse_category(member_of(raw, "songs"), map_song_item);
    let artists = parse_category(member_of(raw, "artists"), map_artist_item);
    let playlists = parse_category(member_of(raw, "playlists"), map_playlist_item);
    let top_query = parse_category(member_of(raw, "topquery"), map_song_item);
    SearchResponse { albums, songs, artists, playlists, top_query }
}

/// A song's URL is the text of its reply's `perma_url` member (empty where
/// it has none), whatever its other members hold.
pub proof fn law_song_url_is_perma_url(s: Song, v: JsonValue)
    requires
        is_song_of(s, v),
    ensures
        s.url@ == text_or_empty(member(v, "perma_url"@)),
{
}

/// A song found by a global search names the album of the item's own
/// top-level `album` member, not the one under `more_info`.
pub proof fn law_song_item_album_is_top_level(s: SongSearchItem, v: JsonValue)
    requires
        is_song_item_of(s, v),
    ensures
        s.album@ == text_or_empty(member(v, "album"@)),
{
}

/// Every song of a global search reply takes its album from the top-level
/// `album` member of its entry in the `songs` category.
pub proof fn law_search_song_albums(r: SearchResponse, raw: JsonValue)
    requires
        is_search_response_of(r, raw),
    ensures
        r.songs.results@.len() == category_entries(member(raw, "songs"@)).len(),
        forall|i: int|
            0 <= i < r.songs.results@.len() ==> (#[trigger] r.songs.results@[i]).album@
                == text_or_empty(member(category_entries(member(raw, "songs"@))[i], "album"@)),
{
    assert forall|i: int| 0 <= i < r.songs.results@.len() implies (
    #[trigger] r.songs.results@[i]).album@ == text_or_empty(
        member(category_entries(member(raw, "songs"@))[i], "album"@),
    ) by {
        law_song_item_album_is_top_level(
            r.songs.results@[i],
            category_entries(member(raw, "songs"@))[i],
        );
    }
}

/// A playlist whose `title` member is a non-empty text is named by it,
/// whatever its `listname` and `name` members hold.
pub proof fn law_playlist_named_by_title(p: Playlist, v: JsonValue)
    requires
        is_playlist_of(p, v),
        text_or_empty(member(v, "title"@)).len() > 0,
    ensures
        p.name@ == text_or_empty(member(v, "title"@)),
{
}

} // verus!
