//! The response models of the API and its error type.

use vstd::prelude::*;

use crate::crypto::DownloadLink;

verus! {

/// A song with its album, artists, cover images and download links.
#[derive(Debug, Clone, PartialEq)]
pub struct Song {
    pub id: String,
    pub name: String,
    pub kind: String,
    pub year: Option<String>,
    pub release_date: Option<String>,
    pub duration: Option<i64>,
    pub label: Option<String>,
    pub explicit_content: bool,
    pub play_count: Option<i64>,
    pub language: String,
    pub has_lyrics: bool,
    pub lyrics_id: Option<String>,
    pub url: String,
    pub copyright: Option<String>,
    pub album: AlbumInfo,
    pub artists: ArtistGroup,
    pub image: Vec<DownloadLink>,
    pub download_url: Vec<DownloadLink>,
}

/// The album that a song belongs to.
#[derive(Debug, Clone, PartialEq)]
pub struct AlbumInfo {
    pub id: Option<String>,
    pub name: Option<String>,
    pub url: Option<String>,
}

/// The primary, featured and all artists of a song.
#[derive(Debug, Clone, PartialEq)]
pub struct ArtistGroup {
    pub primary: Vec<Artist>,
    pub featured: Vec<Artist>,
    pub all: Vec<Artist>,
}

/// An artist.
#[derive(Debug, Clone, PartialEq)]
pub struct Artist {
    pub id: String,
    pub name: String,
    pub role: String,
    pub kind: String,
    pub image: Vec<DownloadLink>,
    pub url: String,
}

/// An album.
#[derive(Debug, Clone, PartialEq)]
pub struct Album {
    pub id: String,
    pub name: String,
    pub year: Option<String>,
    pub url: String,
    pub image: Vec<DownloadLink>,
}

/// The lyrics of a song.
#[derive(Debug, Clone, PartialEq)]
pub struct Lyrics {
    pub lyrics: String,
    pub copyright: Option<String>,
    pub snippet: Option<String>,
}

/// One category of search results and its position among the categories.
#[derive(Debug, Clone, PartialEq)]
pub struct SearchResultCategory<T> {
    pub results: Vec<T>,
    pub position: i32,
}

/// A song among the results of a global search.
#[derive(Debug, Clone, PartialEq)]
pub struct SongSearchItem {
    pub id: String,
    pub title: String,
    pub image: Vec<DownloadLink>,
    pub album: String,
    pub url: String,
    pub kind: String,
    pub description: String,
    pub primary_artists: String,
    pub singers: String,
    pub language: String,
}

/// An album among the results of a global search.
#[derive(Debug, Clone, PartialEq)]
pub struct AlbumSearchItem {
    pub id: String,
    pub title: String,
    pub image: Vec<DownloadLink>,
    pub artist: String,
    pub url: String,
    pub kind: String,
    pub description: String,
    pub year: String,
    pub language: String,
    pub song_ids: String,
}

/// An artist among the results of a global search.
#[derive(Debug, Clone, PartialEq)]
pub struct ArtistSearchItem {
    pub id: String,
    pub title: String,
    pub image: Vec<DownloadLink>,
    pub kind: String,
    pub description: String,
    pub position: i32,
}

/// A playlist among the results of a global search.
#[derive(Debug, Clone, PartialEq)]
pub struct PlaylistSearchItem {
    pub id: String,
    pub title: String,
    pub image: Vec<DownloadLink>,
    pub url: String,
    pub language: String,
    pub kind: String,
    pub description: String,
}

/// A playlist.
#[derive(Debug, Clone, PartialEq)]
pub struct Playlist {
    pub id: String,
    pub name: String,
    pub url: String,
    pub image: Vec<DownloadLink>,
}

/// The result of a global search, by category.
#[derive(Debug, Clone, PartialEq)]
pub struct SearchResponse {
    pub albums: SearchResultCategory<AlbumSearchItem>,
    pub songs: SearchResultCategory<SongSearchItem>,
    pub artists: SearchResultCategory<ArtistSearchItem>,
    pub playlists: SearchResultCategory<PlaylistSearchItem>,
    pub top_query: SearchResultCategory<SongSearchItem>,
}

/// A successful response and its data.
#[derive(Debug, Clone, PartialEq)]
pub struct ApiResponse<T> {
    pub success: bool,
    pub data: T,
}

/// Why a request failed; each kind has its HTTP status.
#[derive(Debug, Clone, PartialEq)]
pub enum AppError {
    BadRequest(String),
    Unauthorized(String),
    NotFound(String),
    Internal(String),
}

/// The HTTP status of an error.
pub open spec fn status_of(e: AppError) -> u16 {
    match e {
        AppError::BadRequest(_) => 400,
        AppError::Unauthorized(_) => 401,
        AppError::NotFound(_) => 404,
        AppError::Internal(_) => 500,
    }
}

/// The message of an error.
pub open spec fn message_of(e: AppError) -> Seq<char> {
    match e {
        AppError::BadRequest(m) => m@,
        AppError::Unauthorized(m) => m@,
        AppError::NotFound(m) => m@,
        AppError::Internal(m) => m@,
    }
}

impl AppError {
    /// The HTTP status that answers this error.
    pub fn status_code(&self) -> (r: u16)
        ensures
            r == status_of(*self),
    {
        match self {
            AppError::BadRequest(_) => 400,
            AppError::Unauthorized(_) => 401,
            AppError::NotFound(_) => 404,
            AppError::Internal(_) => 500,
        }
    }

    /// The message that the error response carries.
    pub fn message(&self) -> (r: &String)
        ensures
            r@ == message_of(*self),
    {
        match self {
            AppError::BadRequest(m) => m,
            AppError::Unauthorized(m) => m,
            AppError::NotFound(m) => m,
            AppError::Internal(m) => m,
        }
    }
}

impl From<String> for AppError {
    /// A plain error text is an internal error.
    fn from(err: String) -> (r: AppError) {
        AppError::Internal(err)
    }
}

impl vstd::std_specs::convert::FromSpecImpl<String> for AppError {
    open spec fn obeys_from_spec() -> bool {
        true
    }

    open spec fn from_spec(err: String) -> AppError {
        AppError::Internal(err)
    }
}

} // verus!
