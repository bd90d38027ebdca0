//! The track catalog: its records, the shapes of its links, and what is made
//! of its answers.

use vstd::prelude::*;
use vstd::string::*;
use crate::links::LinkMap;
use crate::bindings::{is_match, regex_is_match};
use crate::token::{
    basic_request, client_credentials_request, is_success, status_is_success, AuthError,
    HttpOutcome, TokenRequest,
};
use crate::text::{
    after_last, contains_text, copy_opt, decimal, decimal_u32, has_prefix, join, joined, occurs_in,
    opt_view, take_after_last, views,
};

verus! {

/// One picture of an album cover.
#[derive(Debug)]
pub struct Image {
    pub url: String,
    pub height: u32,
    pub width: u32,
}

/// A picture of a cover as plain values.
pub struct ImageView {
    pub url: Seq<char>,
    pub height: u32,
    pub width: u32,
}

impl View for Image {
    type V = ImageView;

    open spec fn view(&self) -> ImageView {
        ImageView { url: self.url@, height: self.height, width: self.width }
    }
}

impl Clone for Image {
    fn clone(&self) -> (r: Image)
        ensures
            r@ == self@,
    {
        Image { url: self.url.clone(), height: self.height, width: self.width }
    }
}

/// A performer; its view is its name.
#[derive(Debug)]
pub struct Artist {
    pub name: String,
}

impl View for Artist {
    type V = Seq<char>;

    open spec fn view(&self) -> Seq<char> {
        self.name@
    }
}

impl Clone for Artist {
    fn clone(&self) -> (r: Artist)
        ensures
            r@ == self@,
    {
        Artist { name: self.name.clone() }
    }
}

/// The names of a list of artists.
pub open spec fn artist_names(artists: Seq<Artist>) -> Seq<Seq<char>> {
    Seq::new(artists.len(), |i: int| artists[i]@)
}

/// A copy of a list of artists.
pub fn copy_artists(artists: &Vec<Artist>) -> (r: Vec<Artist>)
    ensures
        artist_names(r@) == artist_names(artists@),
{
    let mut r: Vec<Artist> = Vec::new();
    let mut i: usize = 0;
    while i < artists.len()
        invariant
            i <= artists.len(),
            r.len() == i,
            forall|j: int| 0 <= j < i ==> (#[trigger] r@[j])@ == artists@[j]@,
        decreases artists.len() - i,
    {
        let artist = artists[i].clone();
        r.push(artist);
        i += 1;
    }
    assert(artist_names(r@) =~= artist_names(artists@));
    r
}

/// The views of a list of pictures.
pub open spec fn image_views(images: Seq<Image>) -> Seq<ImageView> {
    Seq::new(images.len(), |i: int| images[i]@)
}

/// A copy of a list of pictures.
pub fn copy_images(images: &Vec<Image>) -> (r: Vec<Image>)
    ensures
        image_views(r@) == image_views(images@),
{
    let mut r: Vec<Image> = Vec::new();
    let mut i: usize = 0;
    while i < images.len()
        invariant
            i <= images.len(),
            r.len() == i,
            forall|j: int| 0 <= j < i ==> (#[trigger] r@[j])@ == images@[j]@,
        decreases images.len() - i,
    {
        let image = images[i].clone();
        r.push(image);
        i += 1;
    }
    assert(image_views(r@) =~= image_views(images@));
    r
}

/// An album as the catalog describes it.
#[derive(Debug)]
pub struct Album {
    pub album_type: String,
    pub total_tracks: u32,
    pub external_urls: LinkMap,
    pub id: String,
    pub images: Vec<Image>,
    pub name: String,
    pub release_date: String,
    pub artists: Vec<Artist>,
}

/// An album as plain values.
pub struct AlbumView {
    pub album_type: Seq<char>,
    pub total_tracks: u32,
    pub external_urls: Map<Seq<char>, Seq<char>>,
    pub id: Seq<char>,
    pub images: Seq<ImageView>,
    pub name: Seq<char>,
    pub release_date: Seq<char>,
    pub artists: Seq<Seq<char>>,
}

impl View for Album {
    type V = AlbumView;

    open spec fn view(&self) -> AlbumView {
        AlbumView {
            album_type: self.album_type@,
            total_tracks: self.total_tracks,
            external_urls: self.external_urls@,
            id: self.id@,
            images: image_views(self.images@),
            name: self.name@,
            release_date: self.release_date@,
            artists: artist_names(self.artists@),
        }
    }
}

impl Clone for Album {
    fn clone(&self) -> (r: Album)
        ensures
            r@ == self@,
    {
        Album {
            album_type: self.album_type.clone(),
            total_tracks: self.total_tracks,
            external_urls: self.external_urls.duplicate(),
            id: self.id.clone(),
            images: copy_images(&self.images),
            name: self.name.clone(),
            release_date: self.release_date.clone(),
            artists: copy_artists(&self.artists),
        }
    }
}

/// A page of albums, with the number of albums that the catalog reports for
/// the whole search.
pub struct Albums {
    pub items: Vec<Album>,
    pub total: u32,
}

/// Why a record is not available.
#[derive(Debug)]
pub struct Restrictions {
    pub reason: String,
}

/// What the token endpoint answers.
pub struct AuthResponse {
    access_token: String,
}

impl AuthResponse {
    /// The token that the answer holds.
    pub closed spec fn token(&self) -> Seq<char> {
        self.access_token@
    }

    /// An answer that holds `access_token`.
    pub fn new(access_token: String) -> (r: AuthResponse)
        ensures
            r.token() == access_token@,
    {
        AuthResponse { access_token }
    }

    /// The token that the answer holds.
    pub fn access_token(&self) -> (t: &String)
        ensures
            t@ == self.token(),
    {
        &self.access_token
    }
}

/// A track as the catalog describes it.
pub struct Track {
    pub name: String,
    pub artists: Vec<Artist>,
    pub external_urls: LinkMap,
    pub album: Album,
}

/// A track as plain values.
pub struct TrackView {
    pub name: Seq<char>,
    pub artists: Seq<Seq<char>>,
    pub external_urls: Map<Seq<char>, Seq<char>>,
    pub album: AlbumView,
}

impl View for Track {
    type V = TrackView;

    open spec fn view(&self) -> TrackView {
        TrackView {
            name: self.name@,
            artists: artist_names(self.artists@),
            external_urls: self.external_urls@,
            album: self.album@,
        }
    }
}

impl Clone for Track {
    fn clone(&self) -> (r: Track)
        ensures
            r@ == self@,
    {
        Track {
            name: self.name.clone(),
            artists: copy_artists(&self.artists),
            external_urls: self.external_urls.duplicate(),
            album: self.album.clone(),
        }
    }
}

/// The views of a list of tracks.
pub open spec fn track_views(tracks: Seq<Track>) -> Seq<TrackView> {
    Seq::new(tracks.len(), |i: int| tracks[i]@)
}

/// A page of tracks, with the number of tracks that the catalog reports for
/// the whole search.
pub struct Tracks {
    pub items: Vec<Track>,
    pub total: u32,
}

/// What a keyword search answers.
pub struct SearchResult {
    pub tracks: Option<Tracks>,
    pub albums: Option<Albums>,
}

/// A track reduced to what a result row shows, with the address of its cover.
pub struct TrackWithCover {
    pub name: String,
    pub artists: Vec<Artist>,
    pub external_urls: LinkMap,
    pub album_name: String,
    pub cover_url: Option<String>,
}

/// A result row as plain values.
pub struct TrackWithCoverView {
    pub name: Seq<char>,
    pub artists: Seq<Seq<char>>,
    pub external_urls: Map<Seq<char>, Seq<char>>,
    pub album_name: Seq<char>,
    pub cover_url: Option<Seq<char>>,
}

impl View for TrackWithCover {
    type V = TrackWithCoverView;

    open spec fn view(&self) -> TrackWithCoverView {
        TrackWithCoverView {
            name: self.name@,
            artists: artist_names(self.artists@),
            external_urls: self.external_urls@,
            album_name: self.album_name@,
            cover_url: opt_view(self.cover_url),
        }
    }
}

/// The views of a list of result rows.
pub open spec fn cover_views(rows: Seq<TrackWithCover>) -> Seq<TrackWithCoverView> {
    Seq::new(rows.len(), |i: int| rows[i]@)
}

/// The three lines that describe a track.
#[derive(Debug)]
pub struct TrackInfo {
    pub name: String,
    pub artists: String,
    pub album: String,
}

/// The three lines that describe a track, as plain values.
pub struct TrackInfoView {
    pub name: Seq<char>,
    pub artists: Seq<char>,
    pub album: Seq<char>,
}

impl View for TrackInfo {
    type V = TrackInfoView;

    open spec fn view(&self) -> TrackInfoView {
        TrackInfoView { name: self.name@, artists: self.artists@, album: self.album@ }
    }
}

impl Clone for TrackInfo {
    fn clone(&self) -> (r: TrackInfo)
        ensures
            r@ == self@,
    {
        TrackInfo {
            name: self.name.clone(),
            artists: self.artists.clone(),
            album: self.album.clone(),
        }
    }
}

/// How far a piece of text is from being a link to the catalog.
#[derive(Clone, Copy, Debug, PartialEq, Eq, Structural)]
pub enum SpotifyUrlStatus {
    Valid,
    Incomplete,
    Invalid,
}

/// What the signed-in listener is playing.
#[derive(Debug)]
pub struct CurrentlyPlaying {
    pub track_info: TrackInfo,
    pub spotify_url: Option<String>,
}

/// What is playing, as plain values.
pub struct CurrentlyPlayingView {
    pub track_info: TrackInfoView,
    pub spotify_url: Option<Seq<char>>,
}

impl View for CurrentlyPlaying {
    type V = CurrentlyPlayingView;

    open spec fn view(&self) -> CurrentlyPlayingView {
        CurrentlyPlayingView {
            track_info: self.track_info@,
            spotify_url: opt_view(self.spotify_url),
        }
    }
}

impl Clone for CurrentlyPlaying {
    fn clone(&self) -> (r: CurrentlyPlaying)
        ensures
            r@ == self@,
    {
        CurrentlyPlaying {
            track_info: self.track_info.clone(),
            spotify_url: copy_opt(&self.spotify_url),
        }
    }
}

/// Where the catalog's API lives.
pub const SPOTIFY_API_BASE_URL: &'static str = "https://api.spotify.com/v1";

/// The shape of a complete link to a track, an album or a playlist.
pub const LINK_PATTERN: &'static str =
    r"^https?://open\.spotify\.com/(track|album|playlist)/([a-zA-Z0-9]+)(?:\?.*)?$";

/// How every link to the catalog begins.
pub const LINK_PREFIX: &'static str = "https://open.spotify.com/";

/// What can go wrong while talking to the catalog, each with its message.
#[derive(Debug)]
pub enum SpotifyError {
    AccessTokenError(String),
    RequestError(String),
    JsonError(String),
    IoError(String),
    UrlParseError(String),
    ApiError(String),
    AuthorizationError(String),
}

/// The names of `artists`, in order.
pub fn names_of(artists: &Vec<Artist>) -> (r: Vec<String>)
    ensures
        views(r) == artist_names(artists@),
{
    let mut r: Vec<String> = Vec::new();
    let mut i: usize = 0;
    while i < artists.len()
        invariant
            i <= artists.len(),
            r.len() == i,
            forall|j: int| 0 <= j < i ==> (#[trigger] r@[j])@ == artists@[j]@,
        decreases artists.len() - i,
    {
        r.push(artists[i].name.clone());
        i += 1;
    }
    assert(views(r) =~= artist_names(artists@));
    r
}

/// The names of `artists`, separated by a comma and a space.
pub fn artists_line(artists: &Vec<Artist>) -> (r: String)
    ensures
        r@ == joined(artist_names(artists@), ", "@),
{
    let names = names_of(artists);
    join(&names, ", ")
}

/// The link held under the name "spotify", if there is one.
pub open spec fn spotify_link(urls: Map<Seq<char>, Seq<char>>) -> Option<Seq<char>> {
    if urls.contains_key("spotify"@) {
        Some(urls["spotify"@])
    } else {
        None
    }
}

/// What a result row shows of `track`: its name, its artists on one line and
/// its album's name, and beside them the link to the track if it has one.
pub fn print_track_info_gui(track: &Track) -> (r: (TrackInfo, Option<String>))
    ensures
        r.0@.name == track.name@,
        r.0@.artists == joined(artist_names(track.artists@), ", "@),
        r.0@.album == track.album.name@,
        opt_view(r.1) == spotify_link(track.external_urls@),
{
    let spotify_url = match track.external_urls.get("spotify") {
        Some(link) => Some(link.clone()),
        None => None,
    };
    let track_info = TrackInfo {
        name: track.name.clone(),
        artists: artists_line(&track.artists),
        album: track.album.name.clone(),
    };
    (track_info, spotify_url)
}

/// The status of `url`, given whether it has the shape of a complete link.
pub open spec fn status_of(complete: bool, url: Seq<char>) -> SpotifyUrlStatus {
    if complete {
        SpotifyUrlStatus::Valid
    } else if LINK_PREFIX@.is_prefix_of(url) {
        SpotifyUrlStatus::Incomplete
    } else {
        SpotifyUrlStatus::Invalid
    }
}

/// Tells a complete link from one that only begins like a link and from text
/// that is no link at all.
pub fn classify_url(complete: bool, url: &str) -> (status: SpotifyUrlStatus)
    ensures
        status == status_of(complete, url@),
{
    if complete {
        SpotifyUrlStatus::Valid
    } else if has_prefix(url, LINK_PREFIX) {
        SpotifyUrlStatus::Incomplete
    } else {
        SpotifyUrlStatus::Invalid
    }
}

/// The status of `url`: `Valid` when the whole of it has the shape of
/// `LINK_PATTERN`, `Incomplete` when it only begins like a link, `Invalid`
/// otherwise. The answer is an error only if the pattern itself is refused.
pub fn is_valid_spotify_url(url: &str) -> (r: Result<SpotifyUrlStatus, SpotifyError>)
    ensures
        match regex_is_match(LINK_PATTERN@, url@) {
            Ok(complete) => r matches Ok(status) && status == status_of(complete, url@),
            Err(reason) => r matches Err(SpotifyError::UrlParseError(message)) && message@
                == reason,
        },
{
    match is_match(LINK_PATTERN, url) {
        Ok(complete) => Ok(classify_url(complete, url)),
        Err(reason) => Err(SpotifyError::UrlParseError(reason)),
    }
}

impl Clone for SpotifyError {
    fn clone(&self) -> (r: SpotifyError)
        ensures
            r.heading() == self.heading(),
            r.detail() == self.detail(),
    {
        match self {
            SpotifyError::AccessTokenError(m) => SpotifyError::AccessTokenError(m.clone()),
            SpotifyError::RequestError(m) => SpotifyError::RequestError(m.clone()),
            SpotifyError::JsonError(m) => SpotifyError::JsonError(m.clone()),
            SpotifyError::IoError(m) => SpotifyError::IoError(m.clone()),
            SpotifyError::UrlParseError(m) => SpotifyError::UrlParseError(m.clone()),
            SpotifyError::ApiError(m) => SpotifyError::ApiError(m.clone()),
            SpotifyError::AuthorizationError(m) => SpotifyError::AuthorizationError(m.clone()),
        }
    }
}

/// What can go wrong while talking to the catalog, as plain values.
pub enum SpotifyErrorView {
    AccessTokenError(Seq<char>),
    RequestError(Seq<char>),
    JsonError(Seq<char>),
    IoError(Seq<char>),
    UrlParseError(Seq<char>),
    ApiError(Seq<char>),
    AuthorizationError(Seq<char>),
}

impl SpotifyErrorView {
    /// The kind of failure, as the words that stand before the message.
    pub open spec fn heading(self) -> Seq<char> {
        match self {
            SpotifyErrorView::AccessTokenError(_) => "failed to get access token: "@,
            SpotifyErrorView::RequestError(_) => "request error: "@,
            SpotifyErrorView::JsonError(_) => "JSON parse error: "@,
            SpotifyErrorView::IoError(_) => "IO error: "@,
            SpotifyErrorView::UrlParseError(_) => "URL parse error: "@,
            SpotifyErrorView::ApiError(_) => "Spotify API error: "@,
            SpotifyErrorView::AuthorizationError(_) => "authorization error: "@,
        }
    }

    /// The message that the failure carries.
    pub open spec fn detail(self) -> Seq<char> {
        match self {
            SpotifyErrorView::AccessTokenError(m) => m,
            SpotifyErrorView::RequestError(m) => m,
            SpotifyErrorView::JsonError(m) => m,
            SpotifyErrorView::IoError(m) => m,
            SpotifyErrorView::UrlParseError(m) => m,
            SpotifyErrorView::ApiError(m) => m,
            SpotifyErrorView::AuthorizationError(m) => m,
        }
    }

    /// The failure in words: its kind, then its message.
    pub open spec fn words(self) -> Seq<char> {
        self.heading() + self.detail()
    }
}

impl View for SpotifyError {
    type V = SpotifyErrorView;

    open spec fn view(&self) -> SpotifyErrorView {
        match self {
            SpotifyError::AccessTokenError(m) => SpotifyErrorView::AccessTokenError(m@),
            SpotifyError::RequestError(m) => SpotifyErrorView::RequestError(m@),
            SpotifyError::JsonError(m) => SpotifyErrorView::JsonError(m@),
            SpotifyError::IoError(m) => SpotifyErrorView::IoError(m@),
            SpotifyError::UrlParseError(m) => SpotifyErrorView::UrlParseError(m@),
            SpotifyError::ApiError(m) => SpotifyErrorView::ApiError(m@),
            SpotifyError::AuthorizationError(m) => SpotifyErrorView::AuthorizationError(m@),
        }
    }
}

impl SpotifyError {
    /// The kind of failure, as the words that stand before the message.
    pub open spec fn heading(self) -> Seq<char> {
        self@.heading()
    }

    /// The message that the failure carries.
    pub open spec fn detail(self) -> Seq<char> {
        self@.detail()
    }

    /// The failure in words: its kind, then its message.
    pub fn describe(&self) -> (r: String)
        ensures
            r@ == self.heading() + self.detail(),
    {
        let (heading, detail) = match self {
            SpotifyError::AccessTokenError(m) => ("failed to get access token: ", m),
            SpotifyError::RequestError(m) => ("request error: ", m),
            SpotifyError::JsonError(m) => ("JSON parse error: ", m),
            SpotifyError::IoError(m) => ("IO error: ", m),
            SpotifyError::UrlParseError(m) => ("URL parse error: ", m),
            SpotifyError::ApiError(m) => ("Spotify API error: ", m),
            SpotifyError::AuthorizationError(m) => ("authorization error: ", m),
        };
        let mut r = String::from_str(heading);
        r.append(detail.as_str());
        r
    }
}

/// The number of pages of `size` items that `count` items fill: the least
/// number of pages that holds them all.
pub open spec fn page_count(count: nat, size: nat) -> nat {
    ((count + size - 1) / (size as int)) as nat
}

/// `page_count` is the least number of pages that holds every item, and no
/// item needs no page.
pub proof fn lemma_page_count(count: nat, size: nat)
    requires
        size > 0,
    ensures
        page_count(count, size) * size >= count,
        page_count(count, size) > 0 ==> (page_count(count, size) - 1) * size < count,
        page_count(0, size) == 0,
        page_count(count, size) <= count,
{
    let p = page_count(count, size);
    assert(p * size >= count && (p > 0 ==> (p - 1) * size < count) && p <= count) by (nonlinear_arith)
        requires
            size > 0,
            p == (count + size - 1) / (size as int),
    ;
    assert(page_count(0, size) == 0) by (nonlinear_arith)
        requires
            size > 0,
    ;
}

/// The number of pages of `limit` tracks that `total` tracks fill.
pub fn total_pages(total: u32, limit: u32) -> (pages: u32)
    requires
        limit > 0,
    ensures
        pages == page_count(total as nat, limit as nat),
{
    proof {
        lemma_page_count(total as nat, limit as nat);
    }
    let wide: u64 = (total as u64 + limit as u64 - 1) / (limit as u64);
    wide as u32
}

/// Where the page that begins at `offset` starts, counting pages of `limit`
/// tracks from 1: `None` for page 0 and for a start beyond what `u32` holds.
pub fn page_offset(page: u32, limit: u32) -> (offset: Option<u32>)
    ensures
        match offset {
            Some(o) => page >= 1 && o == (page - 1) * limit,
            None => page == 0 || (page - 1) * limit > u32::MAX,
        },
{
    if page == 0 {
        return None;
    }
    (page - 1).checked_mul(limit)
}

/// What a result row holds of a track.
pub open spec fn row_of(track: TrackView) -> TrackWithCoverView {
    TrackWithCoverView {
        name: track.name,
        artists: track.artists,
        external_urls: track.external_urls,
        album_name: track.album.name,
        cover_url: if track.album.images.len() > 0 {
            Some(track.album.images[0].url)
        } else {
            None
        },
    }
}

/// The result row of `track`: its cover is the first picture of its album.
pub fn with_cover(track: &Track) -> (row: TrackWithCover)
    ensures
        row@ == row_of(track@),
{
    let cover_url = if track.album.images.len() > 0 {
        Some(track.album.images[0].url.clone())
    } else {
        None
    };
    TrackWithCover {
        name: track.name.clone(),
        artists: copy_artists(&track.artists),
        external_urls: track.external_urls.duplicate(),
        album_name: track.album.name.clone(),
        cover_url,
    }
}

/// The rows and the number of pages of a search's answer: every track gives
/// its row, in order. An answer without a list of tracks is an empty answer.
pub fn tracks_with_cover(result: &SearchResult, limit: u32) -> (r: (Vec<TrackWithCover>, u32))
    requires
        limit > 0,
    ensures
        match result.tracks {
            Some(tracks) => cover_views(r.0@) == Seq::new(
                tracks.items@.len(),
                |i: int| row_of(tracks.items@[i]@),
            ) && r.1 == page_count(tracks.total as nat, limit as nat),
            None => r.0@.len() == 0 && r.1 == 0,
        },
{
    match &result.tracks {
        Some(tracks) => {
            let pages = total_pages(tracks.total, limit);
            let mut rows: Vec<TrackWithCover> = Vec::new();
            let mut i: usize = 0;
            while i < tracks.items.len()
                invariant
                    i <= tracks.items.len(),
                    rows.len() == i,
                    forall|j: int| 0 <= j < i ==> (#[trigger] rows@[j])@ == row_of(tracks.items@[j]@),
                decreases tracks.items.len() - i,
            {
                rows.push(with_cover(&tracks.items[i]));
                i += 1;
            }
            assert(cover_views(rows@) =~= Seq::new(
                tracks.items@.len(),
                |i: int| row_of(tracks.items@[i]@),
            ));
            (rows, pages)
        },
        None => (Vec::new(), 0),
    }
}

/// How the report of an answer that is no success begins.
pub const REJECTED: &'static str = "the catalog answered with status ";

/// The report of an answer whose status is no success: the status, then the
/// body of the answer.
pub open spec fn rejection(status: u16, body: Seq<char>) -> Seq<char> {
    REJECTED@ + decimal(status as nat) + ": "@ + body
}

/// The report of an answer whose status is no success.
pub fn rejection_message(status: u16, body: &str) -> (m: String)
    ensures
        m@ == rejection(status, body@),
{
    let mut m = String::from_str(REJECTED);
    m.append(decimal_u32(status as u32).as_str());
    m.append(": ");
    m.append(body);
    m
}

/// The body of the catalog's answer to a search or a lookup. A request that
/// did not get through is a `RequestError` with the cause; an answer whose
/// status is no success is an `ApiError` with the status and the body.
pub fn search_answer(outcome: HttpOutcome) -> (r: Result<String, SpotifyError>)
    ensures
        match outcome {
            HttpOutcome::Failed(cause) => r matches Err(SpotifyError::RequestError(m)) && m@
                == cause@,
            HttpOutcome::Answered { status, body } => if is_success(status) {
                r matches Ok(b) && b@ == body@
            } else {
                r matches Err(SpotifyError::ApiError(m)) && m@ == rejection(status, body@)
            },
        },
{
    match outcome {
        HttpOutcome::Failed(cause) => Err(SpotifyError::RequestError(cause)),
        HttpOutcome::Answered { status, body } => {
            if status_is_success(status) {
                Ok(body)
            } else {
                Err(SpotifyError::ApiError(rejection_message(status, body.as_str())))
            }
        },
    }
}

/// Whether any row lacks a cover.
pub fn any_cover_missing(rows: &Vec<TrackWithCover>) -> (missing: bool)
    ensures
        missing == exists|i: int| 0 <= i < rows.len() && (#[trigger] rows@[i]).cover_url is None,
{
    let mut i: usize = 0;
    while i < rows.len()
        invariant
            i <= rows.len(),
            forall|j: int| 0 <= j < i ==> (#[trigger] rows@[j]).cover_url is Some,
        decreases rows.len() - i,
    {
        if rows[i].cover_url.is_none() {
            return true;
        }
        i += 1;
    }
    false
}

/// The address of a keyword search for tracks: the query as it was typed,
/// the number of tracks to a page, and the number of tracks to skip.
pub open spec fn search_address(query: Seq<char>, limit: u32, offset: u32) -> Seq<char> {
    SPOTIFY_API_BASE_URL@ + "/search?q="@ + query + "&type=track&limit="@ + decimal(limit as nat)
        + "&offset="@ + decimal(offset as nat)
}

/// The address of the record of the track `track_id`.
pub open spec fn track_address(track_id: Seq<char>) -> Seq<char> {
    SPOTIFY_API_BASE_URL@ + "/tracks/"@ + track_id
}

/// The address of a keyword search for tracks.
pub fn search_url(query: &str, limit: u32, offset: u32) -> (url: String)
    ensures
        url@ == search_address(query@, limit, offset),
{
    let mut url = String::from_str(SPOTIFY_API_BASE_URL);
    url.append("/search?q=");
    url.append(query);
    url.append("&type=track&limit=");
    url.append(decimal_u32(limit).as_str());
    url.append("&offset=");
    url.append(decimal_u32(offset).as_str());
    url
}

/// The address of the record of one track.
pub fn track_url(track_id: &str) -> (url: String)
    ensures
        url@ == track_address(track_id@),
{
    let mut url = String::from_str(SPOTIFY_API_BASE_URL);
    url.append("/tracks/");
    url.append(track_id);
    url
}

/// Why a link cannot be opened.
#[derive(Clone, Copy, Debug, PartialEq, Eq, Structural)]
pub enum OpenUrlError {
    /// The link is empty.
    EmptyUrl,
    /// Nothing stands behind the last slash of the link.
    InvalidFormat,
}

/// The two addresses under which a track can be opened: in the player and on
/// the web.
pub struct OpenTargets {
    pub spotify_uri: String,
    pub web_url: String,
}

/// The addresses under which the track of `url` is opened. The track is named
/// by what stands behind the last slash of `url`.
pub fn open_targets(url: &str) -> (r: Result<OpenTargets, OpenUrlError>)
    ensures
        url@.len() == 0 ==> r == Err::<OpenTargets, OpenUrlError>(OpenUrlError::EmptyUrl),
        url@.len() > 0 && after_last(url@, '/').len() == 0 ==> r == Err::<
            OpenTargets,
            OpenUrlError,
        >(OpenUrlError::InvalidFormat),
        url@.len() > 0 && after_last(url@, '/').len() > 0 ==> (r matches Ok(t) && t.spotify_uri@
            == "spotify:track:"@ + after_last(url@, '/') && t.web_url@
            == "https://open.spotify.com/track/"@ + after_last(url@, '/')),
{
    if url.is_empty() {
        return Err(OpenUrlError::EmptyUrl);
    }
    let track_id = take_after_last(url, '/');
    if track_id.as_str().is_empty() {
        return Err(OpenUrlError::InvalidFormat);
    }
    let mut spotify_uri = String::from_str("spotify:track:");
    spotify_uri.append(track_id.as_str());
    let mut web_url = String::from_str("https://open.spotify.com/track/");
    web_url.append(track_id.as_str());
    Ok(OpenTargets { spotify_uri, web_url })
}

/// Whether the shell reports that it launched the player: it does so with a
/// code above 32.
pub fn shell_launched(code: usize) -> (launched: bool)
    ensures
        launched == (code > 32),
{
    code > 32
}

/// What is being played, from the record of the track.
pub fn now_playing(track: &Track) -> (r: CurrentlyPlaying)
    ensures
        r@.track_info.name == track.name@,
        r@.track_info.artists == joined(artist_names(track.artists@), ", "@),
        r@.track_info.album == track.album.name@,
        r@.spotify_url == spotify_link(track.external_urls@),
{
    let (track_info, spotify_url) = print_track_info_gui(track);
    CurrentlyPlaying { track_info, spotify_url }
}

/// The view of what may be playing.
pub open spec fn playing_view(p: Option<CurrentlyPlaying>) -> Option<CurrentlyPlayingView> {
    match p {
        Some(c) => Some(c@),
        None => None,
    }
}

/// What is said when the service no longer accepts the token.
pub const TOKEN_INVALID: &'static str = "the token is invalid: authorize again";

/// The mark by which the service's refusal of a token is known.
pub const INVALID_TOKEN_MARK: &'static str = "InvalidToken";

/// Takes the outcome of asking what is playing. An answer replaces what was
/// held. A failure leaves it as it was, and is handed on, in the words of
/// `TOKEN_INVALID` when its message bears the mark of a refused token.
pub fn apply_playing_update(
    current: &mut Option<CurrentlyPlaying>,
    outcome: Result<Option<CurrentlyPlaying>, String>,
) -> (r: Result<(), String>)
    ensures
        match outcome {
            Ok(playing) => r is Ok && playing_view(*final(current)) == playing_view(playing),
            Err(message) => *final(current) == *old(current) && (r matches Err(said) && said@
                == (if occurs_in(INVALID_TOKEN_MARK@, message@) {
                TOKEN_INVALID@
            } else {
                message@
            })),
        },
{
    match outcome {
        Ok(playing) => {
            *current = playing;
            Ok(())
        },
        Err(message) => {
            if contains_text(message.as_str(), INVALID_TOKEN_MARK) {
                Err(String::from_str(TOKEN_INVALID))
            } else {
                Err(message)
            }
        },
    }
}

/// How far an authorization attempt has come.
#[derive(Debug)]
pub enum AuthStatus {
    NotStarted,
    WaitingForBrowser,
    Processing,
    TokenObtained,
    Completed,
    /// The attempt failed; with the reason in words.
    Failed(String),
}

/// The status of an authorization attempt, as plain values.
pub enum AuthStatusView {
    NotStarted,
    WaitingForBrowser,
    Processing,
    TokenObtained,
    Completed,
    Failed(Seq<char>),
}

impl View for AuthStatus {
    type V = AuthStatusView;

    open spec fn view(&self) -> AuthStatusView {
        match self {
            AuthStatus::NotStarted => AuthStatusView::NotStarted,
            AuthStatus::WaitingForBrowser => AuthStatusView::WaitingForBrowser,
            AuthStatus::Processing => AuthStatusView::Processing,
            AuthStatus::TokenObtained => AuthStatusView::TokenObtained,
            AuthStatus::Completed => AuthStatusView::Completed,
            AuthStatus::Failed(reason) => AuthStatusView::Failed(reason@),
        }
    }
}

impl Clone for AuthStatus {
    fn clone(&self) -> (r: AuthStatus)
        ensures
            r@ == self@,
    {
        match self {
            AuthStatus::NotStarted => AuthStatus::NotStarted,
            AuthStatus::WaitingForBrowser => AuthStatus::WaitingForBrowser,
            AuthStatus::Processing => AuthStatus::Processing,
            AuthStatus::TokenObtained => AuthStatus::TokenObtained,
            AuthStatus::Completed => AuthStatus::Completed,
            AuthStatus::Failed(reason) => AuthStatus::Failed(reason.clone()),
        }
    }
}

impl AuthStatus {
    /// Whether the attempt has ended, well or badly.
    pub open spec fn terminal(self) -> bool {
        self is Completed || self is Failed
    }

    /// Whether the attempt has ended, well or badly.
    pub fn is_terminal(&self) -> (b: bool)
        ensures
            b == self.terminal(),
    {
        match self {
            AuthStatus::Completed => true,
            AuthStatus::Failed(_) => true,
            _ => false,
        }
    }
}

/// Where the catalog issues tokens.
pub const SPOTIFY_AUTH_URL: &'static str = "https://accounts.spotify.com/api/token";

/// The request for a client-credentials token of the track catalog.
pub fn spotify_token_request(client_id: &str, client_secret: &str) -> (r: TokenRequest)
    ensures
        r@ == basic_request(SPOTIFY_AUTH_URL@, client_id@, client_secret@),
{
    client_credentials_request(SPOTIFY_AUTH_URL, client_id, client_secret)
}

/// The failure that the catalog reports for a token that was not obtained.
/// The kinds stay apart: a refusal is an `AccessTokenError` with its status
/// and its body, a request that did not get through is a `RequestError`
/// with the cause, an answer that cannot be read is a `JsonError` with the
/// cause, and credentials that cannot be had are an `IoError` with the
/// cause.
pub fn spotify_error_from(error: AuthError) -> (r: SpotifyError)
    ensures
        match error {
            AuthError::TokenRejected(status, body) => r matches SpotifyError::AccessTokenError(m)
                && m@ == rejection(status, body@),
            AuthError::Transport(cause) => r matches SpotifyError::RequestError(m) && m@ == cause@,
            AuthError::Decode(cause) => r matches SpotifyError::JsonError(m) && m@ == cause@,
            AuthError::Config(cause) => r matches SpotifyError::IoError(m) && m@ == cause@,
        },
{
    match error {
        AuthError::TokenRejected(status, body) => SpotifyError::AccessTokenError(
            rejection_message(status, body.as_str()),
        ),
        AuthError::Transport(cause) => SpotifyError::RequestError(cause),
        AuthError::Decode(cause) => SpotifyError::JsonError(cause),
        AuthError::Config(cause) => SpotifyError::IoError(cause),
    }
}

/// Whether the player is registered for its links, from the code with which
/// the registry answered: 0 says that it is, 2 that it is not, and every
/// other code is a failure of the question itself.
pub fn protocol_associated(code: i32) -> (r: Option<bool>)
    ensures
        code == 0 ==> r == Some(true),
        code == 2 ==> r == Some(false),
        code != 0 && code != 2 ==> r is None,
{
    if code == 0 {
        Some(true)
    } else if code == 2 {
        Some(false)
    } else {
        None
    }
}

} // verus!
