//! One search across both catalogs: the order of its steps, what each answer
//! leads to, and what is published for the window to show.

use vstd::prelude::*;
use vstd::string::*;
use crate::bindings::regex_captures;
use crate::images::{request_views, ImageEntryView, ImageRequest, IndexCache, RequestedView};
use crate::links::LinkMap;
use crate::osu::{
    beatmapset_views, collect_cover_requests, cover_requests, Beatmapset, BeatmapsetView,
    OsuError, OsuErrorView, OSU_SEARCH_URL,
};
use crate::spotify::{
    artist_names, artists_line, copy_artists, cover_views, search_address, search_url,
    track_address, track_url, track_views, Album, AlbumView, Image, ImageView, SpotifyError,
    SpotifyErrorView, Track, TrackView, TrackWithCover, TrackWithCoverView,
};
use crate::spotify_search::{direct_link, is_valid_spotify_url, DIRECT_LINK_PATTERN};
use crate::text::{
    after_last, before_first, copy_opt, joined, opt_view, take_after_last, take_before_first, views,
};
use crate::token::{bearer, AuthError, AuthErrorView, Provider, Token, TokenView};

verus! {

/// How many tracks a keyword search asks for.
pub const PAGE_SIZE: u32 = 10;

/// What the window shows when no token of the track catalog was obtained.
pub const PRIMARY_TOKEN_FAILED: &'static str = "Spotify 錯誤：無法獲取 token";

/// What the window shows when no token of the beatmap catalog was obtained.
pub const SECONDARY_TOKEN_FAILED: &'static str = "Osu 錯誤：無法獲取 token";

/// What the window shows when the search for tracks failed.
pub const PRIMARY_SEARCH_FAILED: &'static str = "Spotify 錯誤：搜索失敗";

/// What the window shows when the search for beatmap sets failed.
pub const SECONDARY_SEARCH_FAILED: &'static str = "Osu 錯誤：搜索失敗";

/// The identifier of the track that a direct link names: what stands behind
/// the last slash, up to a question mark.
pub open spec fn track_id_of(query: Seq<char>) -> Seq<char> {
    before_first(after_last(query, '/'), '?')
}

/// The identifier of the track that the direct link `query` names.
pub fn track_id(query: &str) -> (id: String)
    ensures
        id@ == track_id_of(query@),
{
    let tail = take_after_last(query, '/');
    take_before_first(tail.as_str(), '?')
}

/// The query that is put to the beatmap catalog. For a direct link that
/// brought at least one track it is the artists of the first track, joined
/// by a comma and a space, then a space and the track's name. In every
/// other case it is the query as it was typed.
pub open spec fn derived_query(query: Seq<char>, direct: bool, rows: Seq<TrackWithCoverView>) -> Seq<
    char,
> {
    if direct && rows.len() > 0 {
        joined(rows[0].artists, ", "@) + " "@ + rows[0].name
    } else {
        query
    }
}

/// The query that is put to the beatmap catalog, from the query as typed,
/// whether it is a direct link, and what the track catalog answered.
pub fn derive_secondary_query(query: &str, direct: bool, rows: &Vec<TrackWithCover>) -> (derived:
    String)
    ensures
        derived@ == derived_query(query@, direct, cover_views(rows@)),
        !direct ==> derived@ == query@,
        rows.len() == 0 ==> derived@ == query@,
        direct && rows.len() > 0 ==> derived@ == joined(artist_names(rows@[0].artists@), ", "@)
            + " "@ + rows@[0].name@,
{
    if direct && rows.len() > 0 {
        let mut derived = artists_line(&rows[0].artists);
        derived.append(" ");
        derived.append(rows[0].name.as_str());
        derived
    } else {
        String::from_str(query)
    }
}

/// A query that is no direct link is put to the beatmap catalog as it was
/// typed, whatever the track catalog answered.
pub proof fn lemma_keywords_pass_unchanged(query: Seq<char>, rows: Seq<TrackWithCoverView>)
    ensures
        derived_query(query, false, rows) == query,
{
}

/// A direct link that brought at least one track is put to the beatmap
/// catalog as the artists of the first track, joined by a comma and a space,
/// then a space and the track's name.
pub proof fn lemma_direct_link_derives(query: Seq<char>, rows: Seq<TrackWithCoverView>)
    requires
        rows.len() >= 1,
    ensures
        derived_query(query, true, rows) == joined(rows[0].artists, ", "@) + " "@ + rows[0].name,
{
}

/// The album that is published for a result row: its name, and its cover as
/// its only picture, of unknown size.
pub open spec fn album_of_row(row: TrackWithCoverView) -> AlbumView {
    AlbumView {
        album_type: Seq::empty(),
        total_tracks: 0,
        external_urls: Map::empty(),
        id: Seq::empty(),
        images: match row.cover_url {
            Some(url) => seq![ImageView { url, height: 0, width: 0 }],
            None => Seq::empty(),
        },
        name: row.album_name,
        release_date: Seq::empty(),
        artists: Seq::empty(),
    }
}

/// The track that is published for a result row.
pub open spec fn track_of_row(row: TrackWithCoverView) -> TrackView {
    TrackView {
        name: row.name,
        artists: row.artists,
        external_urls: row.external_urls,
        album: album_of_row(row),
    }
}

/// The tracks that are published for a list of result rows, in order.
pub open spec fn tracks_of_rows(rows: Seq<TrackWithCoverView>) -> Seq<TrackView> {
    Seq::new(rows.len(), |i: int| track_of_row(rows[i]))
}

/// The track that is published for `row`.
pub fn published_track(row: &TrackWithCover) -> (track: Track)
    ensures
        track@ == track_of_row(row@),
{
    let mut images: Vec<Image> = Vec::new();
    match &row.cover_url {
        Some(url) => {
            images.push(Image { url: url.clone(), height: 0, width: 0 });
        },
        None => {},
    }
    let artists: Vec<crate::spotify::Artist> = Vec::new();
    let album = Album {
        album_type: String::new(),
        total_tracks: 0,
        external_urls: LinkMap::new(),
        id: String::new(),
        images,
        name: row.album_name.clone(),
        release_date: String::new(),
        artists,
    };
    assert(album@.images =~= album_of_row(row@).images);
    assert(album@.artists =~= Seq::<Seq<char>>::empty());
    Track {
        name: row.name.clone(),
        artists: copy_artists(&row.artists),
        external_urls: row.external_urls.duplicate(),
        album,
    }
}

/// The tracks that are published for `rows`, in order.
pub fn published_tracks(rows: &Vec<TrackWithCover>) -> (tracks: Vec<Track>)
    ensures
        track_views(tracks@) == tracks_of_rows(cover_views(rows@)),
{
    let mut tracks: Vec<Track> = Vec::new();
    let mut i: usize = 0;
    while i < rows.len()
        invariant
            i <= rows.len(),
            tracks.len() == i,
            forall|j: int| 0 <= j < i ==> (#[trigger] tracks@[j])@ == track_of_row(rows@[j]@),
        decreases rows.len() - i,
    {
        tracks.push(published_track(&rows[i]));
        i += 1;
    }
    assert(track_views(tracks@) =~= tracks_of_rows(cover_views(rows@)));
    tracks
}

/// The steps of one search, each named by what is awaited.
#[derive(Clone, Copy, Debug, PartialEq, Eq, Structural)]
pub enum SearchStage {
    /// No search has been asked for.
    Idle,
    /// The token of the track catalog is awaited.
    PrimaryToken,
    /// The token of the beatmap catalog is awaited.
    SecondaryToken,
    /// The answer of the track catalog is awaited.
    Primary,
    /// The answer of the beatmap catalog is awaited.
    Secondary,
    /// The search has ended.
    Done,
}

/// What the outside world reports back after an action.
pub enum SearchEvent {
    PrimaryToken(Result<Token, AuthError>),
    SecondaryToken(Result<Token, AuthError>),
    PrimaryFound(Result<Vec<TrackWithCover>, SpotifyError>),
    SecondaryFound(Result<Vec<Beatmapset>, OsuError>),
}

/// What is to be done next.
pub enum SearchAction {
    /// Nothing: the event was not awaited.
    Idle,
    /// Get a client-credentials token of the track catalog.
    FetchPrimaryToken,
    /// Get a client-credentials token of the beatmap catalog.
    FetchSecondaryToken,
    /// Get the record of one track.
    LookupTrack { url: String, authorization: String },
    /// Get the first page of a keyword search for tracks.
    SearchTracks { url: String, authorization: String },
    /// Search the beatmap catalog for `query`.
    SearchBeatmaps { url: String, query: String, authorization: String },
    /// The search has ended; load these covers in the background.
    Prefetch(Vec<ImageRequest>),
    /// The search has ended.
    Finish,
}

/// A report of the outside world, as plain values.
pub enum SearchEventView {
    PrimaryToken(Result<TokenView, AuthErrorView>),
    SecondaryToken(Result<TokenView, AuthErrorView>),
    PrimaryFound(Result<Seq<TrackWithCoverView>, SpotifyErrorView>),
    SecondaryFound(Result<Seq<BeatmapsetView>, OsuErrorView>),
}

impl View for SearchEvent {
    type V = SearchEventView;

    open spec fn view(&self) -> SearchEventView {
        match self {
            SearchEvent::PrimaryToken(Ok(token)) => SearchEventView::PrimaryToken(Ok(token@)),
            SearchEvent::PrimaryToken(Err(error)) => SearchEventView::PrimaryToken(Err(error@)),
            SearchEvent::SecondaryToken(Ok(token)) => SearchEventView::SecondaryToken(Ok(token@)),
            SearchEvent::SecondaryToken(Err(error)) => SearchEventView::SecondaryToken(
                Err(error@),
            ),
            SearchEvent::PrimaryFound(Ok(rows)) => SearchEventView::PrimaryFound(
                Ok(cover_views(rows@)),
            ),
            SearchEvent::PrimaryFound(Err(error)) => SearchEventView::PrimaryFound(Err(error@)),
            SearchEvent::SecondaryFound(Ok(sets)) => SearchEventView::SecondaryFound(
                Ok(beatmapset_views(sets@)),
            ),
            SearchEvent::SecondaryFound(Err(error)) => SearchEventView::SecondaryFound(
                Err(error@),
            ),
        }
    }
}

/// What is to be done next, as plain values.
pub enum SearchActionView {
    Idle,
    FetchPrimaryToken,
    FetchSecondaryToken,
    LookupTrack { url: Seq<char>, authorization: Seq<char> },
    SearchTracks { url: Seq<char>, authorization: Seq<char> },
    SearchBeatmaps { url: Seq<char>, query: Seq<char>, authorization: Seq<char> },
    Prefetch(Seq<RequestedView>),
    Finish,
}

impl View for SearchAction {
    type V = SearchActionView;

    open spec fn view(&self) -> SearchActionView {
        match self {
            SearchAction::Idle => SearchActionView::Idle,
            SearchAction::FetchPrimaryToken => SearchActionView::FetchPrimaryToken,
            SearchAction::FetchSecondaryToken => SearchActionView::FetchSecondaryToken,
            SearchAction::LookupTrack { url, authorization } => SearchActionView::LookupTrack {
                url: url@,
                authorization: authorization@,
            },
            SearchAction::SearchTracks { url, authorization } => SearchActionView::SearchTracks {
                url: url@,
                authorization: authorization@,
            },
            SearchAction::SearchBeatmaps {
                url,
                query,
                authorization,
            } => SearchActionView::SearchBeatmaps {
                url: url@,
                query: query@,
                authorization: authorization@,
            },
            SearchAction::Prefetch(requests) => SearchActionView::Prefetch(
                request_views(requests@),
            ),
            SearchAction::Finish => SearchActionView::Finish,
        }
    }
}

/// A search and what it has published, as plain values.
pub struct SearchView {
    /// The query as it was typed.
    pub query: Seq<char>,
    /// Whether the query is a direct link to one record.
    pub direct: bool,
    pub stage: SearchStage,
    /// The header that carries the token of the track catalog.
    pub primary_auth: Option<Seq<char>>,
    /// The header that carries the token of the beatmap catalog.
    pub secondary_auth: Option<Seq<char>>,
    /// The tracks that are shown.
    pub tracks: Seq<TrackView>,
    /// The beatmap sets that are shown.
    pub beatmapsets: Seq<BeatmapsetView>,
    /// The message that is shown; empty when nothing went wrong.
    pub error: Seq<char>,
    /// Whether a search is under way.
    pub searching: bool,
    /// Whether something new is to be drawn.
    pub repaint: bool,
    /// The failures in detail, one line for each, oldest first, for the log.
    pub log: Seq<Seq<char>>,
}

/// What is written to the log of a token that another catalog issued.
pub const WRONG_ISSUER: &'static str = "the token was issued by another catalog";

/// The header under which the token that came may be sent to `provider`, or
/// the line that says in detail why there is none: the failure in words, or
/// that the token belongs to another catalog.
pub open spec fn accepted_auth(token: Result<TokenView, AuthErrorView>, provider: Provider) -> Result<
    Seq<char>,
    Seq<char>,
> {
    match token {
        Ok(t) => if t.issuer == provider {
            Ok(bearer(t.text))
        } else {
            Err(WRONG_ISSUER@)
        },
        Err(error) => Err(error.words()),
    }
}

impl SearchView {
    /// What holds of every search: it is under way exactly between its
    /// beginning and its end, and it holds the token of a catalog while it
    /// awaits that catalog's answer.
    pub open spec fn consistent(self) -> bool {
        &&& self.searching <==> !(self.stage is Idle || self.stage is Done)
        &&& (self.stage is SecondaryToken || self.stage is Primary) ==> self.primary_auth is Some
        &&& self.stage is Secondary ==> self.secondary_auth is Some
    }

    /// The search with one more line in its log.
    pub open spec fn noted(self, line: Seq<char>) -> SearchView {
        SearchView { log: self.log.push(line), ..self }
    }

    /// The search after it has ended: nothing is under way, and the window
    /// is to be drawn again.
    pub open spec fn ended(self) -> SearchView {
        SearchView { stage: SearchStage::Done, searching: false, repaint: true, ..self }
    }

    /// The search when it begins: the message is cleared, what was shown
    /// stays, and the token of the track catalog is asked for.
    pub open spec fn begun(self, query: Seq<char>, direct: bool) -> (SearchView, SearchActionView) {
        (
            SearchView {
                query,
                direct,
                stage: SearchStage::PrimaryToken,
                primary_auth: None,
                secondary_auth: None,
                error: Seq::empty(),
                searching: true,
                ..self
            },
            SearchActionView::FetchPrimaryToken,
        )
    }

    /// What is asked of the track catalog once the tokens are settled: the
    /// record that a direct link names, or the first page of a keyword
    /// search; an empty query asks nothing and finds nothing.
    pub open spec fn planned(self) -> (SearchView, SearchActionView) {
        let waiting = SearchView { stage: SearchStage::Primary, ..self };
        if self.direct {
            (
                waiting,
                SearchActionView::LookupTrack {
                    url: track_address(track_id_of(self.query)),
                    authorization: self.primary_auth->0,
                },
            )
        } else if self.query.len() > 0 {
            (
                waiting,
                SearchActionView::SearchTracks {
                    url: search_address(self.query, PAGE_SIZE, 0),
                    authorization: self.primary_auth->0,
                },
            )
        } else {
            waiting.found(Some(Seq::empty()))
        }
    }

    /// The search once the track catalog has answered. Its tracks are
    /// published at once; a failure leaves a message instead. Then the
    /// derived query is put to the beatmap catalog, unless its token is
    /// missing: then the search ends here.
    pub open spec fn found(self, rows: Option<Seq<TrackWithCoverView>>) -> (
        SearchView,
        SearchActionView,
    ) {
        let published = match rows {
            Some(r) => SearchView { tracks: tracks_of_rows(r), ..self },
            None => SearchView { error: PRIMARY_SEARCH_FAILED@, ..self },
        };
        let derived = match rows {
            Some(r) => derived_query(self.query, self.direct, r),
            None => self.query,
        };
        match self.secondary_auth {
            Some(authorization) => (
                SearchView { stage: SearchStage::Secondary, ..published },
                SearchActionView::SearchBeatmaps {
                    url: OSU_SEARCH_URL@,
                    query: derived,
                    authorization,
                },
            ),
            None => (published.ended(), SearchActionView::Finish),
        }
    }

    /// The search after `event`, and what is to be done next.
    /// - Without a token of the track catalog the whole search ends, and
    ///   nothing new is published but the message.
    /// - Without a token of the beatmap catalog the message is left and the
    ///   track catalog is still asked.
    /// - The answer of the beatmap catalog ends the search: its sets are
    ///   published and their covers are to be loaded; a failure leaves a
    ///   message.
    /// Every failure leaves its short message for the window and its words
    /// in detail as a line of the log. An event that the stage does not
    /// await changes nothing.
    pub open spec fn next(self, event: SearchEventView) -> (SearchView, SearchActionView) {
        match (self.stage, event) {
            (SearchStage::PrimaryToken, SearchEventView::PrimaryToken(token)) => {
                match accepted_auth(token, Provider::Spotify) {
                    Ok(authorization) => (
                        SearchView {
                            stage: SearchStage::SecondaryToken,
                            primary_auth: Some(authorization),
                            ..self
                        },
                        SearchActionView::FetchSecondaryToken,
                    ),
                    Err(line) => (
                        SearchView { error: PRIMARY_TOKEN_FAILED@, ..self }.noted(line).ended(),
                        SearchActionView::Finish,
                    ),
                }
            },
            (SearchStage::SecondaryToken, SearchEventView::SecondaryToken(token)) => {
                match accepted_auth(token, Provider::Osu) {
                    Ok(authorization) => SearchView {
                        secondary_auth: Some(authorization),
                        ..self
                    }.planned(),
                    Err(line) => SearchView {
                        error: SECONDARY_TOKEN_FAILED@,
                        secondary_auth: None,
                        ..self
                    }.noted(line).planned(),
                }
            },
            (SearchStage::Primary, SearchEventView::PrimaryFound(Ok(rows))) => self.found(
                Some(rows),
            ),
            (SearchStage::Primary, SearchEventView::PrimaryFound(Err(error))) => self.noted(
                error.words(),
            ).found(None),
            (SearchStage::Secondary, SearchEventView::SecondaryFound(Ok(sets))) => (
                SearchView { beatmapsets: sets, ..self }.ended(),
                SearchActionView::Prefetch(cover_requests(sets)),
            ),
            (SearchStage::Secondary, SearchEventView::SecondaryFound(Err(error))) => (
                SearchView { error: SECONDARY_SEARCH_FAILED@, ..self }.noted(
                    error.words(),
                ).ended(),
                SearchActionView::Finish,
            ),
            _ => (self, SearchActionView::Idle),
        }
    }
}

/// Every step keeps a search consistent.
pub proof fn lemma_search_consistent(s: SearchView, event: SearchEventView)
    requires
        s.consistent(),
    ensures
        s.next(event).0.consistent(),
{
}

/// Beginning makes a search consistent, whatever it was before.
pub proof fn lemma_search_begun(s: SearchView, query: Seq<char>, direct: bool)
    ensures
        s.begun(query, direct).0.consistent(),
        s.begun(query, direct).0.searching,
{
}

/// Without a token of the track catalog the search ends at once: nothing is
/// asked of either catalog, no result is published, the message is left, the
/// failure is written to the log in its own words, and the window is told
/// that the search is over.
pub proof fn lemma_primary_token_failure_aborts(s: SearchView, error: AuthErrorView)
    requires
        s.stage is PrimaryToken,
    ensures
        s.next(SearchEventView::PrimaryToken(Err(error))).1 is Finish,
        s.next(SearchEventView::PrimaryToken(Err(error))).0.tracks == s.tracks,
        s.next(SearchEventView::PrimaryToken(Err(error))).0.beatmapsets == s.beatmapsets,
        s.next(SearchEventView::PrimaryToken(Err(error))).0.error == PRIMARY_TOKEN_FAILED@,
        s.next(SearchEventView::PrimaryToken(Err(error))).0.log == s.log.push(error.words()),
        !s.next(SearchEventView::PrimaryToken(Err(error))).0.searching,
        s.next(SearchEventView::PrimaryToken(Err(error))).0.repaint,
{
}

/// Without a token of the beatmap catalog the track catalog is asked all
/// the same, and its answer is published; the beatmap catalog is not asked.
pub proof fn lemma_secondary_token_failure_spares_primary(
    s: SearchView,
    error: AuthErrorView,
    rows: Seq<TrackWithCoverView>,
)
    requires
        s.consistent(),
        s.stage is SecondaryToken,
    ensures
        ({
            let asked = s.next(SearchEventView::SecondaryToken(Err(error)));
            let answered = asked.0.next(SearchEventView::PrimaryFound(Ok(rows)));
            &&& s.direct ==> asked.1 is LookupTrack
            &&& !s.direct && s.query.len() > 0 ==> asked.1 is SearchTracks
            &&& asked.0.stage is Primary ==> answered.0.tracks == tracks_of_rows(rows)
                && answered.1 is Finish && !answered.0.searching
            &&& !(asked.1 is SearchBeatmaps) && !(answered.1 is SearchBeatmaps)
        }),
{
}

/// The query that is put to the beatmap catalog is the derived one: the
/// query as typed for keywords and for a failed or empty answer, and the
/// artists and name of the first track for a direct link that brought one.
pub proof fn lemma_secondary_asks_derived(
    s: SearchView,
    rows: Result<Seq<TrackWithCoverView>, SpotifyErrorView>,
)
    requires
        s.stage is Primary,
        s.secondary_auth is Some,
    ensures
        s.next(SearchEventView::PrimaryFound(rows)).1 matches SearchActionView::SearchBeatmaps {
            query,
            ..
        } && query == (match rows {
            Ok(r) => derived_query(s.query, s.direct, r),
            Err(_) => s.query,
        }),
        !s.direct ==> (s.next(SearchEventView::PrimaryFound(rows)).1 matches SearchActionView::SearchBeatmaps {
            query,
            ..
        } && query == s.query),
{
}

/// When the search has ended, nothing is under way and the window is told
/// to draw again.
pub proof fn lemma_end_is_published(s: SearchView, event: SearchEventView)
    requires
        s.consistent(),
        s.searching,
        s.next(event).0.stage is Done,
    ensures
        !s.next(event).0.searching,
        s.next(event).0.repaint,
{
}

/// No step loses a line of the log: what was written stays, in order, and a
/// step adds one line at most.
pub proof fn lemma_log_grows(s: SearchView, event: SearchEventView)
    ensures
        s.next(event).0.log == s.log || (exists|line: Seq<char>|
            s.next(event).0.log == s.log.push(line)),
{
    let after = s.next(event).0.log;
    if after != s.log {
        match (s.stage, event) {
            (SearchStage::PrimaryToken, SearchEventView::PrimaryToken(token)) => {
                assert(after == s.log.push(accepted_auth(token, Provider::Spotify)->Err_0));
            },
            (SearchStage::SecondaryToken, SearchEventView::SecondaryToken(token)) => {
                assert(after == s.log.push(accepted_auth(token, Provider::Osu)->Err_0));
            },
            (SearchStage::Primary, SearchEventView::PrimaryFound(Err(error))) => {
                assert(after == s.log.push(error.words()));
            },
            (SearchStage::Secondary, SearchEventView::SecondaryFound(Err(error))) => {
                assert(after == s.log.push(error.words()));
            },
            _ => {},
        }
    }
}

/// One search and what it has published for the window.
pub struct Search {
    query: String,
    direct: bool,
    stage: SearchStage,
    primary_auth: Option<String>,
    secondary_auth: Option<String>,
    tracks: Vec<Track>,
    beatmapsets: Vec<Beatmapset>,
    error: String,
    searching: bool,
    repaint: bool,
    log: Vec<String>,
}

impl View for Search {
    type V = SearchView;

    closed spec fn view(&self) -> SearchView {
        SearchView {
            query: self.query@,
            direct: self.direct,
            stage: self.stage,
            primary_auth: opt_view(self.primary_auth),
            secondary_auth: opt_view(self.secondary_auth),
            tracks: track_views(self.tracks@),
            beatmapsets: beatmapset_views(self.beatmapsets@),
            error: self.error@,
            searching: self.searching,
            repaint: self.repaint,
            log: views(self.log),
        }
    }
}

/// A search that has not been asked for and shows nothing.
pub open spec fn idle_search() -> SearchView {
    SearchView {
        query: Seq::empty(),
        direct: false,
        stage: SearchStage::Idle,
        primary_auth: None,
        secondary_auth: None,
        tracks: Seq::empty(),
        beatmapsets: Seq::empty(),
        error: Seq::empty(),
        searching: false,
        repaint: false,
        log: Seq::empty(),
    }
}

impl Search {
    #[verifier::type_invariant]
    spec fn well_formed(&self) -> bool {
        self@.consistent()
    }

    /// A search that has not been asked for and shows nothing.
    pub fn new() -> (s: Search)
        ensures
            s@ == idle_search(),
    {
        let s = Search {
            query: String::new(),
            direct: false,
            stage: SearchStage::Idle,
            primary_auth: None,
            secondary_auth: None,
            tracks: Vec::new(),
            beatmapsets: Vec::new(),
            error: String::new(),
            searching: false,
            repaint: false,
            log: Vec::new(),
        };
        assert(s@.log =~= Seq::empty());
        assert(s@.tracks =~= Seq::empty());
        assert(s@.beatmapsets =~= Seq::empty());
        s
    }

    /// How far the search has come.
    pub fn stage(&self) -> (stage: SearchStage)
        ensures
            stage == self@.stage,
    {
        self.stage
    }

    /// Whether a search is under way.
    pub fn is_searching(&self) -> (searching: bool)
        ensures
            searching == self@.searching,
            searching <==> !(self@.stage is Idle || self@.stage is Done),
    {
        proof {
            use_type_invariant(self);
        }
        self.searching
    }

    /// The tracks that are shown.
    pub fn tracks(&self) -> (tracks: &Vec<Track>)
        ensures
            track_views(tracks@) == self@.tracks,
    {
        &self.tracks
    }

    /// The beatmap sets that are shown.
    pub fn beatmapsets(&self) -> (sets: &Vec<Beatmapset>)
        ensures
            beatmapset_views(sets@) == self@.beatmapsets,
    {
        &self.beatmapsets
    }

    /// The message that is shown; empty when nothing went wrong.
    pub fn error_message(&self) -> (message: &String)
        ensures
            message@ == self@.error,
    {
        &self.error
    }

    /// Whether a repaint is asked for.
    pub fn needs_repaint(&self) -> (asked: bool)
        ensures
            asked == self@.repaint,
    {
        self.repaint
    }

    /// Takes note that the window has been drawn: the repaint flag is
    /// cleared and nothing else changes.
    pub fn repainted(self) -> (s: Search)
        ensures
            s@ == (SearchView { repaint: false, ..self@ }),
    {
        proof {
            use_type_invariant(&self);
        }
        Search {
            query: self.query,
            direct: self.direct,
            stage: self.stage,
            primary_auth: self.primary_auth,
            secondary_auth: self.secondary_auth,
            tracks: self.tracks,
            beatmapsets: self.beatmapsets,
            error: self.error,
            searching: self.searching,
            repaint: false,
            log: self.log,
        }
    }

    /// Begins a search for `query`, given whether it is a direct link.
    pub fn begin_with(self, query: &str, direct: bool) -> (r: (Search, SearchAction))
        ensures
            (r.0@, r.1@) == self@.begun(query@, direct),
    {
        (
            Search {
                query: String::from_str(query),
                direct,
                stage: SearchStage::PrimaryToken,
                primary_auth: None,
                secondary_auth: None,
                tracks: self.tracks,
                beatmapsets: self.beatmapsets,
                error: String::new(),
                searching: true,
                repaint: self.repaint,
                log: self.log,
            },
            SearchAction::FetchPrimaryToken,
        )
    }

    /// Begins a search for `query`. The query counts as a direct link when
    /// it holds the shape of a link to one record.
    pub fn begin(self, query: &str) -> (r: (Search, SearchAction))
        ensures
            (r.0@, r.1@) == self@.begun(
                query@,
                direct_link(regex_captures(DIRECT_LINK_PATTERN@, query@)),
            ),
    {
        let direct = is_valid_spotify_url(query);
        self.begin_with(query, direct)
    }

    fn end(self, error: Option<String>, sets: Option<Vec<Beatmapset>>) -> (s: Search)
        ensures
            s@ == (SearchView {
                error: match error {
                    Some(message) => message@,
                    None => self@.error,
                },
                beatmapsets: match sets {
                    Some(found) => beatmapset_views(found@),
                    None => self@.beatmapsets,
                },
                ..self@
            }).ended(),
    {
        Search {
            query: self.query,
            direct: self.direct,
            stage: SearchStage::Done,
            primary_auth: self.primary_auth,
            secondary_auth: self.secondary_auth,
            tracks: self.tracks,
            beatmapsets: match sets {
                Some(found) => found,
                None => self.beatmapsets,
            },
            error: match error {
                Some(message) => message,
                None => self.error,
            },
            searching: false,
            repaint: true,
            log: self.log,
        }
    }

    fn found(self, rows: Option<Vec<TrackWithCover>>) -> (r: (Search, SearchAction))
        requires
            self@.stage is Primary,
        ensures
            (r.0@, r.1@) == self@.found(
                match rows {
                    Some(found) => Some(cover_views(found@)),
                    None => None,
                },
            ),
    {
        proof {
            use_type_invariant(&self);
        }
        let derived = match &rows {
            Some(found) => derive_secondary_query(self.query.as_str(), self.direct, found),
            None => self.query.clone(),
        };
        let authorization = copy_opt(&self.secondary_auth);
        let (tracks, error) = match rows {
            Some(found) => (published_tracks(&found), self.error),
            None => (self.tracks, String::from_str(PRIMARY_SEARCH_FAILED)),
        };
        match authorization {
            Some(authorization) => (
                Search {
                    query: self.query,
                    direct: self.direct,
                    stage: SearchStage::Secondary,
                    primary_auth: self.primary_auth,
                    secondary_auth: self.secondary_auth,
                    tracks,
                    beatmapsets: self.beatmapsets,
                    error,
                    searching: self.searching,
                    repaint: self.repaint,
                    log: self.log,
                },
                SearchAction::SearchBeatmaps {
                    url: String::from_str(OSU_SEARCH_URL),
                    query: derived,
                    authorization,
                },
            ),
            None => (
                Search {
                    query: self.query,
                    direct: self.direct,
                    stage: SearchStage::Done,
                    primary_auth: self.primary_auth,
                    secondary_auth: self.secondary_auth,
                    tracks,
                    beatmapsets: self.beatmapsets,
                    error,
                    searching: false,
                    repaint: true,
                    log: self.log,
                },
                SearchAction::Finish,
            ),
        }
    }

    fn planned(self, secondary: Option<String>) -> (r: (Search, SearchAction))
        requires
            self@.stage is SecondaryToken,
        ensures
            (r.0@, r.1@) == (SearchView {
                error: if secondary is Some {
                    self@.error
                } else {
                    SECONDARY_TOKEN_FAILED@
                },
                secondary_auth: opt_view(secondary),
                ..self@
            }).planned(),
    {
        proof {
            use_type_invariant(&self);
        }
        let error = if secondary.is_some() {
            self.error
        } else {
            String::from_str(SECONDARY_TOKEN_FAILED)
        };
        let (action, rows) = match &self.primary_auth {
            Some(authorization) => {
                if self.direct {
                    (
                        SearchAction::LookupTrack {
                            url: track_url(track_id(self.query.as_str()).as_str()),
                            authorization: authorization.clone(),
                        },
                        false,
                    )
                } else if !self.query.as_str().is_empty() {
                    (
                        SearchAction::SearchTracks {
                            url: search_url(self.query.as_str(), PAGE_SIZE, 0),
                            authorization: authorization.clone(),
                        },
                        false,
                    )
                } else {
                    (SearchAction::Idle, true)
                }
            },
            None => (SearchAction::Idle, true),
        };
        let waiting = Search {
            query: self.query,
            direct: self.direct,
            stage: SearchStage::Primary,
            primary_auth: self.primary_auth,
            secondary_auth: secondary,
            tracks: self.tracks,
            beatmapsets: self.beatmapsets,
            error,
            searching: self.searching,
            repaint: self.repaint,
            log: self.log,
        };
        if rows {
            let nothing: Vec<TrackWithCover> = Vec::new();
            assert(cover_views(nothing@) =~= Seq::empty());
            waiting.found(Some(nothing))
        } else {
            (waiting, action)
        }
    }

    fn note(self, line: String) -> (r: Search)
        ensures
            r@ == self@.noted(line@),
    {
        proof {
            use_type_invariant(&self);
        }
        let ghost before = views(self.log);
        let mut log = self.log;
        log.push(line);
        assert(views(log) =~= before.push(line@));
        Search {
            query: self.query,
            direct: self.direct,
            stage: self.stage,
            primary_auth: self.primary_auth,
            secondary_auth: self.secondary_auth,
            tracks: self.tracks,
            beatmapsets: self.beatmapsets,
            error: self.error,
            searching: self.searching,
            repaint: self.repaint,
            log,
        }
    }

    /// Hands out the lines that wait to be written to the log, oldest first,
    /// and forgets them.
    pub fn take_log(self) -> (r: (Search, Vec<String>))
        ensures
            r.0@ == (SearchView { log: Seq::empty(), ..self@ }),
            views(r.1) == self@.log,
    {
        proof {
            use_type_invariant(&self);
        }
        let lines = self.log;
        let kept: Vec<String> = Vec::new();
        assert(views(kept) =~= Seq::empty());
        (
            Search {
                query: self.query,
                direct: self.direct,
                stage: self.stage,
                primary_auth: self.primary_auth,
                secondary_auth: self.secondary_auth,
                tracks: self.tracks,
                beatmapsets: self.beatmapsets,
                error: self.error,
                searching: self.searching,
                repaint: self.repaint,
                log: kept,
            },
            lines,
        )
    }

    /// Takes the report of what was done and says what is to be done next,
    /// as `SearchView::next` lays it down.
    pub fn step(self, event: SearchEvent) -> (r: (Search, SearchAction))
        ensures
            (r.0@, r.1@) == self@.next(event@),
    {
        proof {
            use_type_invariant(&self);
        }
        match self.stage {
            SearchStage::PrimaryToken => match event {
                SearchEvent::PrimaryToken(outcome) => {
                    match accept(outcome, Provider::Spotify) {
                        Ok(authorization) => (
                            Search {
                                query: self.query,
                                direct: self.direct,
                                stage: SearchStage::SecondaryToken,
                                primary_auth: Some(authorization),
                                secondary_auth: self.secondary_auth,
                                tracks: self.tracks,
                                beatmapsets: self.beatmapsets,
                                error: self.error,
                                searching: self.searching,
                                repaint: self.repaint,
                                log: self.log,
                            },
                            SearchAction::FetchSecondaryToken,
                        ),
                        Err(line) => (
                            self.note(line).end(Some(String::from_str(PRIMARY_TOKEN_FAILED)), None),
                            SearchAction::Finish,
                        ),
                    }
                },
                _ => (self, SearchAction::Idle),
            },
            SearchStage::SecondaryToken => match event {
                SearchEvent::SecondaryToken(outcome) => {
                    match accept(outcome, Provider::Osu) {
                        Ok(authorization) => self.planned(Some(authorization)),
                        Err(line) => self.note(line).planned(None),
                    }
                },
                _ => (self, SearchAction::Idle),
            },
            SearchStage::Primary => match event {
                SearchEvent::PrimaryFound(Ok(rows)) => self.found(Some(rows)),
                SearchEvent::PrimaryFound(Err(error)) => self.note(error.describe()).found(None),
                _ => (self, SearchAction::Idle),
            },
            SearchStage::Secondary => match event {
                SearchEvent::SecondaryFound(Ok(sets)) => {
                    let urls = collect_cover_requests(&sets);
                    (self.end(None, Some(sets)), SearchAction::Prefetch(urls))
                },
                SearchEvent::SecondaryFound(Err(error)) => (
                    self.note(error.describe()).end(
                        Some(String::from_str(SECONDARY_SEARCH_FAILED)),
                        None,
                    ),
                    SearchAction::Finish,
                ),
                _ => (self, SearchAction::Idle),
            },
            _ => (self, SearchAction::Idle),
        }
    }
}

/// The header under which the token that came may be sent to `provider`, or
/// the line that says in detail why there is none.
pub fn accept(outcome: Result<Token, AuthError>, provider: Provider) -> (r: Result<String, String>)
    ensures
        match accepted_auth(
            match outcome {
                Ok(token) => Ok(token@),
                Err(error) => Err(error@),
            },
            provider,
        ) {
            Ok(authorization) => r matches Ok(a) && a@ == authorization,
            Err(line) => r matches Err(l) && l@ == line,
        },
{
    match outcome {
        Ok(token) => match token.bearer_for(provider) {
            Some(authorization) => Ok(authorization),
            None => Err(String::from_str(WRONG_ISSUER)),
        },
        Err(error) => Err(error.describe()),
    }
}

/// Makes room in the cache of covers for what an action brings: when the
/// action asks for the covers of new sets, the covers of the sets before are
/// forgotten; every other action leaves the cache alone. The answer says
/// whether the cache was emptied.
pub fn renew_covers(cache: &mut IndexCache, action: &SearchAction) -> (renewed: bool)
    ensures
        renewed == (action@ is Prefetch),
        renewed ==> final(cache).covers() == Map::<usize, ImageEntryView>::empty(),
        renewed ==> final(cache).repaint(),
        !renewed ==> final(cache).covers() == old(cache).covers(),
        !renewed ==> final(cache).repaint() == old(cache).repaint(),
{
    match action {
        SearchAction::Prefetch(_) => {
            cache.clear();
            true
        },
        _ => false,
    }
}

} // verus!
