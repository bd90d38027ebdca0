//! The beatmap catalog: its records, the shape of its links, and what is
//! made of its answers.

use vstd::prelude::*;
use vstd::string::*;
use crate::bindings::{
    captures, found_view, groups_view, json_member, json_string_member, regex_captures,
};
use crate::images::{
    bulk_errors, bulk_loaded, cover_verdict, lemma_bulk_counts, loaded_view, request_views,
    verdict_view, BulkReport, ImageEntry, ImageEntryView, ImageRequest, LoadedCover,
    RequestedView,
};
use crate::text::{copy_opt, decimal_i32, opt_view, signed_decimal, views};
use crate::spotify::{rejection, rejection_message};
use crate::token::{
    form_credentials_request, form_request, is_success, status_is_success, AuthError, HttpOutcome,
    TokenRequest,
};

verus! {

/// Where the catalog issues tokens.
pub const OSU_TOKEN_URL: &'static str = "https://osu.ppy.sh/oauth/token";

/// Where beatmap sets are searched.
pub const OSU_SEARCH_URL: &'static str = "https://osu.ppy.sh/api/v2/beatmapsets/search";

/// Where the record of one beatmap set lives, before its number.
pub const OSU_BEATMAPSET_URL: &'static str = "https://osu.ppy.sh/api/v2/beatmapsets/";

/// The shape of a link to a beatmap set, with or without one of its beatmaps.
pub const OSU_LINK_PATTERN: &'static str = r"https://osu\.ppy\.sh/beatmapsets/(\d+)(?:#(\w+)/(\d+))?$";

/// The addresses of the pictures of a beatmap set, by kind.
#[derive(Debug)]
pub struct Covers {
    pub cover: Option<String>,
    pub cover_2x: Option<String>,
    pub card: Option<String>,
    pub card_2x: Option<String>,
    pub list: Option<String>,
    pub list_2x: Option<String>,
    pub slimcover: Option<String>,
    pub slimcover_2x: Option<String>,
}

/// The addresses of the pictures of a beatmap set, as plain values.
pub struct CoversView {
    pub cover: Option<Seq<char>>,
    pub cover_2x: Option<Seq<char>>,
    pub card: Option<Seq<char>>,
    pub card_2x: Option<Seq<char>>,
    pub list: Option<Seq<char>>,
    pub list_2x: Option<Seq<char>>,
    pub slimcover: Option<Seq<char>>,
    pub slimcover_2x: Option<Seq<char>>,
}

impl View for Covers {
    type V = CoversView;

    open spec fn view(&self) -> CoversView {
        CoversView {
            cover: opt_view(self.cover),
            cover_2x: opt_view(self.cover_2x),
            card: opt_view(self.card),
            card_2x: opt_view(self.card_2x),
            list: opt_view(self.list),
            list_2x: opt_view(self.list_2x),
            slimcover: opt_view(self.slimcover),
            slimcover_2x: opt_view(self.slimcover_2x),
        }
    }
}

impl Clone for Covers {
    fn clone(&self) -> (r: Covers)
        ensures
            r@ == self@,
    {
        Covers {
            cover: copy_opt(&self.cover),
            cover_2x: copy_opt(&self.cover_2x),
            card: copy_opt(&self.card),
            card_2x: copy_opt(&self.card_2x),
            list: copy_opt(&self.list),
            list_2x: copy_opt(&self.list_2x),
            slimcover: copy_opt(&self.slimcover),
            slimcover_2x: copy_opt(&self.slimcover_2x),
        }
    }
}

/// One difficulty of a beatmap set. The rating is held as it is shown, with
/// two decimals.
#[derive(Debug)]
pub struct Beatmap {
    pub difficulty_rating: String,
    pub id: i32,
    pub mode: String,
    pub status: String,
    pub total_length: i32,
    pub user_id: i32,
    pub version: String,
}

/// A beatmap as plain values.
pub struct BeatmapView {
    pub difficulty_rating: Seq<char>,
    pub id: i32,
    pub mode: Seq<char>,
    pub status: Seq<char>,
    pub total_length: i32,
    pub user_id: i32,
    pub version: Seq<char>,
}

impl View for Beatmap {
    type V = BeatmapView;

    open spec fn view(&self) -> BeatmapView {
        BeatmapView {
            difficulty_rating: self.difficulty_rating@,
            id: self.id,
            mode: self.mode@,
            status: self.status@,
            total_length: self.total_length,
            user_id: self.user_id,
            version: self.version@,
        }
    }
}

impl Clone for Beatmap {
    fn clone(&self) -> (r: Beatmap)
        ensures
            r@ == self@,
    {
        Beatmap {
            difficulty_rating: self.difficulty_rating.clone(),
            id: self.id,
            mode: self.mode.clone(),
            status: self.status.clone(),
            total_length: self.total_length,
            user_id: self.user_id,
            version: self.version.clone(),
        }
    }
}

/// The views of a list of beatmaps.
pub open spec fn beatmap_views(beatmaps: Seq<Beatmap>) -> Seq<BeatmapView> {
    Seq::new(beatmaps.len(), |i: int| beatmaps[i]@)
}

/// A copy of a list of beatmaps.
pub fn copy_beatmaps(beatmaps: &Vec<Beatmap>) -> (r: Vec<Beatmap>)
    ensures
        beatmap_views(r@) == beatmap_views(beatmaps@),
{
    let mut r: Vec<Beatmap> = Vec::new();
    let mut i: usize = 0;
    while i < beatmaps.len()
        invariant
            i <= beatmaps.len(),
            r.len() == i,
            forall|j: int| 0 <= j < i ==> (#[trigger] r@[j])@ == beatmaps@[j]@,
        decreases beatmaps.len() - i,
    {
        let beatmap = beatmaps[i].clone();
        r.push(beatmap);
        i += 1;
    }
    assert(beatmap_views(r@) =~= beatmap_views(beatmaps@));
    r
}

/// A beatmap set as the catalog describes it.
#[derive(Debug)]
pub struct Beatmapset {
    pub beatmaps: Vec<Beatmap>,
    pub id: i32,
    pub artist: String,
    pub title: String,
    pub creator: String,
    pub covers: Covers,
}

/// A beatmap set as plain values.
pub struct BeatmapsetView {
    pub beatmaps: Seq<BeatmapView>,
    pub id: i32,
    pub artist: Seq<char>,
    pub title: Seq<char>,
    pub creator: Seq<char>,
    pub covers: CoversView,
}

impl View for Beatmapset {
    type V = BeatmapsetView;

    open spec fn view(&self) -> BeatmapsetView {
        BeatmapsetView {
            beatmaps: beatmap_views(self.beatmaps@),
            id: self.id,
            artist: self.artist@,
            title: self.title@,
            creator: self.creator@,
            covers: self.covers@,
        }
    }
}

impl Clone for Beatmapset {
    fn clone(&self) -> (r: Beatmapset)
        ensures
            r@ == self@,
    {
        Beatmapset {
            beatmaps: copy_beatmaps(&self.beatmaps),
            id: self.id,
            artist: self.artist.clone(),
            title: self.title.clone(),
            creator: self.creator.clone(),
            covers: self.covers.clone(),
        }
    }
}

/// The views of a list of beatmap sets.
pub open spec fn beatmapset_views(sets: Seq<Beatmapset>) -> Seq<BeatmapsetView> {
    Seq::new(sets.len(), |i: int| sets[i]@)
}

/// What the token endpoint answers.
pub struct TokenResponse {
    access_token: String,
}

impl TokenResponse {
    /// The token that the answer holds.
    pub closed spec fn token(&self) -> Seq<char> {
        self.access_token@
    }

    /// An answer that holds `access_token`.
    pub fn new(access_token: String) -> (r: TokenResponse)
        ensures
            r.token() == access_token@,
    {
        TokenResponse { access_token }
    }

    /// The token that the answer holds.
    pub fn access_token(&self) -> (t: &String)
        ensures
            t@ == self.token(),
    {
        &self.access_token
    }
}

/// What a search answers.
#[derive(Debug)]
pub struct SearchResponse {
    beatmapsets: Vec<Beatmapset>,
}

impl SearchResponse {
    /// The sets that the answer holds.
    pub closed spec fn sets(&self) -> Seq<Beatmapset> {
        self.beatmapsets@
    }

    /// An answer that holds `beatmapsets`.
    pub fn new(beatmapsets: Vec<Beatmapset>) -> (r: SearchResponse)
        ensures
            r.sets() == beatmapsets@,
    {
        SearchResponse { beatmapsets }
    }

    /// The sets that the answer holds.
    pub fn into_beatmapsets(self) -> (sets: Vec<Beatmapset>)
        ensures
            sets@ == self.sets(),
    {
        self.beatmapsets
    }
}

/// What is shown of a beatmap set: its names and one text for each of its
/// beatmaps.
pub struct BeatmapInfo {
    pub title: String,
    pub artist: String,
    pub creator: String,
    pub beatmaps: Vec<String>,
}

/// What can go wrong while talking to the catalog, each with its message.
#[derive(Debug)]
pub enum OsuError {
    RequestError(String),
    JsonError(String),
    ConfigError(String),
    Other(String),
}

/// What can go wrong while talking to the catalog, as plain values.
pub enum OsuErrorView {
    RequestError(Seq<char>),
    JsonError(Seq<char>),
    ConfigError(Seq<char>),
    Other(Seq<char>),
}

impl OsuErrorView {
    /// The kind of failure, as the words that stand before the message.
    pub open spec fn heading(self) -> Seq<char> {
        match self {
            OsuErrorView::RequestError(_) => "request error: "@,
            OsuErrorView::JsonError(_) => "JSON parse error: "@,
            OsuErrorView::ConfigError(_) => "configuration error: "@,
            OsuErrorView::Other(_) => "other error: "@,
        }
    }

    /// The message that the failure carries.
    pub open spec fn detail(self) -> Seq<char> {
        match self {
            OsuErrorView::RequestError(m) => m,
            OsuErrorView::JsonError(m) => m,
            OsuErrorView::ConfigError(m) => m,
            OsuErrorView::Other(m) => m,
        }
    }

    /// The failure in words: its kind, then its message.
    pub open spec fn words(self) -> Seq<char> {
        self.heading() + self.detail()
    }
}

impl View for OsuError {
    type V = OsuErrorView;

    open spec fn view(&self) -> OsuErrorView {
        match self {
            OsuError::RequestError(m) => OsuErrorView::RequestError(m@),
            OsuError::JsonError(m) => OsuErrorView::JsonError(m@),
            OsuError::ConfigError(m) => OsuErrorView::ConfigError(m@),
            OsuError::Other(m) => OsuErrorView::Other(m@),
        }
    }
}

impl OsuError {
    /// The kind of failure, as the words that stand before the message.
    pub open spec fn heading(self) -> Seq<char> {
        self@.heading()
    }

    /// The message that the failure carries.
    pub open spec fn detail(self) -> Seq<char> {
        self@.detail()
    }

    /// The failure in words: its kind, then its message.
    pub fn describe(&self) -> (r: String)
        ensures
            r@ == self.heading() + self.detail(),
    {
        let (heading, detail) = match self {
            OsuError::RequestError(m) => ("request error: ", m),
            OsuError::JsonError(m) => ("JSON parse error: ", m),
            OsuError::ConfigError(m) => ("configuration error: ", m),
            OsuError::Other(m) => ("other error: ", m),
        };
        let mut r = String::from_str(heading);
        r.append(detail.as_str());
        r
    }
}

/// The whole minutes of a length in seconds, rounded towards zero.
pub open spec fn minutes_of(seconds: int) -> int {
    if seconds >= 0 {
        seconds / 60
    } else {
        -((-seconds) / 60)
    }
}

/// The seconds that remain of a length beyond its whole minutes, with the
/// sign of the length.
pub open spec fn seconds_of(seconds: int) -> int {
    if seconds >= 0 {
        seconds % 60
    } else {
        -((-seconds) % 60)
    }
}

/// What `Beatmap::format_info` writes.
pub open spec fn beatmap_text(b: BeatmapView) -> Seq<char> {
    "Difficulty: "@ + b.difficulty_rating + " | Mode: "@ + b.mode + " | Status: "@ + b.status
        + "\nLength: "@ + signed_decimal(minutes_of(b.total_length as int)) + " min "@
        + signed_decimal(seconds_of(b.total_length as int)) + "s | Version: "@ + b.version
}

impl Beatmap {
    /// The two lines that describe the beatmap: its rating, mode and status,
    /// then its length in minutes and seconds and its version.
    pub fn format_info(&self) -> (r: String)
        ensures
            r@ == beatmap_text(self@),
    {
        let wide: i64 = self.total_length as i64;
        let (minutes, seconds): (i32, i32) = if wide >= 0 {
            ((wide / 60) as i32, (wide % 60) as i32)
        } else {
            let magnitude: i64 = -wide;
            ((-(magnitude / 60)) as i32, (-(magnitude % 60)) as i32)
        };
        let mut r = String::from_str("Difficulty: ");
        r.append(self.difficulty_rating.as_str());
        r.append(" | Mode: ");
        r.append(self.mode.as_str());
        r.append(" | Status: ");
        r.append(self.status.as_str());
        r.append("\nLength: ");
        r.append(decimal_i32(minutes).as_str());
        r.append(" min ");
        r.append(decimal_i32(seconds).as_str());
        r.append("s | Version: ");
        r.append(self.version.as_str());
        r
    }
}

/// The texts of a list of beatmaps.
pub open spec fn beatmap_texts(beatmaps: Seq<Beatmap>) -> Seq<Seq<char>> {
    Seq::new(beatmaps.len(), |i: int| beatmap_text(beatmaps[i]@))
}

impl Beatmapset {
    /// What is shown of the set: its title, artist and creator, and the text
    /// of each of its beatmaps, in order.
    pub fn format_info(&self) -> (info: BeatmapInfo)
        ensures
            info.title@ == self.title@,
            info.artist@ == self.artist@,
            info.creator@ == self.creator@,
            views(info.beatmaps) == beatmap_texts(self.beatmaps@),
    {
        let mut beatmaps: Vec<String> = Vec::new();
        let mut i: usize = 0;
        while i < self.beatmaps.len()
            invariant
                i <= self.beatmaps.len(),
                beatmaps.len() == i,
                forall|j: int| 0 <= j < i ==> (#[trigger] beatmaps@[j])@ == beatmap_text(
                    self.beatmaps@[j]@,
                ),
            decreases self.beatmaps.len() - i,
        {
            beatmaps.push(self.beatmaps[i].format_info());
            i += 1;
        }
        assert(views(beatmaps) =~= beatmap_texts(self.beatmaps@));
        BeatmapInfo {
            title: self.title.clone(),
            artist: self.artist.clone(),
            creator: self.creator.clone(),
            beatmaps,
        }
    }
}

/// What is shown of `beatmapset`.
pub fn print_beatmap_info_gui(beatmapset: &Beatmapset) -> (info: BeatmapInfo)
    ensures
        info.title@ == beatmapset.title@,
        info.artist@ == beatmapset.artist@,
        info.creator@ == beatmapset.creator@,
        views(info.beatmaps) == beatmap_texts(beatmapset.beatmaps@),
{
    beatmapset.format_info()
}

/// The numbers that a link names, given what the search for the link's shape
/// found: the number of the set, and the number of the beatmap if the link
/// goes on to name one. Text in which the shape does not occur names none.
pub open spec fn osu_ids(found: Result<Option<Seq<Option<Seq<char>>>>, Seq<char>>) -> Option<
    (Seq<char>, Option<Seq<char>>),
> {
    match found {
        Ok(Some(groups)) => if groups.len() > 1 && groups[1] is Some {
            Some(
                (
                    groups[1]->0,
                    if groups.len() > 3 {
                        groups[3]
                    } else {
                        None
                    },
                ),
            )
        } else {
            None
        },
        _ => None,
    }
}

/// Whether `r` is the pair of numbers that `ids` describes.
pub open spec fn is_ids(r: Option<(String, Option<String>)>, ids: Option<(Seq<char>, Option<Seq<char>>)>) -> bool {
    match r {
        Some((set, beatmap)) => ids == Some((set@, opt_view(beatmap))),
        None => ids is None,
    }
}

/// The numbers that a link names, from the groups that the search for the
/// link's shape found: the first group is the set, the third the beatmap.
pub fn ids_from_captures(found: Result<Option<Vec<Option<String>>>, String>) -> (r: Option<
    (String, Option<String>),
>)
    ensures
        is_ids(r, osu_ids(found_view(found))),
{
    match found {
        Ok(Some(groups)) => {
            if groups.len() > 1 {
                match &groups[1] {
                    Some(set) => {
                        let beatmap = if groups.len() > 3 {
                            copy_opt(&groups[3])
                        } else {
                            None
                        };
                        assert(groups_view(groups)[1] == Some(set@));
                        assert(groups.len() > 3 ==> groups_view(groups)[3] == opt_view(groups@[3]));
                        Some((set.clone(), beatmap))
                    },
                    None => {
                        assert(groups_view(groups)[1] is None);
                        None
                    },
                }
            } else {
                None
            }
        },
        Ok(None) => None,
        Err(_) => None,
    }
}

/// The numbers of the set and of the beatmap that the link `url` names. The
/// link must end `url`; a link to a set alone names no beatmap.
pub fn parse_osu_url(url: &str) -> (r: Option<(String, Option<String>)>)
    ensures
        is_ids(r, osu_ids(regex_captures(OSU_LINK_PATTERN@, url@))),
{
    ids_from_captures(captures(OSU_LINK_PATTERN, url))
}

/// The address of the record of the set numbered `beatmapset_id`.
pub fn beatmapset_url(beatmapset_id: &str) -> (url: String)
    ensures
        url@ == OSU_BEATMAPSET_URL@ + beatmapset_id@,
{
    let mut url = String::from_str(OSU_BEATMAPSET_URL);
    url.append(beatmapset_id);
    url
}

/// The one parameter of a search for `song_name`.
pub fn search_query(song_name: &str) -> (pair: (String, String))
    ensures
        pair.0@ == "query"@,
        pair.1@ == song_name@,
{
    (String::from_str("query"), String::from_str(song_name))
}

/// The name that stands in for a missing artist.
pub const UNKNOWN_ARTIST: &'static str = "Unknown Artist";

/// The name that stands in for a missing title.
pub const UNKNOWN_TITLE: &'static str = "Unknown Title";

/// The artist and the title of a set, given what was read under `artist` and
/// under `title` in its record. A member that is missing or no string gives
/// the stand-in name; a record that is no document is a `RequestError`.
pub fn details_from_members(
    artist: Result<Option<String>, String>,
    title: Result<Option<String>, String>,
) -> (r: Result<(String, String), OsuError>)
    ensures
        match (artist, title) {
            (Err(cause), _) => r matches Err(OsuError::RequestError(m)) && m@ == cause@,
            (Ok(_), Err(cause)) => r matches Err(OsuError::RequestError(m)) && m@ == cause@,
            (Ok(a), Ok(t)) => r matches Ok((artist_name, title_name)) && artist_name@ == (match a {
                Some(name) => name@,
                None => UNKNOWN_ARTIST@,
            }) && title_name@ == (match t {
                Some(name) => name@,
                None => UNKNOWN_TITLE@,
            }),
        },
{
    let artist_name = match artist {
        Ok(Some(name)) => name,
        Ok(None) => String::from_str(UNKNOWN_ARTIST),
        Err(cause) => {
            return Err(OsuError::RequestError(cause));
        },
    };
    let title_name = match title {
        Ok(Some(name)) => name,
        Ok(None) => String::from_str(UNKNOWN_TITLE),
        Err(cause) => {
            return Err(OsuError::RequestError(cause));
        },
    };
    Ok((artist_name, title_name))
}

/// What `beatmapset_details` answers for a record.
pub open spec fn details_of(body: Seq<char>) -> Result<(Seq<char>, Seq<char>), Seq<char>> {
    match (json_string_member(body, "artist"@), json_string_member(body, "title"@)) {
        (Err(cause), _) => Err(cause),
        (Ok(_), Err(cause)) => Err(cause),
        (Ok(a), Ok(t)) => Ok(
            (
                match a {
                    Some(name) => name,
                    None => UNKNOWN_ARTIST@,
                },
                match t {
                    Some(name) => name,
                    None => UNKNOWN_TITLE@,
                },
            ),
        ),
    }
}

/// The artist and the title in the record `body` of a set.
pub fn beatmapset_details(body: &str) -> (r: Result<(String, String), OsuError>)
    ensures
        match details_of(body@) {
            Ok((artist, title)) => r matches Ok((a, t)) && a@ == artist && t@ == title,
            Err(cause) => r matches Err(OsuError::RequestError(m)) && m@ == cause,
        },
{
    details_from_members(json_member(body, "artist"), json_member(body, "title"))
}

/// The body of the catalog's answer to a search or a lookup. A request that
/// did not get through is a `RequestError` with the cause; an answer whose
/// status is no success is reported with the status and the body.
pub fn search_answer(outcome: HttpOutcome) -> (r: Result<String, OsuError>)
    ensures
        match outcome {
            HttpOutcome::Failed(cause) => r matches Err(OsuError::RequestError(m)) && m@ == cause@,
            HttpOutcome::Answered { status, body } => if is_success(status) {
                r matches Ok(b) && b@ == body@
            } else {
                r matches Err(OsuError::Other(m)) && m@ == rejection(status, body@)
            },
        },
{
    match outcome {
        HttpOutcome::Failed(cause) => Err(OsuError::RequestError(cause)),
        HttpOutcome::Answered { status, body } => {
            if status_is_success(status) {
                Ok(body)
            } else {
                Err(OsuError::Other(rejection_message(status, body.as_str())))
            }
        },
    }
}

/// The request for a token of the beatmap catalog: the client is named in a
/// form, and the public scope is asked for.
pub fn osu_token_request(client_id: &str, client_secret: &str) -> (r: TokenRequest)
    ensures
        r@ == form_request(OSU_TOKEN_URL@, client_id@, client_secret@, "public"@),
{
    form_credentials_request(OSU_TOKEN_URL, client_id, client_secret, "public")
}

/// The failure that the catalog reports for a token that was not obtained.
/// The kinds stay apart: a request that did not get through is a
/// `RequestError` with the cause, an answer that cannot be read is a
/// `JsonError` with the cause, credentials that cannot be had are a
/// `ConfigError` with the cause, and a refusal is reported with its status
/// and its body.
pub fn osu_error_from(error: AuthError) -> (r: OsuError)
    ensures
        match error {
            AuthError::TokenRejected(status, body) => r matches OsuError::Other(m) && m@
                == rejection(status, body@),
            AuthError::Transport(cause) => r matches OsuError::RequestError(m) && m@ == cause@,
            AuthError::Decode(cause) => r matches OsuError::JsonError(m) && m@ == cause@,
            AuthError::Config(cause) => r matches OsuError::ConfigError(m) && m@ == cause@,
        },
{
    match error {
        AuthError::TokenRejected(status, body) => OsuError::Other(
            rejection_message(status, body.as_str()),
        ),
        AuthError::Transport(cause) => OsuError::RequestError(cause),
        AuthError::Decode(cause) => OsuError::JsonError(cause),
        AuthError::Config(cause) => OsuError::ConfigError(cause),
    }
}

/// The covers that are asked for after a search: for each set that has a
/// cover, the cover's address with the place of the set among the results.
pub open spec fn cover_requests(sets: Seq<BeatmapsetView>) -> Seq<RequestedView>
    decreases sets.len(),
{
    if sets.len() == 0 {
        Seq::empty()
    } else {
        match sets.last().covers.cover {
            Some(url) => cover_requests(sets.drop_last()).push(
                RequestedView { index: (sets.len() - 1) as usize, url },
            ),
            None => cover_requests(sets.drop_last()),
        }
    }
}

/// The covers that are asked for after a search, in the order of the sets.
pub fn collect_cover_requests(sets: &Vec<Beatmapset>) -> (requests: Vec<ImageRequest>)
    ensures
        request_views(requests@) == cover_requests(beatmapset_views(sets@)),
{
    let mut requests: Vec<ImageRequest> = Vec::new();
    let mut i: usize = 0;
    assert(beatmapset_views(sets@).take(0) =~= Seq::empty());
    while i < sets.len()
        invariant
            i <= sets.len(),
            request_views(requests@) == cover_requests(beatmapset_views(sets@).take(i as int)),
        decreases sets.len() - i,
    {
        let ghost before = beatmapset_views(sets@).take(i as int);
        let ghost after = beatmapset_views(sets@).take(i + 1);
        let ghost had = request_views(requests@);
        proof {
            assert(after.drop_last() =~= before);
            assert(after.last() == sets@[i as int]@);
        }
        match &sets[i].covers.cover {
            Some(url) => {
                requests.push(ImageRequest { index: i, url: url.clone() });
                assert(request_views(requests@) =~= had.push(
                    RequestedView { index: i, url: url@ },
                ));
            },
            None => {},
        }
        i += 1;
    }
    assert(beatmapset_views(sets@).take(sets.len() as int) =~= beatmapset_views(sets@));
    requests
}

/// The fetches of a list of covers, each with its verdict and numbered by
/// its place in the list.
pub open spec fn numbered_batch(batch: Seq<(String, Result<ImageEntry, String>)>) -> Seq<
    (RequestedView, Result<ImageEntryView, Seq<char>>),
> {
    Seq::new(
        batch.len(),
        |i: int| (RequestedView { index: i as usize, url: batch[i].0@ }, verdict_view(batch[i].1)),
    )
}

/// Sorts the fetches of the covers of a search, which come in the order of
/// their addresses, each with its verdict. Every picture is handed out with
/// the place of its address in the list. A failure is recorded as a line of
/// the report; it stops nothing, and none is handed to the caller as an
/// error.
pub fn load_osu_covers(batch: Vec<(String, Result<ImageEntry, String>)>) -> (report: BulkReport)
    ensures
        loaded_view(report.loaded@) == bulk_loaded(numbered_batch(batch@)),
        views(report.errors) == bulk_errors(numbered_batch(batch@)),
        report.loaded.len() + report.errors.len() == batch.len(),
{
    let mut loaded: Vec<LoadedCover> = Vec::new();
    let mut errors: Vec<String> = Vec::new();
    let ghost whole = numbered_batch(batch@);
    assert(whole.take(0) =~= Seq::empty());
    let count = batch.len();
    let mut place: usize = 0;
    for fetch in it: batch.into_iter()
        invariant
            it.seq() == batch@,
            whole == numbered_batch(batch@),
            count == batch@.len(),
            place == it.index(),
            loaded_view(loaded@) == bulk_loaded(whole.take(it.index() as int)),
            views(errors) == bulk_errors(whole.take(it.index() as int)),
    {
        let ghost i = it.index() as int;
        let ghost had = loaded_view(loaded@);
        let ghost said = views(errors);
        proof {
            assert(whole.take(i + 1).drop_last() =~= whole.take(i));
            assert(whole.take(i + 1).last() == (
                RequestedView { index: place, url: fetch.0@ },
                verdict_view(fetch.1),
            ));
        }
        let (url, verdict) = fetch;
        match cover_verdict(url.as_str(), verdict) {
            Ok(entry) => {
                loaded.push(LoadedCover { index: place, entry });
                assert(loaded_view(loaded@) =~= had.push((place, entry@)));
            },
            Err(line) => {
                errors.push(line);
                assert(views(errors) =~= said.push(line@));
            },
        }
        assert(place < count);
        place = place + 1;
    }
    proof {
        assert(whole.take(whole.len() as int) =~= whole);
        lemma_bulk_counts(whole);
        assert(loaded_view(loaded@).len() == loaded.len());
        assert(views(errors).len() == errors.len());
    }
    BulkReport { loaded, errors }
}

} // verus!
