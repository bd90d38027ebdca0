//! The track catalog as a console client sees it: direct links, pages of
//! search results, and the lines that are printed of tracks and albums.

use vstd::prelude::*;
use vstd::string::*;
use crate::bindings::{captures, found_view, groups_view, regex_captures};
use crate::spotify::{
    artist_names, artists_line, page_count, page_offset, spotify_link, total_pages, track_views,
    SPOTIFY_API_BASE_URL,
};
use crate::text::{decimal, decimal_u32, joined, opt_view, views};

pub use crate::spotify::{
    open_targets, track_url, Album, Albums, Artist, AuthResponse, Image, Restrictions,
    SearchResult, Track, Tracks,
};

verus! {

/// The shape of a direct link to a track or an album. A track is named by 22
/// letters and digits; the link may stand anywhere in the text.
pub const DIRECT_LINK_PATTERN: &'static str =
    r"https?://open\.spotify\.com/(track|album)/([a-zA-Z0-9]{22})?";

/// The shape of a link to an album.
pub const ALBUM_LINK_PATTERN: &'static str = r"https?://open\.spotify\.com/album/([a-zA-Z0-9]+)";

/// What is said of text that is no link to an album.
pub const BAD_ALBUM_LINK: &'static str = "URL疑似錯誤，請重新輸入";

/// The rule between the records that are printed.
pub const RULE: &'static str = "------------------------";

/// The rule around an album that is printed.
pub const ALBUM_RULE: &'static str = "---------------------------------------------";

/// Whether what the search for the shape of a direct link found is a link
/// that names one record: a link to a track with its 22 characters, or a
/// link to an album.
pub open spec fn direct_link(found: Result<Option<Seq<Option<Seq<char>>>>, Seq<char>>) -> bool {
    match found {
        Ok(Some(groups)) => {
            if groups.len() > 1 && groups[1] == Some("track"@) {
                groups.len() > 2 && groups[2] is Some && groups[2]->0.len() == 22
            } else {
                groups.len() > 1 && groups[1] == Some("album"@)
            }
        },
        _ => false,
    }
}

/// Whether the groups found make a direct link: the first says what kind of
/// record is linked, the second names a track.
pub fn link_from_captures(found: Result<Option<Vec<Option<String>>>, String>) -> (b: bool)
    ensures
        b == direct_link(found_view(found)),
{
    match found {
        Ok(Some(groups)) => {
            if groups.len() < 2 {
                return false;
            }
            assert(groups_view(groups)[1] == opt_view(groups@[1]));
            match &groups[1] {
                Some(kind) => {
                    if *kind == String::from_str("track") {
                        if groups.len() < 3 {
                            return false;
                        }
                        assert(groups_view(groups)[2] == opt_view(groups@[2]));
                        match &groups[2] {
                            Some(id) => id.as_str().unicode_len() == 22,
                            None => false,
                        }
                    } else {
                        *kind == String::from_str("album")
                    }
                },
                None => false,
            }
        },
        Ok(None) => false,
        Err(_) => false,
    }
}

/// Whether `url` holds a direct link to one record of the catalog.
pub fn is_valid_spotify_url(url: &str) -> (b: bool)
    ensures
        b == direct_link(regex_captures(DIRECT_LINK_PATTERN@, url@)),
{
    link_from_captures(captures(DIRECT_LINK_PATTERN, url))
}

/// The three lines that describe a track.
pub open spec fn track_text(name: Seq<char>, artists: Seq<Seq<char>>, album: Seq<char>) -> Seq<char> {
    "Track: "@ + name + "\nArtists: "@ + joined(artists, ", "@) + "\nAlbum: "@ + album
}

/// What is shown of `track`: three lines of text, the link to the track if
/// it has one, and its name.
pub fn print_track_info_gui(track: &Track) -> (r: (String, Option<String>, String))
    ensures
        r.0@ == track_text(track.name@, artist_names(track.artists@), track.album.name@),
        opt_view(r.1) == spotify_link(track.external_urls@),
        r.2@ == track.name@,
{
    let spotify_url = match track.external_urls.get("spotify") {
        Some(link) => Some(link.clone()),
        None => None,
    };
    let mut info = String::from_str("Track: ");
    info.append(track.name.as_str());
    info.append("\nArtists: ");
    info.append(artists_line(&track.artists).as_str());
    info.append("\nAlbum: ");
    info.append(track.album.name.as_str());
    (info, spotify_url, track.name.clone())
}

/// The lines that are printed of one track, closed by a rule.
pub open spec fn lines_of_track(track: crate::spotify::TrackView) -> Seq<Seq<char>> {
    let head = seq![
        "Track: "@ + track.name,
        "Artists: "@ + joined(track.artists, ", "@),
        "Album: "@ + track.album.name,
    ];
    match spotify_link(track.external_urls) {
        Some(link) => head.push("Spotify URL: "@ + link).push(RULE@),
        None => head.push(RULE@),
    }
}

/// The lines that are printed of a list of tracks: a blank line and a rule,
/// then each track in turn.
pub open spec fn lines_of_tracks(tracks: Seq<crate::spotify::TrackView>) -> Seq<Seq<char>>
    decreases tracks.len(),
{
    if tracks.len() == 0 {
        seq![" "@, RULE@]
    } else {
        lines_of_tracks(tracks.drop_last()) + lines_of_track(tracks.last())
    }
}

fn push_line(lines: &mut Vec<String>, label: &str, value: &str)
    ensures
        views(*final(lines)) == views(*old(lines)).push(label@ + value@),
{
    let mut line = String::from_str(label);
    line.append(value);
    lines.push(line);
    assert(views(*lines) =~= views(*old(lines)).push(label@ + value@));
}

fn push_whole(lines: &mut Vec<String>, line: &str)
    ensures
        views(*final(lines)) == views(*old(lines)).push(line@),
{
    lines.push(String::from_str(line));
    assert(views(*lines) =~= views(*old(lines)).push(line@));
}

/// The lines that are printed of `tracks`.
pub fn track_info_lines(tracks: &Vec<Track>) -> (lines: Vec<String>)
    ensures
        views(lines) == lines_of_tracks(track_views(tracks@)),
{
    let mut lines: Vec<String> = Vec::new();
    push_whole(&mut lines, " ");
    push_whole(&mut lines, RULE);
    assert(views(lines) =~= seq![" "@, RULE@]);
    assert(track_views(tracks@).take(0) =~= Seq::empty());
    let mut i: usize = 0;
    while i < tracks.len()
        invariant
            i <= tracks.len(),
            views(lines) == lines_of_tracks(track_views(tracks@).take(i as int)),
        decreases tracks.len() - i,
    {
        let ghost before = track_views(tracks@).take(i as int);
        let ghost after = track_views(tracks@).take(i + 1);
        let ghost had = views(lines);
        proof {
            assert(after.drop_last() =~= before);
            assert(after.last() == tracks@[i as int]@);
        }
        let track = &tracks[i];
        push_line(&mut lines, "Track: ", track.name.as_str());
        push_line(&mut lines, "Artists: ", artists_line(&track.artists).as_str());
        push_line(&mut lines, "Album: ", track.album.name.as_str());
        match track.external_urls.get("spotify") {
            Some(link) => {
                push_line(&mut lines, "Spotify URL: ", link.as_str());
            },
            None => {},
        }
        push_whole(&mut lines, RULE);
        assert(views(lines) =~= had + lines_of_track(track@));
        i += 1;
    }
    assert(track_views(tracks@).take(tracks.len() as int) =~= track_views(tracks@));
    lines
}

/// The lines that are printed of an album, between two rules: its name, the
/// number of its tracks, its link if it has one, its date and its artists.
pub open spec fn lines_of_album(album: crate::spotify::AlbumView) -> Seq<Seq<char>> {
    let head = seq![
        ALBUM_RULE@,
        "專輯名: "@ + album.name,
        "專輯歌曲數: "@ + decimal(album.total_tracks as nat),
    ];
    let linked = match spotify_link(album.external_urls) {
        Some(link) => head.push("URL: "@ + link),
        None => head,
    };
    linked.push("發布日期: "@ + album.release_date).push(
        "歌手: "@ + joined(album.artists, ", "@),
    ).push(ALBUM_RULE@)
}

/// The lines that are printed of `album`.
pub fn album_info_lines(album: &Album) -> (lines: Vec<String>)
    ensures
        views(lines) == lines_of_album(album@),
{
    let mut lines: Vec<String> = Vec::new();
    push_whole(&mut lines, ALBUM_RULE);
    push_line(&mut lines, "專輯名: ", album.name.as_str());
    push_line(&mut lines, "專輯歌曲數: ", decimal_u32(album.total_tracks).as_str());
    match album.external_urls.get("spotify") {
        Some(link) => {
            push_line(&mut lines, "URL: ", link.as_str());
        },
        None => {},
    }
    push_line(&mut lines, "發布日期: ", album.release_date.as_str());
    push_line(&mut lines, "歌手: ", artists_line(&album.artists).as_str());
    push_whole(&mut lines, ALBUM_RULE);
    assert(views(lines) =~= lines_of_album(album@));
    lines
}

/// The identifier of the album that is linked, given what the search for
/// the shape of an album's link found.
pub open spec fn album_id_of(found: Result<Option<Seq<Option<Seq<char>>>>, Seq<char>>) -> Option<
    Seq<char>,
> {
    match found {
        Ok(Some(groups)) => if groups.len() > 1 {
            groups[1]
        } else {
            None
        },
        _ => None,
    }
}

/// The identifier of the album that is linked: the first group of what was
/// found. Without it the link is refused in the words of `BAD_ALBUM_LINK`.
pub fn album_id_from_captures(found: Result<Option<Vec<Option<String>>>, String>) -> (r: Result<
    String,
    String,
>)
    ensures
        match album_id_of(found_view(found)) {
            Some(id) => r matches Ok(s) && s@ == id,
            None => r matches Err(m) && m@ == BAD_ALBUM_LINK@,
        },
{
    match found {
        Ok(Some(groups)) => {
            if groups.len() > 1 {
                assert(groups_view(groups)[1] == opt_view(groups@[1]));
                match &groups[1] {
                    Some(id) => Ok(id.clone()),
                    None => Err(String::from_str(BAD_ALBUM_LINK)),
                }
            } else {
                Err(String::from_str(BAD_ALBUM_LINK))
            }
        },
        Ok(None) => Err(String::from_str(BAD_ALBUM_LINK)),
        Err(_) => Err(String::from_str(BAD_ALBUM_LINK)),
    }
}

/// The address of the record of the album that `url` links to.
pub fn album_lookup_url(url: &str) -> (r: Result<String, String>)
    ensures
        match album_id_of(regex_captures(ALBUM_LINK_PATTERN@, url@)) {
            Some(id) => r matches Ok(s) && s@ == "https://api.spotify.com/v1/albums/"@ + id,
            None => r matches Err(m) && m@ == BAD_ALBUM_LINK@,
        },
{
    match album_id_from_captures(captures(ALBUM_LINK_PATTERN, url)) {
        Ok(id) => {
            let mut api_url = String::from_str("https://api.spotify.com/v1/albums/");
            api_url.append(id.as_str());
            Ok(api_url)
        },
        Err(message) => Err(message),
    }
}

/// The address of one page of a keyword search for records of `kind`.
pub open spec fn page_url(term: Seq<char>, kind: Seq<char>, limit: u32, offset: u32) -> Seq<char> {
    SPOTIFY_API_BASE_URL@ + "/search?q="@ + term + "&type="@ + kind + "&limit="@ + decimal(
        limit as nat,
    ) + "&offset="@ + decimal(offset as nat)
}

/// The address of page `page` of a keyword search for records of `kind`,
/// with `limit` records to a page, pages counted from 1. There is none for
/// page 0, nor for a page that starts beyond what the catalog can count.
pub fn search_page_url(term: &str, kind: &str, page: u32, limit: u32) -> (r: Option<String>)
    ensures
        match r {
            Some(url) => page >= 1 && (page - 1) * limit <= u32::MAX && url@ == page_url(
                term@,
                kind@,
                limit,
                ((page - 1) * limit) as u32,
            ),
            None => page == 0 || (page - 1) * limit > u32::MAX,
        },
{
    match page_offset(page, limit) {
        Some(offset) => {
            let mut url = String::from_str(SPOTIFY_API_BASE_URL);
            url.append("/search?q=");
            url.append(term);
            url.append("&type=");
            url.append(kind);
            url.append("&limit=");
            url.append(decimal_u32(limit).as_str());
            url.append("&offset=");
            url.append(decimal_u32(offset).as_str());
            Some(url)
        },
        None => None,
    }
}

/// The tracks of an answer and the number of pages that the search fills.
/// An answer without a list of tracks is an empty answer.
pub fn track_page(result: SearchResult, limit: u32) -> (r: (Vec<Track>, u32))
    requires
        limit > 0,
    ensures
        match result.tracks {
            Some(tracks) => r.0@ == tracks.items@ && r.1 == page_count(
                tracks.total as nat,
                limit as nat,
            ),
            None => r.0@.len() == 0 && r.1 == 0,
        },
{
    match result.tracks {
        Some(tracks) => {
            let pages = total_pages(tracks.total, limit);
            (tracks.items, pages)
        },
        None => (Vec::new(), 0),
    }
}

/// The albums of an answer and the number of pages that the search fills,
/// counted from the number of albums that the catalog reports for the whole
/// search. An answer without a list of albums is an empty answer.
pub fn album_page(result: SearchResult, limit: u32) -> (r: (Vec<Album>, u32))
    requires
        limit > 0,
    ensures
        match result.albums {
            Some(albums) => r.0@ == albums.items@ && r.1 == page_count(
                albums.total as nat,
                limit as nat,
            ),
            None => r.0@.len() == 0 && r.1 == 0,
        },
{
    match result.albums {
        Some(albums) => {
            let pages = total_pages(albums.total, limit);
            (albums.items, pages)
        },
        None => (Vec::new(), 0),
    }
}

} // verus!
