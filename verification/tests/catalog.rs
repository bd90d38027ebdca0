use music_link::links::LinkMap;
use music_link::spotify::{
    any_cover_missing, apply_playing_update, classify_url, is_valid_spotify_url, now_playing,
    open_targets, page_offset, print_track_info_gui, protocol_associated, search_url,
    shell_launched, spotify_error_from, spotify_token_request, total_pages, track_url,
    tracks_with_cover, with_cover, Album, Artist, CurrentlyPlaying, Image, OpenUrlError,
    SearchResult, SpotifyError, SpotifyUrlStatus, Track, TrackInfo, Tracks,
};
use music_link::spotify_search;
use music_link::spotify::search_answer;
use music_link::token::{AuthError, HttpOutcome};

fn artist(name: &str) -> Artist {
    Artist { name: name.to_string() }
}

fn album(name: &str, covers: Vec<&str>) -> Album {
    Album {
        album_type: "album".to_string(),
        total_tracks: 12,
        external_urls: LinkMap::new(),
        id: "a1".to_string(),
        images: covers
            .into_iter()
            .map(|u| Image { url: u.to_string(), height: 640, width: 640 })
            .collect(),
        name: name.to_string(),
        release_date: "2015-06-22".to_string(),
        artists: vec![artist("Cut Copy")],
    }
}

fn track(name: &str, artists: Vec<&str>, link: Option<&str>, covers: Vec<&str>) -> Track {
    let mut urls = LinkMap::new();
    if let Some(l) = link {
        urls.insert("spotify".to_string(), l.to_string());
    }
    Track {
        name: name.to_string(),
        artists: artists.into_iter().map(artist).collect(),
        external_urls: urls,
        album: album("Zonoscope", covers),
    }
}

#[test]
fn complete_links_are_valid() {
    for url in [
        "https://open.spotify.com/track/11dFghVXANMlKmJXsNCbNl",
        "http://open.spotify.com/album/4aawyAB9vmqN3uQ7FjRGTy",
        "https://open.spotify.com/playlist/37i9dQZF1DXcBWIGoYBM5M?si=abc&x=1",
        "https://open.spotify.com/track/x",
    ] {
        assert_eq!(is_valid_spotify_url(url).unwrap(), SpotifyUrlStatus::Valid);
    }
}

#[test]
fn links_that_only_begin_well_are_incomplete() {
    for url in [
        "https://open.spotify.com/",
        "https://open.spotify.com/track/",
        "https://open.spotify.com/artist/123",
        "https://open.spotify.com/track/abc def",
        "https://open.spotify.com/track/abc?x\ny",
    ] {
        assert_eq!(is_valid_spotify_url(url).unwrap(), SpotifyUrlStatus::Incomplete);
    }
}

#[test]
fn other_text_is_invalid() {
    for url in ["", "hello", "http://open.spotify.com/", "xhttps://open.spotify.com/track/abc"] {
        assert_eq!(is_valid_spotify_url(url).unwrap(), SpotifyUrlStatus::Invalid);
    }
    assert_eq!(classify_url(true, "anything"), SpotifyUrlStatus::Valid);
    assert_eq!(classify_url(false, "https://open.spotify.com/"), SpotifyUrlStatus::Incomplete);
    assert_eq!(classify_url(false, "hello"), SpotifyUrlStatus::Invalid);
}

#[test]
fn direct_links_name_one_record() {
    assert!(spotify_search::is_valid_spotify_url(
        "https://open.spotify.com/track/11dFghVXANMlKmJXsNCbNl"
    ));
    assert!(spotify_search::is_valid_spotify_url(
        "see https://open.spotify.com/track/11dFghVXANMlKmJXsNCbNl?si=1"
    ));
    assert!(spotify_search::is_valid_spotify_url("https://open.spotify.com/album/"));
    assert!(spotify_search::is_valid_spotify_url("http://open.spotify.com/album/xyz"));
    assert!(!spotify_search::is_valid_spotify_url("https://open.spotify.com/track/short"));
    assert!(!spotify_search::is_valid_spotify_url("https://open.spotify.com/track/"));
    assert!(!spotify_search::is_valid_spotify_url("https://open.spotify.com/playlist/abc"));
    assert!(!spotify_search::is_valid_spotify_url("daft punk"));
    assert!(!spotify_search::is_valid_spotify_url(""));
}

#[test]
fn direct_link_verdict_from_groups() {
    let found = |kind: Option<&str>, id: Option<&str>| {
        Ok(Some(vec![
            Some("whole".to_string()),
            kind.map(|k| k.to_string()),
            id.map(|i| i.to_string()),
        ]))
    };
    assert!(spotify_search::link_from_captures(found(Some("track"), Some("0123456789012345678901"))));
    assert!(!spotify_search::link_from_captures(found(Some("track"), Some("012345678901234567890"))));
    assert!(!spotify_search::link_from_captures(found(Some("track"), None)));
    assert!(spotify_search::link_from_captures(found(Some("album"), None)));
    assert!(!spotify_search::link_from_captures(found(Some("playlist"), None)));
    assert!(!spotify_search::link_from_captures(found(None, None)));
    assert!(!spotify_search::link_from_captures(Ok(None)));
    assert!(!spotify_search::link_from_captures(Ok(Some(vec![Some("x".to_string())]))));
    assert!(!spotify_search::link_from_captures(Err("bad pattern".to_string())));
}

#[test]
fn pages_are_counted_by_rounding_up() {
    assert_eq!(total_pages(25, 10), 3);
    assert_eq!(total_pages(0, 10), 0);
    assert_eq!(total_pages(0, 1), 0);
    assert_eq!(total_pages(10, 10), 1);
    assert_eq!(total_pages(11, 10), 2);
    assert_eq!(total_pages(1, 10), 1);
    assert_eq!(total_pages(u32::MAX, 1), u32::MAX);
    assert_eq!(total_pages(u32::MAX, u32::MAX), 1);
    assert_eq!(total_pages(u32::MAX, 2), 2147483648);
}

#[test]
fn page_offsets() {
    assert_eq!(page_offset(1, 10), Some(0));
    assert_eq!(page_offset(3, 10), Some(20));
    assert_eq!(page_offset(0, 10), None);
    assert_eq!(page_offset(u32::MAX, 2), None);
    assert_eq!(page_offset(5, 0), Some(0));
}

#[test]
fn track_info_for_the_window() {
    let t = track("Take Me Over", vec!["Cut Copy", "Someone"], Some("https://open.spotify.com/track/x"), vec![]);
    let (info, link) = print_track_info_gui(&t);
    assert_eq!(info.name, "Take Me Over");
    assert_eq!(info.artists, "Cut Copy, Someone");
    assert_eq!(info.album, "Zonoscope");
    assert_eq!(link, Some("https://open.spotify.com/track/x".to_string()));
    let (info, link) = print_track_info_gui(&track("Solo", vec![], None, vec![]));
    assert_eq!(info.artists, "");
    assert_eq!(link, None);
}

#[test]
fn track_info_for_the_console() {
    let t = track("Take Me Over", vec!["Cut Copy", "Someone"], Some("https://l"), vec![]);
    let (text, link, name) = spotify_search::print_track_info_gui(&t);
    assert_eq!(text, "Track: Take Me Over\nArtists: Cut Copy, Someone\nAlbum: Zonoscope");
    assert_eq!(link, Some("https://l".to_string()));
    assert_eq!(name, "Take Me Over");
}

#[test]
fn printed_lines_of_tracks() {
    let tracks = vec![
        track("One", vec!["A"], Some("https://one"), vec![]),
        track("Two", vec!["B", "C"], None, vec![]),
    ];
    let lines = spotify_search::track_info_lines(&tracks);
    assert_eq!(
        lines,
        vec![
            " ",
            "------------------------",
            "Track: One",
            "Artists: A",
            "Album: Zonoscope",
            "Spotify URL: https://one",
            "------------------------",
            "Track: Two",
            "Artists: B, C",
            "Album: Zonoscope",
            "------------------------",
        ]
    );
    assert_eq!(spotify_search::track_info_lines(&Vec::new()), vec![" ", "------------------------"]);
}

#[test]
fn printed_lines_of_an_album() {
    let mut a = album("Zonoscope", vec![]);
    a.external_urls.insert("spotify".to_string(), "https://album".to_string());
    let lines = spotify_search::album_info_lines(&a);
    assert_eq!(
        lines,
        vec![
            "---------------------------------------------",
            "專輯名: Zonoscope",
            "專輯歌曲數: 12",
            "URL: https://album",
            "發布日期: 2015-06-22",
            "歌手: Cut Copy",
            "---------------------------------------------",
        ]
    );
    let lines = spotify_search::album_info_lines(&album("Bare", vec![]));
    assert_eq!(lines.len(), 6);
    assert_eq!(lines[3], "發布日期: 2015-06-22");
}

#[test]
fn album_links() {
    assert_eq!(
        spotify_search::album_lookup_url("https://open.spotify.com/album/4aawyAB9vmqN3uQ7FjRGTy?si=1"),
        Ok("https://api.spotify.com/v1/albums/4aawyAB9vmqN3uQ7FjRGTy".to_string())
    );
    assert_eq!(
        spotify_search::album_lookup_url("https://open.spotify.com/track/4aawyAB9"),
        Err("URL疑似錯誤，請重新輸入".to_string())
    );
    assert_eq!(
        spotify_search::album_id_from_captures(Ok(Some(vec![Some("w".to_string()), None]))),
        Err("URL疑似錯誤，請重新輸入".to_string())
    );
    assert_eq!(
        spotify_search::album_id_from_captures(Err("bad".to_string())),
        Err("URL疑似錯誤，請重新輸入".to_string())
    );
}

#[test]
fn search_addresses() {
    assert_eq!(
        search_url("daft punk", 10, 0),
        "https://api.spotify.com/v1/search?q=daft punk&type=track&limit=10&offset=0"
    );
    assert_eq!(track_url("11dFghVXANMlKmJXsNCbNl"), "https://api.spotify.com/v1/tracks/11dFghVXANMlKmJXsNCbNl");
    assert_eq!(
        spotify_search::search_page_url("abba", "album", 3, 20),
        Some("https://api.spotify.com/v1/search?q=abba&type=album&limit=20&offset=40".to_string())
    );
    assert_eq!(
        spotify_search::search_page_url("abba", "track", 1, 5),
        Some("https://api.spotify.com/v1/search?q=abba&type=track&limit=5&offset=0".to_string())
    );
    assert_eq!(spotify_search::search_page_url("abba", "track", 0, 5), None);
    assert_eq!(spotify_search::search_page_url("abba", "track", u32::MAX, 5), None);
}

#[test]
fn rows_of_a_search_answer() {
    let result = SearchResult {
        tracks: Some(Tracks {
            items: vec![
                track("One", vec!["A"], Some("https://one"), vec!["https://c1", "https://c2"]),
                track("Two", vec!["B"], None, vec![]),
            ],
            total: 25,
        }),
        albums: None,
    };
    let (rows, pages) = tracks_with_cover(&result, 10);
    assert_eq!(pages, 3);
    assert_eq!(rows.len(), 2);
    assert_eq!(rows[0].name, "One");
    assert_eq!(rows[0].album_name, "Zonoscope");
    assert_eq!(rows[0].cover_url, Some("https://c1".to_string()));
    assert_eq!(rows[0].external_urls.get("spotify"), Some(&"https://one".to_string()));
    assert_eq!(rows[0].artists[0].name, "A");
    assert_eq!(rows[1].cover_url, None);
    assert!(any_cover_missing(&rows));
    assert!(!any_cover_missing(&vec![with_cover(&track("x", vec![], None, vec!["c"]))]));
    assert!(!any_cover_missing(&Vec::new()));
}

#[test]
fn answer_without_a_collection_is_empty() {
    let result = SearchResult { tracks: None, albums: None };
    let (rows, pages) = tracks_with_cover(&result, 10);
    assert!(rows.is_empty());
    assert_eq!(pages, 0);
    let (tracks, pages) = spotify_search::track_page(SearchResult { tracks: None, albums: None }, 10);
    assert!(tracks.is_empty());
    assert_eq!(pages, 0);
    let (albums, pages) =
        spotify_search::album_page(SearchResult { tracks: None, albums: None }, 10);
    assert!(albums.is_empty());
    assert_eq!(pages, 0);
}

#[test]
fn pages_of_the_console_searches() {
    // 25 albums are reported, 10 of them are on this page, 10 go to a page.
    let ten: Vec<Album> = (0..10).map(|_| album("X", vec![])).collect();
    let albums = music_link::spotify::Albums { items: ten, total: 25 };
    let (albums, pages) =
        spotify_search::album_page(SearchResult { tracks: None, albums: Some(albums) }, 10);
    assert_eq!(albums.len(), 10);
    assert_eq!(pages, 3);
    let albums = music_link::spotify::Albums { items: Vec::new(), total: 0 };
    let (albums, pages) =
        spotify_search::album_page(SearchResult { tracks: None, albums: Some(albums) }, 10);
    assert!(albums.is_empty());
    assert_eq!(pages, 0);
    let tracks = Tracks { items: vec![track("One", vec!["A"], None, vec![])], total: 41 };
    let (tracks, pages) =
        spotify_search::track_page(SearchResult { tracks: Some(tracks), albums: None }, 20);
    assert_eq!(tracks.len(), 1);
    assert_eq!(pages, 3);
}

#[test]
fn answers_that_are_no_success_are_rejected() {
    assert_eq!(
        search_answer(HttpOutcome::Answered { status: 200, body: "{}".to_string() }).unwrap(),
        "{}"
    );
    assert!(matches!(
        search_answer(HttpOutcome::Answered { status: 401, body: "expired".to_string() }),
        Err(SpotifyError::ApiError(m)) if m == "the catalog answered with status 401: expired"
    ));
    assert!(matches!(
        search_answer(HttpOutcome::Failed("dns".to_string())),
        Err(SpotifyError::RequestError(m)) if m == "dns"
    ));
    assert!(matches!(
        music_link::osu::search_answer(HttpOutcome::Answered { status: 503, body: "".to_string() }),
        Err(music_link::osu::OsuError::Other(m)) if m == "the catalog answered with status 503: "
    ));
    assert!(matches!(
        music_link::osu::search_answer(HttpOutcome::Failed("reset".to_string())),
        Err(music_link::osu::OsuError::RequestError(m)) if m == "reset"
    ));
    assert_eq!(
        music_link::osu::search_answer(HttpOutcome::Answered { status: 204, body: "x".to_string() }).unwrap(),
        "x"
    );
}

#[test]
fn targets_for_opening_a_track() {
    let t = open_targets("https://open.spotify.com/track/11dFghVXANMlKmJXsNCbNl").unwrap();
    assert_eq!(t.spotify_uri, "spotify:track:11dFghVXANMlKmJXsNCbNl");
    assert_eq!(t.web_url, "https://open.spotify.com/track/11dFghVXANMlKmJXsNCbNl");
    let t = open_targets("abc").unwrap();
    assert_eq!(t.spotify_uri, "spotify:track:abc");
    assert!(matches!(open_targets(""), Err(OpenUrlError::EmptyUrl)));
    assert!(matches!(open_targets("https://open.spotify.com/track/"), Err(OpenUrlError::InvalidFormat)));
    assert!(matches!(open_targets("/"), Err(OpenUrlError::InvalidFormat)));
}

#[test]
fn shell_and_registry_codes() {
    assert!(!shell_launched(0));
    assert!(!shell_launched(32));
    assert!(shell_launched(33));
    assert_eq!(protocol_associated(0), Some(true));
    assert_eq!(protocol_associated(2), Some(false));
    assert_eq!(protocol_associated(5), None);
    assert_eq!(protocol_associated(-1), None);
}

#[test]
fn what_is_playing() {
    let t = track("Take Me Over", vec!["Cut Copy"], Some("https://l"), vec![]);
    let p = now_playing(&t);
    assert_eq!(p.track_info.name, "Take Me Over");
    assert_eq!(p.track_info.artists, "Cut Copy");
    assert_eq!(p.track_info.album, "Zonoscope");
    assert_eq!(p.spotify_url, Some("https://l".to_string()));
}

#[test]
fn playing_updates() {
    let playing = CurrentlyPlaying {
        track_info: TrackInfo { name: "n".to_string(), artists: "a".to_string(), album: "b".to_string() },
        spotify_url: None,
    };
    let mut current: Option<CurrentlyPlaying> = None;
    assert!(apply_playing_update(&mut current, Ok(Some(playing.clone()))).is_ok());
    assert_eq!(current.as_ref().unwrap().track_info.name, "n");
    assert_eq!(
        apply_playing_update(&mut current, Err("status 401: InvalidToken".to_string())),
        Err("the token is invalid: authorize again".to_string())
    );
    assert!(current.is_some());
    assert_eq!(
        apply_playing_update(&mut current, Err("network down".to_string())),
        Err("network down".to_string())
    );
    assert!(current.is_some());
    assert!(apply_playing_update(&mut current, Ok(None)).is_ok());
    assert!(current.is_none());
}

#[test]
fn errors_in_words() {
    assert_eq!(SpotifyError::AccessTokenError("x".to_string()).describe(), "failed to get access token: x");
    assert_eq!(SpotifyError::RequestError("x".to_string()).describe(), "request error: x");
    assert_eq!(SpotifyError::JsonError("x".to_string()).describe(), "JSON parse error: x");
    assert_eq!(SpotifyError::IoError("x".to_string()).describe(), "IO error: x");
    assert_eq!(SpotifyError::UrlParseError("x".to_string()).describe(), "URL parse error: x");
    assert_eq!(SpotifyError::ApiError("x".to_string()).describe(), "Spotify API error: x");
    assert_eq!(SpotifyError::AuthorizationError("x".to_string()).describe(), "authorization error: x");
}

#[test]
fn token_failures_of_the_track_catalog() {
    // The three kinds of failure stay apart.
    assert!(matches!(
        spotify_error_from(AuthError::TokenRejected(400, "bad".to_string())),
        SpotifyError::AccessTokenError(m) if m == "the catalog answered with status 400: bad"
    ));
    assert!(matches!(
        spotify_error_from(AuthError::Transport("dns".to_string())),
        SpotifyError::RequestError(m) if m == "dns"
    ));
    assert!(matches!(
        spotify_error_from(AuthError::Decode("eof".to_string())),
        SpotifyError::JsonError(m) if m == "eof"
    ));
    assert!(matches!(
        spotify_error_from(AuthError::Config("no file".to_string())),
        SpotifyError::IoError(m) if m == "no file"
    ));
    let r = spotify_token_request("id", "secret");
    assert_eq!(r.url, "https://accounts.spotify.com/api/token");
    assert_eq!(r.body, "grant_type=client_credentials");
}
