use music_link::osu::{
    beatmapset_details, beatmapset_url, collect_cover_requests, details_from_members,
    ids_from_captures, osu_error_from, osu_token_request, parse_osu_url, print_beatmap_info_gui,
    search_query, Beatmap, Beatmapset, Covers, OsuError, SearchResponse, TokenResponse,
};
use music_link::token::AuthError;

fn covers(cover: Option<&str>) -> Covers {
    Covers {
        cover: cover.map(|c| c.to_string()),
        cover_2x: None,
        card: Some("card".to_string()),
        card_2x: None,
        list: None,
        list_2x: None,
        slimcover: None,
        slimcover_2x: None,
    }
}

fn beatmap(rating: &str, length: i32, version: &str) -> Beatmap {
    Beatmap {
        difficulty_rating: rating.to_string(),
        id: 1,
        mode: "osu".to_string(),
        status: "ranked".to_string(),
        total_length: length,
        user_id: 2,
        version: version.to_string(),
    }
}

fn set(title: &str, cover: Option<&str>, beatmaps: Vec<Beatmap>) -> Beatmapset {
    Beatmapset {
        beatmaps,
        id: 42,
        artist: "Camellia".to_string(),
        title: title.to_string(),
        creator: "mapper".to_string(),
        covers: covers(cover),
    }
}

#[test]
fn links_to_sets_and_beatmaps() {
    assert_eq!(
        parse_osu_url("https://osu.ppy.sh/beatmapsets/123456"),
        Some(("123456".to_string(), None))
    );
    assert_eq!(
        parse_osu_url("https://osu.ppy.sh/beatmapsets/123456#osu/789"),
        Some(("123456".to_string(), Some("789".to_string())))
    );
    assert_eq!(
        parse_osu_url("see https://osu.ppy.sh/beatmapsets/1#mania/2"),
        Some(("1".to_string(), Some("2".to_string())))
    );
    assert_eq!(parse_osu_url("https://osu.ppy.sh/beatmapsets/"), None);
    assert_eq!(parse_osu_url("https://osu.ppy.sh/beatmapsets/12/extra"), None);
    assert_eq!(parse_osu_url("https://osu.ppy.sh/beatmapsets/12#osu/"), None);
    assert_eq!(parse_osu_url("http://osu.ppy.sh/beatmapsets/12"), None);
    assert_eq!(parse_osu_url(""), None);
}

#[test]
fn numbers_from_groups() {
    let groups = |set: Option<&str>, beatmap: Option<&str>| {
        Ok(Some(vec![
            Some("whole".to_string()),
            set.map(|s| s.to_string()),
            Some("osu".to_string()),
            beatmap.map(|b| b.to_string()),
        ]))
    };
    assert_eq!(ids_from_captures(groups(Some("1"), Some("2"))), Some(("1".to_string(), Some("2".to_string()))));
    assert_eq!(ids_from_captures(groups(Some("1"), None)), Some(("1".to_string(), None)));
    assert_eq!(ids_from_captures(groups(None, Some("2"))), None);
    assert_eq!(ids_from_captures(Ok(None)), None);
    assert_eq!(ids_from_captures(Err("bad".to_string())), None);
    assert_eq!(ids_from_captures(Ok(Some(vec![Some("w".to_string())]))), None);
    assert_eq!(
        ids_from_captures(Ok(Some(vec![None, Some("7".to_string())]))),
        Some(("7".to_string(), None))
    );
}

#[test]
fn text_of_a_beatmap() {
    assert_eq!(
        beatmap("5.25", 125, "Insane").format_info(),
        "Difficulty: 5.25 | Mode: osu | Status: ranked\nLength: 2 min 5s | Version: Insane"
    );
    assert_eq!(
        beatmap("0.00", 0, "").format_info(),
        "Difficulty: 0.00 | Mode: osu | Status: ranked\nLength: 0 min 0s | Version: "
    );
    assert_eq!(
        beatmap("1.00", 59, "Easy").format_info(),
        "Difficulty: 1.00 | Mode: osu | Status: ranked\nLength: 0 min 59s | Version: Easy"
    );
    assert_eq!(
        beatmap("1.00", 3600, "Marathon").format_info(),
        "Difficulty: 1.00 | Mode: osu | Status: ranked\nLength: 60 min 0s | Version: Marathon"
    );
}

#[test]
fn lengths_below_zero_round_towards_zero() {
    assert_eq!(
        beatmap("1.00", -125, "x").format_info(),
        format!(
            "Difficulty: 1.00 | Mode: osu | Status: ranked\nLength: {} min {}s | Version: x",
            -125 / 60,
            -125 % 60
        )
    );
    assert_eq!(
        beatmap("1.00", -125, "x").format_info(),
        "Difficulty: 1.00 | Mode: osu | Status: ranked\nLength: -2 min -5s | Version: x"
    );
    assert_eq!(
        beatmap("1.00", i32::MIN, "x").format_info(),
        format!(
            "Difficulty: 1.00 | Mode: osu | Status: ranked\nLength: {} min {}s | Version: x",
            i32::MIN / 60,
            i32::MIN % 60
        )
    );
    assert_eq!(
        beatmap("1.00", i32::MAX, "x").format_info(),
        format!(
            "Difficulty: 1.00 | Mode: osu | Status: ranked\nLength: {} min {}s | Version: x",
            i32::MAX / 60,
            i32::MAX % 60
        )
    );
}

#[test]
fn what_is_shown_of_a_set() {
    let s = set("Exit This Earth", Some("c"), vec![beatmap("5.25", 125, "Insane"), beatmap("2.10", 61, "Normal")]);
    let info = print_beatmap_info_gui(&s);
    assert_eq!(info.title, "Exit This Earth");
    assert_eq!(info.artist, "Camellia");
    assert_eq!(info.creator, "mapper");
    assert_eq!(
        info.beatmaps,
        vec![
            "Difficulty: 5.25 | Mode: osu | Status: ranked\nLength: 2 min 5s | Version: Insane",
            "Difficulty: 2.10 | Mode: osu | Status: ranked\nLength: 1 min 1s | Version: Normal",
        ]
    );
    let info = set("Empty", None, vec![]).format_info();
    assert!(info.beatmaps.is_empty());
    let copy = s.clone();
    assert_eq!(copy.title, "Exit This Earth");
    assert_eq!(copy.beatmaps.len(), 2);
    assert_eq!(copy.covers.card, Some("card".to_string()));
}

#[test]
fn covers_of_the_sets_that_have_one() {
    let sets = vec![
        set("a", Some("https://c/a.jpg"), vec![]),
        set("b", None, vec![]),
        set("c", Some("https://c/c.jpg"), vec![]),
    ];
    let requests = collect_cover_requests(&sets);
    assert_eq!(requests.len(), 2);
    assert_eq!((requests[0].index, requests[0].url.as_str()), (0, "https://c/a.jpg"));
    // The third set keeps its place although the second has no cover.
    assert_eq!((requests[1].index, requests[1].url.as_str()), (2, "https://c/c.jpg"));
    assert!(collect_cover_requests(&Vec::new()).is_empty());
    assert!(collect_cover_requests(&vec![set("b", None, vec![])]).is_empty());
}

#[test]
fn artist_and_title_of_a_record() {
    assert_eq!(
        beatmapset_details("{\"artist\":\"Camellia\",\"title\":\"Exit This Earth\",\"id\":1}").unwrap(),
        ("Camellia".to_string(), "Exit This Earth".to_string())
    );
    assert_eq!(
        beatmapset_details("{\"title\":7}").unwrap(),
        ("Unknown Artist".to_string(), "Unknown Title".to_string())
    );
    assert_eq!(
        beatmapset_details("[]").unwrap(),
        ("Unknown Artist".to_string(), "Unknown Title".to_string())
    );
    assert!(matches!(beatmapset_details("{"), Err(OsuError::RequestError(_))));
    assert!(matches!(
        details_from_members(Ok(None), Err("eof".to_string())),
        Err(OsuError::RequestError(m)) if m == "eof"
    ));
    assert!(matches!(
        details_from_members(Err("first".to_string()), Err("second".to_string())),
        Err(OsuError::RequestError(m)) if m == "first"
    ));
    assert_eq!(
        details_from_members(Ok(Some("a".to_string())), Ok(None)).unwrap(),
        ("a".to_string(), "Unknown Title".to_string())
    );
}

#[test]
fn requests_to_the_beatmap_catalog() {
    let r = osu_token_request("7", "s3");
    assert_eq!(r.url, "https://osu.ppy.sh/oauth/token");
    assert_eq!(r.form[3], ("scope".to_string(), "public".to_string()));
    assert_eq!(r.form[0], ("client_id".to_string(), "7".to_string()));
    assert_eq!(beatmapset_url("123"), "https://osu.ppy.sh/api/v2/beatmapsets/123");
    assert_eq!(search_query("a b"), ("query".to_string(), "a b".to_string()));
}

#[test]
fn errors_of_the_beatmap_catalog() {
    assert_eq!(OsuError::RequestError("x".to_string()).describe(), "request error: x");
    assert_eq!(OsuError::JsonError("x".to_string()).describe(), "JSON parse error: x");
    assert_eq!(OsuError::ConfigError("x".to_string()).describe(), "configuration error: x");
    assert_eq!(OsuError::Other("x".to_string()).describe(), "other error: x");
    // The three kinds of failure stay apart.
    assert!(matches!(
        osu_error_from(AuthError::TokenRejected(401, "no".to_string())),
        OsuError::Other(m) if m == "the catalog answered with status 401: no"
    ));
    assert!(matches!(osu_error_from(AuthError::Transport("t".to_string())), OsuError::RequestError(m) if m == "t"));
    assert!(matches!(osu_error_from(AuthError::Decode("d".to_string())), OsuError::JsonError(m) if m == "d"));
    assert!(matches!(osu_error_from(AuthError::Config("c".to_string())), OsuError::ConfigError(m) if m == "c"));
}

#[test]
fn answers_keep_what_they_were_given() {
    assert_eq!(TokenResponse::new("abc".to_string()).access_token(), "abc");
    let r = SearchResponse::new(vec![set("a", None, vec![])]);
    let sets = r.into_beatmapsets();
    assert_eq!(sets.len(), 1);
    assert_eq!(sets[0].title, "a");
}
