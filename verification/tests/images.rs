use music_link::images::{
    cover_verdict, decode, entry_from_decoded, fetch_verdict, holds, load_all, number_requests,
    FetchOutcome, ImageEntry, ImagePipeline, ImageRequest, IndexCache,
};
use music_link::osu::load_osu_covers;

/// A picture of the size given, every pixel of one colour, as PNG bytes.
fn png(width: u32, height: u32, colour: [u8; 4]) -> Vec<u8> {
    let picture = image::RgbaImage::from_pixel(width, height, image::Rgba(colour));
    let mut bytes = std::io::Cursor::new(Vec::new());
    picture.write_to(&mut bytes, image::ImageOutputFormat::Png).unwrap();
    bytes.into_inner()
}

fn at(index: usize, url: &str) -> ImageRequest {
    ImageRequest { index, url: url.to_string() }
}

fn ok(bytes: Vec<u8>) -> FetchOutcome {
    FetchOutcome::Answered { status: 200, bytes }
}

#[test]
fn entry_holds_four_samples_for_each_pixel() {
    let e = ImageEntry::new(vec![1, 2, 3, 4, 5, 6, 7, 8], 2, 1).unwrap();
    assert_eq!(e.width(), 2);
    assert_eq!(e.height(), 1);
    assert_eq!(e.pixels(), &vec![1, 2, 3, 4, 5, 6, 7, 8]);
    assert!(ImageEntry::new(vec![1, 2, 3, 4, 5, 6, 7], 2, 1).is_none());
    assert!(ImageEntry::new(vec![], 0, 5).is_some());
    assert!(ImageEntry::new(vec![0; 4], u32::MAX, u32::MAX).is_none());
    let copy = e.duplicate();
    assert_eq!(copy.pixels(), e.pixels());
    assert_eq!(copy.width(), 2);
}

#[test]
fn decoding_gives_rgba_samples() {
    let e = decode(&png(2, 3, [10, 20, 30, 255])).unwrap();
    assert_eq!(e.width(), 2);
    assert_eq!(e.height(), 3);
    assert_eq!(e.pixels().len(), 24);
    assert_eq!(&e.pixels()[0..4], &[10, 20, 30, 255]);
    assert_eq!(&e.pixels()[20..24], &[10, 20, 30, 255]);
}

#[test]
fn bytes_that_are_no_picture_are_refused() {
    let reason = decode(&vec![1, 2, 3]).unwrap_err();
    assert!(reason.starts_with("decoding the picture failed: "));
    assert!(decode(&Vec::new()).is_err());
    assert_eq!(
        entry_from_decoded(Ok((2, 2, vec![0; 15]))).unwrap_err(),
        "the decoded buffer does not fill the picture"
    );
    assert_eq!(
        entry_from_decoded(Err("bad magic".to_string())).unwrap_err(),
        "decoding the picture failed: bad magic"
    );
    assert_eq!(entry_from_decoded(Ok((1, 1, vec![9, 8, 7, 6]))).unwrap().pixels(), &vec![9, 8, 7, 6]);
}

#[test]
fn verdict_of_each_kind_of_outcome() {
    assert_eq!(fetch_verdict(&ok(png(1, 1, [1, 2, 3, 4]))).unwrap().pixels(), &vec![1, 2, 3, 4]);
    assert_eq!(
        fetch_verdict(&FetchOutcome::Failed("timeout".to_string())).unwrap_err(),
        "sending the request failed: timeout"
    );
    assert_eq!(
        fetch_verdict(&FetchOutcome::Answered { status: 404, bytes: png(1, 1, [0; 4]) }).unwrap_err(),
        "loading the cover failed with status 404"
    );
    assert!(fetch_verdict(&ok(vec![0, 1])).unwrap_err().starts_with("decoding the picture failed: "));
    assert_eq!(
        cover_verdict(
            "https://c/1.jpg",
            fetch_verdict(&FetchOutcome::Answered { status: 500, bytes: vec![] })
        )
        .unwrap_err(),
        "loading the cover failed with status 500 (address: https://c/1.jpg)"
    );
}

#[test]
fn same_address_is_queued_once() {
    let mut p = ImagePipeline::new();
    assert!(p.submit("https://c/1.jpg"));
    assert!(!p.submit("https://c/1.jpg"));
    assert_eq!(p.pending(), 1);
    assert!(p.knows("https://c/1.jpg"));
    assert!(!p.knows("https://c/2.jpg"));

    // It is handed out once, and not queued again while it is being fetched.
    assert_eq!(p.next_fetch(), Some("https://c/1.jpg".to_string()));
    assert_eq!(p.pending(), 0);
    assert!(!p.submit("https://c/1.jpg"));
    assert_eq!(p.next_fetch(), None);
    assert_eq!(p.pending(), 0);

    // Nor once it is loaded.
    p.complete_fetch("https://c/1.jpg".to_string(), &ok(png(1, 1, [5, 6, 7, 8])));
    assert!(!p.submit("https://c/1.jpg"));
    assert_eq!(p.pending(), 0);
    assert_eq!(p.next_fetch(), None);
    assert_eq!(p.get("https://c/1.jpg").unwrap().pixels(), &vec![5, 6, 7, 8]);
}

#[test]
fn ticks_take_the_newest_address_one_at_a_time() {
    let mut p = ImagePipeline::new();
    assert_eq!(p.next_fetch(), None);
    assert!(p.submit("a"));
    assert!(p.submit("b"));
    assert!(p.submit("c"));
    assert_eq!(p.pending(), 3);
    assert_eq!(p.next_fetch(), Some("c".to_string()));
    // While one fetch is under way the tick does nothing.
    assert_eq!(p.next_fetch(), None);
    assert_eq!(p.pending(), 2);
    p.complete("c".to_string(), Err("gone".to_string()));
    assert_eq!(p.next_fetch(), Some("b".to_string()));
    p.complete("b".to_string(), Ok(ImageEntry::new(vec![0; 4], 1, 1).unwrap()));
    assert_eq!(p.next_fetch(), Some("a".to_string()));
    p.complete("a".to_string(), Ok(ImageEntry::new(vec![1; 4], 1, 1).unwrap()));
    assert_eq!(p.next_fetch(), None);
    assert_eq!(p.pending(), 0);
}

#[test]
fn an_address_loaded_in_the_meantime_is_skipped() {
    let mut p = ImagePipeline::new();
    assert!(p.submit("a"));
    p.complete("a".to_string(), Ok(ImageEntry::new(vec![0; 4], 1, 1).unwrap()));
    assert_eq!(p.pending(), 1);
    assert_eq!(p.next_fetch(), None);
    assert_eq!(p.pending(), 0);
    assert!(p.get("a").is_some());
}

#[test]
fn a_failed_fetch_is_recorded_and_dropped() {
    let mut p = ImagePipeline::new();
    assert!(p.submit("good"));
    assert!(p.submit("bad"));
    assert_eq!(p.next_fetch(), Some("bad".to_string()));
    p.complete_fetch("bad".to_string(), &FetchOutcome::Answered { status: 404, bytes: vec![] });
    assert!(p.get("bad").is_none());
    assert!(!p.take_repaint());
    assert_eq!(
        p.errors(),
        &vec![("bad".to_string(), "loading the cover failed with status 404".to_string())]
    );
    // The pipeline goes on with the next address.
    assert_eq!(p.next_fetch(), Some("good".to_string()));
    p.complete_fetch("good".to_string(), &ok(png(1, 2, [9, 9, 9, 9])));
    assert_eq!(p.get("good").unwrap().height(), 2);
    assert_eq!(p.errors().len(), 1);
    // A dropped address may be submitted anew.
    assert!(p.submit("bad"));
}

#[test]
fn a_loaded_picture_asks_for_one_repaint() {
    let mut p = ImagePipeline::new();
    assert!(!p.take_repaint());
    p.submit("a");
    assert!(!p.take_repaint());
    p.next_fetch();
    p.complete("a".to_string(), Ok(ImageEntry::new(vec![0; 4], 1, 1).unwrap()));
    assert!(p.take_repaint());
    assert!(!p.take_repaint());
    // A newer picture replaces the one held under the same address.
    p.complete("a".to_string(), Ok(ImageEntry::new(vec![7; 8], 2, 1).unwrap()));
    assert_eq!(p.get("a").unwrap().width(), 2);
    assert!(p.take_repaint());
}

#[test]
fn one_failure_in_a_batch_of_five() {
    let batch = vec![
        (at(0, "u1"), fetch_verdict(&ok(png(1, 1, [1, 1, 1, 1])))),
        (at(1, "u2"), fetch_verdict(&ok(png(2, 1, [2, 2, 2, 2])))),
        (at(2, "u3"), fetch_verdict(&FetchOutcome::Answered { status: 404, bytes: b"not found".to_vec() })),
        (at(3, "u4"), fetch_verdict(&ok(png(1, 2, [4, 4, 4, 4])))),
        (at(4, "u5"), fetch_verdict(&ok(png(3, 3, [5, 5, 5, 5])))),
    ];
    let report = load_all(batch);
    assert_eq!(report.loaded.len(), 4);
    assert_eq!(report.errors, vec!["loading the cover failed with status 404 (address: u3)"]);
    let places: Vec<usize> = report.loaded.iter().map(|c| c.index).collect();
    assert_eq!(places, vec![0, 1, 3, 4]);
    assert_eq!(report.loaded[2].entry.height(), 2);
    assert_eq!(&report.loaded[3].entry.pixels()[0..4], &[5, 5, 5, 5]);

    let mut cache = IndexCache::new();
    for cover in report.loaded {
        cache.store(cover.index, cover.entry);
    }
    assert!(cache.get(0).is_some());
    assert!(cache.get(1).is_some());
    assert!(cache.get(2).is_none());
    assert!(cache.get(3).is_some());
    assert_eq!(cache.get(4).unwrap().width(), 3);
    assert!(cache.take_repaint());
    assert!(!cache.take_repaint());

    // A new search starts with no covers.
    cache.clear();
    assert!(cache.get(0).is_none());
    assert!(cache.get(4).is_none());
    assert!(cache.take_repaint());
}

#[test]
fn a_failed_cover_is_recorded_and_no_error_is_raised() {
    let batch = vec![
        ("u1".to_string(), fetch_verdict(&ok(png(1, 1, [1, 1, 1, 1])))),
        ("u2".to_string(), fetch_verdict(&ok(png(2, 1, [2, 2, 2, 2])))),
        ("u3".to_string(), fetch_verdict(&FetchOutcome::Answered { status: 404, bytes: b"not found".to_vec() })),
        ("u4".to_string(), fetch_verdict(&ok(png(1, 2, [4, 4, 4, 4])))),
        ("u5".to_string(), fetch_verdict(&ok(png(3, 3, [5, 5, 5, 5])))),
    ];
    // The batch ends with a report; whatever failed is a line of it.
    let report = load_osu_covers(batch);
    let places: Vec<usize> = report.loaded.iter().map(|c| c.index).collect();
    assert_eq!(places, vec![0, 1, 3, 4]);
    assert_eq!(report.errors, vec!["loading the cover failed with status 404 (address: u3)"]);
    assert_eq!(report.loaded[3].entry.width(), 3);
}

#[test]
fn batches_of_any_outcome_end_with_a_report() {
    let none: Vec<(String, Result<ImageEntry, String>)> = Vec::new();
    let report = load_osu_covers(none);
    assert!(report.loaded.is_empty() && report.errors.is_empty());

    let batch = vec![
        ("u1".to_string(), fetch_verdict(&FetchOutcome::Failed("dns".to_string()))),
        ("u2".to_string(), fetch_verdict(&ok(png(1, 1, [0, 0, 0, 0])))),
        ("u3".to_string(), fetch_verdict(&ok(vec![1, 2, 3]))),
    ];
    let report = load_osu_covers(batch);
    assert_eq!(report.loaded.len(), 1);
    assert_eq!(report.loaded[0].index, 1);
    assert_eq!(report.errors.len(), 2);
    assert_eq!(report.errors[0], "sending the request failed: dns (address: u1)");
    assert!(report.errors[1].starts_with("decoding the picture failed: "));
    assert!(report.errors[1].ends_with(" (address: u3)"));

    // Every fetch may fail, and the batch still ends with a report.
    let batch = vec![
        ("u1".to_string(), fetch_verdict(&FetchOutcome::Failed("dns".to_string()))),
        ("u2".to_string(), fetch_verdict(&FetchOutcome::Answered { status: 500, bytes: vec![] })),
    ];
    let report = load_osu_covers(batch);
    assert!(report.loaded.is_empty());
    assert_eq!(report.errors.len(), 2);
}

#[test]
fn covers_keep_the_place_that_was_asked_for() {
    let batch = vec![
        (at(7, "u1"), fetch_verdict(&FetchOutcome::Failed("dns".to_string()))),
        (at(9, "u2"), fetch_verdict(&ok(png(1, 1, [0, 0, 0, 0])))),
        (at(11, "u3"), fetch_verdict(&ok(vec![1, 2, 3]))),
    ];
    let report = load_all(batch);
    assert_eq!(report.loaded.len(), 1);
    assert_eq!(report.loaded[0].index, 9);
    assert_eq!(report.errors.len(), 2);
}

#[test]
fn addresses_are_numbered_by_their_place() {
    let urls = vec!["a".to_string(), "b".to_string(), "a".to_string()];
    let requests = number_requests(&urls);
    let asked: Vec<(usize, &str)> = requests.iter().map(|r| (r.index, r.url.as_str())).collect();
    assert_eq!(asked, vec![(0, "a"), (1, "b"), (2, "a")]);
    assert!(number_requests(&Vec::new()).is_empty());
}

#[test]
fn list_membership() {
    let list = vec!["a".to_string(), "b".to_string()];
    assert!(holds(&list, "a"));
    assert!(holds(&list, "b"));
    assert!(!holds(&list, "c"));
    assert!(!holds(&Vec::new(), "a"));
}
