//! The cover-image pipeline: which addresses are fetched, what becomes of
//! each answer, and what the caches hold afterwards.

use vstd::prelude::*;
use vstd::string::*;
use std::collections::HashMap;
use crate::bindings::{decode_rgba, pairs_view};
use crate::links::{distinct_names, find_key, lemma_put, position};
use crate::text::{decimal, decimal_u32, opt_view, views};
use crate::token::{is_success, status_is_success};

verus! {

/// A decoded picture: RGBA samples, row by row, with the size they fill.
#[derive(Debug)]
pub struct ImageEntry {
    pixels: Vec<u8>,
    width: u32,
    height: u32,
}

/// A decoded picture as plain values.
pub struct ImageEntryView {
    pub pixels: Seq<u8>,
    pub width: u32,
    pub height: u32,
}

impl ImageEntryView {
    /// Four samples stand for every pixel.
    pub open spec fn fills(self) -> bool {
        self.pixels.len() == 4 * self.width * self.height
    }
}

impl View for ImageEntry {
    type V = ImageEntryView;

    closed spec fn view(&self) -> ImageEntryView {
        ImageEntryView { pixels: self.pixels@, width: self.width, height: self.height }
    }
}

impl ImageEntry {
    #[verifier::type_invariant]
    spec fn well_formed(&self) -> bool {
        self@.fills()
    }

    /// The picture of the size given, if `pixels` holds four samples for each
    /// of its pixels.
    pub fn new(pixels: Vec<u8>, width: u32, height: u32) -> (r: Option<ImageEntry>)
        ensures
            match r {
                Some(entry) => entry@ == (ImageEntryView { pixels: pixels@, width, height })
                    && entry@.fills(),
                None => pixels@.len() != 4 * width * height,
            },
    {
        assert(width * height <= 0xffff_ffff * 0xffff_ffff) by (nonlinear_arith)
            requires
                width <= 0xffff_ffff,
                height <= 0xffff_ffff,
        ;
        let area: u64 = (width as u64) * (height as u64);
        let wanted: u128 = 4u128 * (area as u128);
        assert(wanted == 4 * width * height) by (nonlinear_arith)
            requires
                wanted == 4 * area,
                area == width * height,
        ;
        if pixels.len() as u128 == wanted {
            Some(ImageEntry { pixels, width, height })
        } else {
            None
        }
    }

    /// The samples.
    pub fn pixels(&self) -> (r: &Vec<u8>)
        ensures
            r@ == self@.pixels,
            self@.fills(),
    {
        proof {
            use_type_invariant(self);
        }
        &self.pixels
    }

    /// The width in pixels.
    pub fn width(&self) -> (r: u32)
        ensures
            r == self@.width,
    {
        self.width
    }

    /// The height in pixels.
    pub fn height(&self) -> (r: u32)
        ensures
            r == self@.height,
    {
        self.height
    }

    /// A copy of the picture.
    pub fn duplicate(&self) -> (r: ImageEntry)
        ensures
            r@ == self@,
    {
        proof {
            use_type_invariant(self);
        }
        ImageEntry { pixels: self.pixels.clone(), width: self.width, height: self.height }
    }
}

/// What came of fetching an address.
pub enum FetchOutcome {
    /// No answer came; with the cause.
    Failed(String),
    /// The server answered.
    Answered { status: u16, bytes: Vec<u8> },
}

/// What came of fetching an address, as plain values.
pub enum FetchView {
    Failed(Seq<char>),
    Answered { status: u16, bytes: Seq<u8> },
}

impl View for FetchOutcome {
    type V = FetchView;

    open spec fn view(&self) -> FetchView {
        match self {
            FetchOutcome::Failed(cause) => FetchView::Failed(cause@),
            FetchOutcome::Answered { status, bytes } => FetchView::Answered {
                status: *status,
                bytes: bytes@,
            },
        }
    }
}

/// How many milliseconds the drain loop rests between two ticks.
pub const DRAIN_PERIOD_MILLIS: u64 = 100;

/// What is said of a decoded buffer that does not fill its size.
pub const MALFORMED_BUFFER: &'static str = "the decoded buffer does not fill the picture";

/// How the report of a request that did not get through begins.
pub const REQUEST_FAILED: &'static str = "sending the request failed: ";

/// How the report of an answer that is no success begins.
pub const BAD_STATUS: &'static str = "loading the cover failed with status ";

/// How the report of bytes that are no picture begins.
pub const DECODE_FAILED: &'static str = "decoding the picture failed: ";

/// The picture that decoded samples make, or why they make none.
pub open spec fn entry_of(decoded: Result<(u32, u32, Seq<u8>), Seq<char>>) -> Result<
    ImageEntryView,
    Seq<char>,
> {
    match decoded {
        Ok((width, height, pixels)) => if pixels.len() == 4 * width * height {
            Ok(ImageEntryView { pixels, width, height })
        } else {
            Err(MALFORMED_BUFFER@)
        },
        Err(cause) => Err(DECODE_FAILED@ + cause),
    }
}

/// Whether `r` is the result that `v` describes.
pub open spec fn is_entry(r: Result<ImageEntry, String>, v: Result<ImageEntryView, Seq<char>>) -> bool {
    match r {
        Ok(entry) => v == Ok::<ImageEntryView, Seq<char>>(entry@),
        Err(reason) => v == Err::<ImageEntryView, Seq<char>>(reason@),
    }
}

/// The picture that decoded samples make. Samples that do not fill the size
/// that came with them make none, nor does a failed decoding.
pub fn entry_from_decoded(decoded: Result<(u32, u32, Vec<u8>), String>) -> (r: Result<
    ImageEntry,
    String,
>)
    ensures
        match decoded {
            Ok((width, height, pixels)) => is_entry(r, entry_of(Ok((width, height, pixels@)))),
            Err(cause) => is_entry(r, entry_of(Err(cause@))),
        },
{
    match decoded {
        Ok((width, height, pixels)) => match ImageEntry::new(pixels, width, height) {
            Some(entry) => Ok(entry),
            None => Err(String::from_str(MALFORMED_BUFFER)),
        },
        Err(cause) => {
            let mut reason = String::from_str(DECODE_FAILED);
            reason.append(cause.as_str());
            Err(reason)
        },
    }
}

/// Decodes the bytes of a picture into RGBA samples. What comes out is the
/// decoder's affair: a picture that fills its size, or a reason that begins
/// with `DECODE_FAILED`.
pub fn decode(bytes: &Vec<u8>) -> (r: Result<ImageEntry, String>)
    ensures
        match r {
            Ok(entry) => entry@.fills(),
            Err(reason) => DECODE_FAILED@.is_prefix_of(reason@),
        },
{
    let decoded = decode_rgba(bytes);
    let ghost cause = if decoded is Err {
        decoded->Err_0@
    } else {
        Seq::<char>::empty()
    };
    let r = entry_from_decoded(decoded);
    proof {
        if r is Err {
            assert(r->Err_0@ == DECODE_FAILED@ + cause);
            assert((DECODE_FAILED@ + cause).subrange(0, DECODE_FAILED@.len() as int)
                =~= DECODE_FAILED@);
        }
    }
    r
}

/// Whether `verdict` is what the fetch `outcome` may be worth. A request
/// that did not get through and a status that is no success each have one
/// verdict, a reason of their own. The bytes of a successful answer are
/// worth what the decoder makes of them: a picture that fills its size, or
/// a reason that begins with `DECODE_FAILED`.
pub open spec fn is_verdict(outcome: FetchView, verdict: Result<ImageEntryView, Seq<char>>) -> bool {
    match outcome {
        FetchView::Failed(cause) => verdict == Err::<ImageEntryView, Seq<char>>(
            REQUEST_FAILED@ + cause,
        ),
        FetchView::Answered { status, bytes } => if is_success(status) {
            match verdict {
                Ok(entry) => entry.fills(),
                Err(reason) => DECODE_FAILED@.is_prefix_of(reason),
            }
        } else {
            verdict == Err::<ImageEntryView, Seq<char>>(BAD_STATUS@ + decimal(status as nat))
        },
    }
}

/// The picture that a fetch brought, or the reason why it brought none.
pub fn fetch_verdict(outcome: &FetchOutcome) -> (r: Result<ImageEntry, String>)
    ensures
        is_verdict(outcome@, verdict_view(r)),
{
    match outcome {
        FetchOutcome::Failed(cause) => {
            let mut reason = String::from_str(REQUEST_FAILED);
            reason.append(cause.as_str());
            Err(reason)
        },
        FetchOutcome::Answered { status, bytes } => {
            if status_is_success(*status) {
                decode(bytes)
            } else {
                let mut reason = String::from_str(BAD_STATUS);
                reason.append(decimal_u32(*status as u32).as_str());
                Err(reason)
            }
        },
    }
}

/// The pipeline as plain values.
pub struct PipelineView {
    /// The addresses that wait to be fetched; the last one is fetched next.
    pub queue: Seq<Seq<char>>,
    /// The address that is being fetched, if any.
    pub in_flight: Option<Seq<char>>,
    /// The pictures that have been loaded, by address.
    pub cache: Map<Seq<char>, ImageEntryView>,
    /// The addresses that failed, each with the reason.
    pub errors: Seq<(Seq<char>, Seq<char>)>,
    /// Whether something new is to be drawn.
    pub repaint: bool,
}

impl PipelineView {
    /// No address waits twice, and the one being fetched does not wait.
    pub open spec fn consistent(self) -> bool {
        &&& self.queue.no_duplicates()
        &&& self.in_flight matches Some(url) ==> !self.queue.contains(url)
    }

    /// Whether `url` is loaded, waits, or is being fetched.
    pub open spec fn knows(self, url: Seq<char>) -> bool {
        self.cache.contains_key(url) || self.queue.contains(url) || self.in_flight == Some(url)
    }

    /// The pipeline after `url` has been submitted: it waits at the end of
    /// the queue unless the pipeline knows it already.
    pub open spec fn submitted(self, url: Seq<char>) -> PipelineView {
        if self.knows(url) {
            self
        } else {
            PipelineView { queue: self.queue.push(url), ..self }
        }
    }

    /// The pipeline after one tick, and the address to fetch. While a fetch
    /// is under way, or nothing waits, the tick does nothing. Otherwise the
    /// last address leaves the queue; it is fetched unless it was loaded in
    /// the meantime.
    pub open spec fn popped(self) -> (PipelineView, Option<Seq<char>>) {
        if self.in_flight is Some || self.queue.len() == 0 {
            (self, None)
        } else if self.cache.contains_key(self.queue.last()) {
            (PipelineView { queue: self.queue.drop_last(), ..self }, None)
        } else {
            (
                PipelineView {
                    queue: self.queue.drop_last(),
                    in_flight: Some(self.queue.last()),
                    ..self
                },
                Some(self.queue.last()),
            )
        }
    }

    /// The pipeline after the fetch of `url` has ended. A picture enters the
    /// cache and asks for a repaint; a failure is recorded with its reason
    /// and changes nothing else.
    pub open spec fn completed(
        self,
        url: Seq<char>,
        verdict: Result<ImageEntryView, Seq<char>>,
    ) -> PipelineView {
        let in_flight = if self.in_flight == Some(url) {
            None
        } else {
            self.in_flight
        };
        match verdict {
            Ok(entry) => PipelineView {
                in_flight,
                cache: self.cache.insert(url, entry),
                repaint: true,
                ..self
            },
            Err(reason) => PipelineView {
                in_flight,
                errors: self.errors.push((url, reason)),
                ..self
            },
        }
    }
}

/// Submitting keeps the pipeline consistent.
pub proof fn lemma_submitted_consistent(s: PipelineView, url: Seq<char>)
    requires
        s.consistent(),
    ensures
        s.submitted(url).consistent(),
        s.submitted(url).knows(url),
{
    if !s.knows(url) {
        let q = s.queue.push(url);
        assert(q[q.len() - 1] == url);
        assert forall|i: int, j: int| 0 <= i < q.len() && 0 <= j < q.len() && i != j implies q[i]
            != q[j] by {
            if i < s.queue.len() && j < s.queue.len() {
            } else if i < s.queue.len() {
                assert(s.queue.contains(q[i]));
            } else {
                assert(s.queue.contains(q[j]));
            }
        }
        if s.in_flight is Some {
            let u = s.in_flight->0;
            if q.contains(u) {
                let i = choose|i: int| 0 <= i < q.len() && q[i] == u;
                if i < s.queue.len() {
                    assert(s.queue.contains(u));
                }
            }
        }
    }
}

/// An address that the pipeline knows is not queued again: submitting it
/// changes nothing. So a second submission changes nothing either.
pub proof fn lemma_submit_twice(s: PipelineView, url: Seq<char>)
    requires
        s.consistent(),
    ensures
        s.knows(url) ==> s.submitted(url) == s,
        s.submitted(url).submitted(url) == s.submitted(url),
{
    lemma_submitted_consistent(s, url);
}

/// A tick forgets no address: what was known before it is known after it,
/// waiting, being fetched or loaded.
pub proof fn lemma_tick_keeps_known(s: PipelineView, url: Seq<char>)
    requires
        s.consistent(),
        s.knows(url),
    ensures
        s.popped().0.knows(url),
{
    if !(s.in_flight is Some || s.queue.len() == 0) {
        if s.queue.last() != url && s.queue.contains(url) {
            let i = choose|i: int| 0 <= i < s.queue.len() && s.queue[i] == url;
            assert(s.queue.drop_last()[i] == url);
        }
    }
}

/// A tick keeps the pipeline consistent. The address it hands out no longer
/// waits, so it is handed out once; submitting it again while it is being
/// fetched changes nothing.
pub proof fn lemma_popped_consistent(s: PipelineView)
    requires
        s.consistent(),
    ensures
        s.popped().0.consistent(),
        s.popped().1 matches Some(url) ==> !s.popped().0.queue.contains(url) && s.popped().0.in_flight
            == Some(url) && s.popped().0.submitted(url) == s.popped().0,
{
    if !(s.in_flight is Some || s.queue.len() == 0) {
        let rest = s.queue.drop_last();
        let last = s.queue.last();
        assert forall|i: int| 0 <= i < rest.len() implies rest[i] != last by {
            assert(rest[i] == s.queue[i]);
        }
        assert forall|i: int, j: int| 0 <= i < rest.len() && 0 <= j < rest.len() && i != j implies rest[i]
            != rest[j] by {
            assert(rest[i] == s.queue[i] && rest[j] == s.queue[j]);
        }
    }
}

/// The end of a fetch keeps the pipeline consistent. A failure touches
/// neither the cache nor the queue: it is recorded and nothing else changes.
/// A picture is found in the cache afterwards.
pub proof fn lemma_completed_consistent(
    s: PipelineView,
    url: Seq<char>,
    verdict: Result<ImageEntryView, Seq<char>>,
)
    requires
        s.consistent(),
    ensures
        s.completed(url, verdict).consistent(),
        s.completed(url, verdict).queue == s.queue,
        verdict is Err ==> s.completed(url, verdict).cache == s.cache && s.completed(
            url,
            verdict,
        ).errors.len() == s.errors.len() + 1 && s.completed(url, verdict).repaint == s.repaint,
        verdict matches Ok(entry) ==> s.completed(url, verdict).cache.contains_key(url)
            && s.completed(url, verdict).cache[url] == entry && s.completed(url, verdict).errors
            == s.errors,
{
}

/// The map that a list of loaded pictures stands for.
pub open spec fn cache_map(entries: Seq<(String, ImageEntry)>) -> Map<Seq<char>, ImageEntryView> {
    Map::new(
        |k: Seq<char>| position(entries, k, 0) < entries.len(),
        |k: Seq<char>| entries[position(entries, k, 0)].1@,
    )
}

/// The view of a verdict.
pub open spec fn verdict_view(verdict: Result<ImageEntry, String>) -> Result<
    ImageEntryView,
    Seq<char>,
> {
    match verdict {
        Ok(entry) => Ok(entry@),
        Err(reason) => Err(reason@),
    }
}

/// Whether `list` holds the text `wanted`.
pub fn holds(list: &Vec<String>, wanted: &str) -> (b: bool)
    ensures
        b == views(*list).contains(wanted@),
{
    let w = String::from_str(wanted);
    let mut i: usize = 0;
    while i < list.len()
        invariant
            i <= list.len(),
            w@ == wanted@,
            forall|j: int| 0 <= j < i ==> (#[trigger] views(*list)[j]) != wanted@,
        decreases list.len() - i,
    {
        if list[i] == w {
            assert(views(*list)[i as int] == wanted@);
            return true;
        }
        i += 1;
    }
    false
}

/// The pipeline's state: the queue of addresses, the fetch under way, the
/// cache of pictures by address, the failures, and the repaint flag.
pub struct ImagePipeline {
    queue: Vec<String>,
    in_flight: Option<String>,
    cache: Vec<(String, ImageEntry)>,
    errors: Vec<(String, String)>,
    repaint: bool,
}

impl View for ImagePipeline {
    type V = PipelineView;

    closed spec fn view(&self) -> PipelineView {
        PipelineView {
            queue: views(self.queue),
            in_flight: opt_view(self.in_flight),
            cache: cache_map(self.cache@),
            errors: pairs_view(self.errors),
            repaint: self.repaint,
        }
    }
}

impl ImagePipeline {
    /// The pipeline is consistent and keeps one picture for each address.
    pub closed spec fn wf(&self) -> bool {
        self@.consistent() && distinct_names(self.cache@)
    }

    /// A pipeline that holds nothing.
    pub fn new() -> (p: ImagePipeline)
        ensures
            p.wf(),
            p@.queue.len() == 0,
            p@.in_flight is None,
            p@.cache == Map::<Seq<char>, ImageEntryView>::empty(),
            p@.errors.len() == 0,
            !p@.repaint,
    {
        let p = ImagePipeline {
            queue: Vec::new(),
            in_flight: None,
            cache: Vec::new(),
            errors: Vec::new(),
            repaint: false,
        };
        assert(p@.cache =~= Map::<Seq<char>, ImageEntryView>::empty());
        p
    }

    /// The consistency that `wf` promises, for callers.
    pub proof fn lemma_wf_consistent(&self)
        requires
            self.wf(),
        ensures
            self@.consistent(),
    {
    }

    /// The picture loaded from `url`, if there is one. A miss is no error:
    /// the picture is not there yet.
    pub fn get(&self, url: &str) -> (r: Option<&ImageEntry>)
        ensures
            match r {
                Some(entry) => self@.cache.contains_key(url@) && self@.cache[url@] == entry@,
                None => !self@.cache.contains_key(url@),
            },
    {
        let p = find_key(&self.cache, url);
        if p < self.cache.len() {
            Some(&self.cache[p].1)
        } else {
            None
        }
    }

    /// Whether the pipeline already has `url`: loaded, waiting or being
    /// fetched.
    pub fn knows(&self, url: &str) -> (b: bool)
        ensures
            b == self@.knows(url@),
    {
        if find_key(&self.cache, url) < self.cache.len() {
            return true;
        }
        if holds(&self.queue, url) {
            return true;
        }
        match &self.in_flight {
            Some(current) => {
                let wanted = String::from_str(url);
                *current == wanted
            },
            None => false,
        }
    }

    /// Submits `url` for fetching. It is queued unless the pipeline has it
    /// already; the answer says whether it was queued.
    pub fn submit(&mut self, url: &str) -> (queued: bool)
        requires
            old(self).wf(),
        ensures
            final(self).wf(),
            final(self)@ == old(self)@.submitted(url@),
            queued == !old(self)@.knows(url@),
            final(self)@.knows(url@),
    {
        proof {
            lemma_submitted_consistent(self@, url@);
        }
        if self.knows(url) {
            return false;
        }
        self.queue.push(String::from_str(url));
        assert(views(self.queue) =~= views(old(self).queue).push(url@));
        true
    }

    /// One tick of the drain loop: the address to fetch now, if any.
    pub fn next_fetch(&mut self) -> (r: Option<String>)
        requires
            old(self).wf(),
        ensures
            final(self).wf(),
            (final(self)@, opt_view(r)) == old(self)@.popped(),
    {
        proof {
            lemma_popped_consistent(self@);
        }
        if self.in_flight.is_some() {
            return None;
        }
        match self.queue.pop() {
            None => None,
            Some(url) => {
                assert(views(self.queue) =~= views(old(self).queue).drop_last());
                assert(views(old(self).queue).last() == url@);
                if find_key(&self.cache, url.as_str()) < self.cache.len() {
                    None
                } else {
                    self.in_flight = Some(url.clone());
                    Some(url)
                }
            },
        }
    }

    /// Takes the end of the fetch of `url`. A picture is stored under `url`
    /// and a repaint is asked for; a failure is recorded and the address is
    /// dropped.
    pub fn complete(&mut self, url: String, verdict: Result<ImageEntry, String>)
        requires
            old(self).wf(),
        ensures
            final(self).wf(),
            final(self)@ == old(self)@.completed(url@, verdict_view(verdict)),
    {
        proof {
            lemma_completed_consistent(self@, url@, verdict_view(verdict));
        }
        let clear = match &self.in_flight {
            Some(current) => *current == url,
            None => false,
        };
        if clear {
            self.in_flight = None;
        }
        match verdict {
            Ok(entry) => {
                let p = find_key(&self.cache, url.as_str());
                let ghost before = self.cache@;
                let ghost e = entry@;
                if p < self.cache.len() {
                    self.cache[p].1 = entry;
                } else {
                    self.cache.push((url, entry));
                }
                self.repaint = true;
                proof {
                    let after = self.cache@;
                    let k = url@;
                    lemma_put(before, after, k, k);
                    assert forall|name: Seq<char>| #[trigger]
                        cache_map(after).contains_key(name) == cache_map(before).insert(
                            k,
                            e,
                        ).contains_key(name) && (cache_map(after).contains_key(name) ==> cache_map(
                            after,
                        )[name] == cache_map(before).insert(k, e)[name]) by {
                        lemma_put(before, after, k, name);
                    }
                    assert(cache_map(after) =~= cache_map(before).insert(k, e));
                }
            },
            Err(reason) => {
                self.errors.push((url, reason));
                assert(pairs_view(self.errors) =~= pairs_view(old(self).errors).push(
                    (url@, reason@),
                ));
            },
        }
    }

    /// Takes the end of the fetch of `url` as it came from the network: the
    /// pipeline completes the fetch with a verdict that the outcome may be
    /// worth. The answer says whether a picture was stored.
    pub fn complete_fetch(&mut self, url: String, outcome: &FetchOutcome) -> (stored: bool)
        requires
            old(self).wf(),
        ensures
            final(self).wf(),
            exists|verdict: Result<ImageEntryView, Seq<char>>|
                is_verdict(outcome@, verdict) && stored == (verdict is Ok) && final(self)@ == old(
                    self,
                )@.completed(url@, verdict),
    {
        let verdict = fetch_verdict(outcome);
        let stored = verdict.is_ok();
        let ghost worth = verdict_view(verdict);
        self.complete(url, verdict);
        assert(is_verdict(outcome@, worth) && stored == (worth is Ok) && self@ == old(
            self,
        )@.completed(url@, worth));
        stored
    }

    /// Whether a repaint was asked for since the last call; the flag is
    /// cleared.
    pub fn take_repaint(&mut self) -> (asked: bool)
        requires
            old(self).wf(),
        ensures
            final(self).wf(),
            asked == old(self)@.repaint,
            final(self)@ == (PipelineView { repaint: false, ..old(self)@ }),
    {
        let asked = self.repaint;
        self.repaint = false;
        asked
    }

    /// How many addresses wait.
    pub fn pending(&self) -> (n: usize)
        ensures
            n == self@.queue.len(),
    {
        self.queue.len()
    }

    /// The failures so far, oldest first: each address with the reason.
    pub fn errors(&self) -> (r: &Vec<(String, String)>)
        ensures
            pairs_view(*r) == self@.errors,
    {
        &self.errors
    }
}

/// A picture that is asked for: its address, and the place that its owner
/// has for it among the results.
#[derive(Debug)]
pub struct ImageRequest {
    pub index: usize,
    pub url: String,
}

/// A request as plain values.
pub struct RequestedView {
    pub index: usize,
    pub url: Seq<char>,
}

impl View for ImageRequest {
    type V = RequestedView;

    open spec fn view(&self) -> RequestedView {
        RequestedView { index: self.index, url: self.url@ }
    }
}

impl Clone for ImageRequest {
    fn clone(&self) -> (r: ImageRequest)
        ensures
            r@ == self@,
    {
        ImageRequest { index: self.index, url: self.url.clone() }
    }
}

/// The views of a list of requests.
pub open spec fn request_views(requests: Seq<ImageRequest>) -> Seq<RequestedView> {
    Seq::new(requests.len(), |i: int| requests[i]@)
}

/// The requests for a list of addresses, each at its place in the list.
pub open spec fn numbered(urls: Seq<Seq<char>>) -> Seq<RequestedView> {
    Seq::new(urls.len(), |i: int| RequestedView { index: i as usize, url: urls[i] })
}

/// The requests for `urls`: each address is asked for at its place in the
/// list.
pub fn number_requests(urls: &Vec<String>) -> (requests: Vec<ImageRequest>)
    ensures
        request_views(requests@) == numbered(views(*urls)),
{
    let mut requests: Vec<ImageRequest> = Vec::new();
    let mut i: usize = 0;
    while i < urls.len()
        invariant
            i <= urls.len(),
            requests.len() == i,
            forall|j: int|
                0 <= j < i ==> (#[trigger] requests@[j])@ == (RequestedView {
                    index: j as usize,
                    url: urls@[j]@,
                }),
        decreases urls.len() - i,
    {
        requests.push(ImageRequest { index: i, url: urls[i].clone() });
        i += 1;
    }
    assert(request_views(requests@) =~= numbered(views(*urls)));
    requests
}

/// How the report of a failed cover names its address.
pub const AT_ADDRESS: &'static str = " (address: ";

/// The line that reports the failure of `url` for `reason`.
pub open spec fn error_line(url: Seq<char>, reason: Seq<char>) -> Seq<char> {
    reason + AT_ADDRESS@ + url + ")"@
}

/// The pictures that a batch of fetches brings, given the verdict of each:
/// every picture with the place that was asked for, in the order of the
/// batch. A fetch that failed brings none.
pub open spec fn bulk_loaded(
    batch: Seq<(RequestedView, Result<ImageEntryView, Seq<char>>)>,
) -> Seq<(usize, ImageEntryView)>
    decreases batch.len(),
{
    if batch.len() == 0 {
        Seq::empty()
    } else {
        let rest = bulk_loaded(batch.drop_last());
        match batch.last().1 {
            Ok(entry) => rest.push((batch.last().0.index, entry)),
            Err(_) => rest,
        }
    }
}

/// The failures of a batch of fetches, given the verdict of each: one line
/// for each failure, in the order of the batch.
pub open spec fn bulk_errors(
    batch: Seq<(RequestedView, Result<ImageEntryView, Seq<char>>)>,
) -> Seq<Seq<char>>
    decreases batch.len(),
{
    if batch.len() == 0 {
        Seq::empty()
    } else {
        let rest = bulk_errors(batch.drop_last());
        match batch.last().1 {
            Ok(_) => rest,
            Err(reason) => rest.push(error_line(batch.last().0.url, reason)),
        }
    }
}

/// Every fetch of a batch ends in exactly one of the two lists: as many
/// pictures are loaded as fetches succeed, and one failure is recorded for
/// each of the others.
pub proof fn lemma_bulk_counts(batch: Seq<(RequestedView, Result<ImageEntryView, Seq<char>>)>)
    ensures
        bulk_loaded(batch).len() + bulk_errors(batch).len() == batch.len(),
    decreases batch.len(),
{
    if batch.len() > 0 {
        lemma_bulk_counts(batch.drop_last());
    }
}

/// What a batch of one fetch brings: its picture at the place asked for, or
/// the line that reports its failure.
pub proof fn lemma_bulk_single(request: RequestedView, verdict: Result<ImageEntryView, Seq<char>>)
    ensures
        match verdict {
            Ok(entry) => bulk_loaded(seq![(request, verdict)]) == seq![(request.index, entry)]
                && bulk_errors(seq![(request, verdict)]).len() == 0,
            Err(reason) => bulk_loaded(seq![(request, verdict)]).len() == 0 && bulk_errors(
                seq![(request, verdict)],
            ) == seq![error_line(request.url, reason)],
        },
{
    let one = seq![(request, verdict)];
    assert(one.drop_last() =~= Seq::empty());
    assert(one.last() == (request, verdict));
    assert(bulk_loaded(one.drop_last()) =~= Seq::empty());
    assert(bulk_errors(one.drop_last()) =~= Seq::empty());
    match verdict {
        Ok(entry) => {
            assert(bulk_loaded(one) =~= seq![(request.index, entry)]);
        },
        Err(reason) => {
            assert(bulk_errors(one) =~= seq![error_line(request.url, reason)]);
        },
    }
}

/// No fetch of a batch touches another: what two batches bring one after the
/// other is what the first brings, followed by what the second brings. So a
/// failure anywhere in a batch changes nothing of what the fetches before and
/// after it bring.
pub proof fn lemma_bulk_isolated(
    first: Seq<(RequestedView, Result<ImageEntryView, Seq<char>>)>,
    second: Seq<(RequestedView, Result<ImageEntryView, Seq<char>>)>,
)
    ensures
        bulk_loaded(first + second) == bulk_loaded(first) + bulk_loaded(second),
        bulk_errors(first + second) == bulk_errors(first) + bulk_errors(second),
    decreases second.len(),
{
    if second.len() == 0 {
        assert(first + second =~= first);
        assert(bulk_loaded(first) + bulk_loaded(second) =~= bulk_loaded(first));
        assert(bulk_errors(first) + bulk_errors(second) =~= bulk_errors(first));
    } else {
        let whole = first + second;
        lemma_bulk_isolated(first, second.drop_last());
        assert(whole.drop_last() =~= first + second.drop_last());
        assert(whole.last() == second.last());
        match second.last().1 {
            Ok(entry) => {
                assert(bulk_loaded(whole) =~= bulk_loaded(first) + bulk_loaded(second));
                assert(bulk_errors(whole) =~= bulk_errors(first) + bulk_errors(second));
            },
            Err(reason) => {
                assert(bulk_loaded(whole) =~= bulk_loaded(first) + bulk_loaded(second));
                assert(bulk_errors(whole) =~= bulk_errors(first) + bulk_errors(second));
            },
        }
    }
}

/// One loaded cover, with the place that was asked for.
pub struct LoadedCover {
    pub index: usize,
    pub entry: ImageEntry,
}

/// What a batch of fetches brought.
pub struct BulkReport {
    pub loaded: Vec<LoadedCover>,
    pub errors: Vec<String>,
}

/// The loaded covers as plain values.
pub open spec fn loaded_view(loaded: Seq<LoadedCover>) -> Seq<(usize, ImageEntryView)> {
    Seq::new(loaded.len(), |i: int| (loaded[i].index, loaded[i].entry@))
}

/// The views of the fetches of a batch, each with its verdict.
pub open spec fn batch_view(batch: Seq<(ImageRequest, Result<ImageEntry, String>)>) -> Seq<
    (RequestedView, Result<ImageEntryView, Seq<char>>),
> {
    Seq::new(batch.len(), |i: int| (batch[i].0@, verdict_view(batch[i].1)))
}

/// The cover that the fetch of `url` brought, or the line that reports its
/// failure, given the verdict of the fetch.
pub fn cover_verdict(url: &str, verdict: Result<ImageEntry, String>) -> (r: Result<
    ImageEntry,
    String,
>)
    ensures
        match verdict {
            Ok(entry) => r matches Ok(e) && e@ == entry@,
            Err(reason) => r matches Err(line) && line@ == error_line(url@, reason@),
        },
{
    match verdict {
        Ok(entry) => Ok(entry),
        Err(reason) => {
            let mut line = reason;
            line.append(AT_ADDRESS);
            line.append(url);
            line.append(")");
            Err(line)
        },
    }
}

/// Sorts a batch of fetches, each with its verdict, taken in order: each
/// picture with the place that was asked for, each failure as a line. No
/// failure stops the batch, and none is handed to the caller.
pub fn load_all(batch: Vec<(ImageRequest, Result<ImageEntry, String>)>) -> (report: BulkReport)
    ensures
        loaded_view(report.loaded@) == bulk_loaded(batch_view(batch@)),
        views(report.errors) == bulk_errors(batch_view(batch@)),
        report.loaded.len() + report.errors.len() == batch.len(),
{
    let mut loaded: Vec<LoadedCover> = Vec::new();
    let mut errors: Vec<String> = Vec::new();
    let ghost whole = batch_view(batch@);
    assert(whole.take(0) =~= Seq::empty());
    for fetch in it: batch.into_iter()
        invariant
            it.seq() == batch@,
            whole == batch_view(batch@),
            loaded_view(loaded@) == bulk_loaded(whole.take(it.index() as int)),
            views(errors) == bulk_errors(whole.take(it.index() as int)),
    {
        let ghost i = it.index() as int;
        let ghost had = loaded_view(loaded@);
        let ghost said = views(errors);
        proof {
            assert(whole.take(i + 1).drop_last() =~= whole.take(i));
            assert(whole.take(i + 1).last() == (fetch.0@, verdict_view(fetch.1)));
        }
        let (request, verdict) = fetch;
        match cover_verdict(request.url.as_str(), verdict) {
            Ok(entry) => {
                loaded.push(LoadedCover { index: request.index, entry });
                assert(loaded_view(loaded@) =~= had.push((request.index, entry@)));
            },
            Err(line) => {
                errors.push(line);
                assert(views(errors) =~= said.push(line@));
            },
        }
    }
    proof {
        assert(whole.take(whole.len() as int) =~= whole);
        lemma_bulk_counts(whole);
        assert(loaded_view(loaded@).len() == loaded.len());
        assert(views(errors).len() == errors.len());
    }
    BulkReport { loaded, errors }
}

/// The covers of one search, by the place of each in the list of results.
pub struct IndexCache {
    covers: HashMap<usize, ImageEntry>,
    repaint: bool,
}

impl IndexCache {
    /// The covers held, by place.
    pub closed spec fn covers(&self) -> Map<usize, ImageEntryView> {
        self.covers@.map_values(|e: ImageEntry| e@)
    }

    /// Whether something new is to be drawn.
    pub closed spec fn repaint(&self) -> bool {
        self.repaint
    }

    /// A cache that holds nothing.
    pub fn new() -> (c: IndexCache)
        ensures
            c.covers() == Map::<usize, ImageEntryView>::empty(),
            !c.repaint(),
    {
        let c = IndexCache { covers: HashMap::new(), repaint: false };
        assert(c.covers() =~= Map::<usize, ImageEntryView>::empty());
        c
    }

    /// Keeps `entry` as the cover at `index` and asks for a repaint.
    pub fn store(&mut self, index: usize, entry: ImageEntry)
        ensures
            final(self).covers() == old(self).covers().insert(index, entry@),
            final(self).repaint(),
    {
        self.covers.insert(index, entry);
        self.repaint = true;
        assert(self.covers() =~= old(self).covers().insert(index, entry@));
    }

    /// Forgets the covers of the search before: the cache holds nothing, and
    /// a repaint is asked for.
    pub fn clear(&mut self)
        ensures
            final(self).covers() == Map::<usize, ImageEntryView>::empty(),
            final(self).repaint(),
    {
        self.covers.clear();
        self.repaint = true;
        assert(self.covers() =~= Map::<usize, ImageEntryView>::empty());
    }

    /// The cover at `index`, if it has been loaded.
    pub fn get(&self, index: usize) -> (r: Option<&ImageEntry>)
        ensures
            match r {
                Some(entry) => self.covers().contains_key(index) && self.covers()[index] == entry@,
                None => !self.covers().contains_key(index),
            },
    {
        self.covers.get(&index)
    }

    /// Whether a repaint was asked for since the last call; the flag is
    /// cleared.
    pub fn take_repaint(&mut self) -> (asked: bool)
        ensures
            asked == old(self).repaint(),
            !final(self).repaint(),
            final(self).covers() == old(self).covers(),
    {
        let asked = self.repaint;
        self.repaint = false;
        asked
    }
}

} // verus!
