//! The calls this library makes into other crates. Each function here hands
//! plain values to one outside crate and plain values back. Its contract is
//! taken on trust from that crate's documentation and source: nothing in this
//! file is proved, and every proof that uses one of these functions rests on
//! what is written here.

use vstd::prelude::*;

verus! {

/// What `regex::Regex::captures` finds when the pattern `pattern` is compiled
/// and searched for in `text`: `Err` with the compiler's message when the
/// pattern does not compile, `Ok(None)` when nothing matches, and otherwise the
/// groups of the leftmost match, group 0 first, each with the text it took
/// part in or `None` when it took no part.
pub uninterp spec fn regex_captures(pattern: Seq<char>, text: Seq<char>) -> Result<
    Option<Seq<Option<Seq<char>>>>,
    Seq<char>,
>;

/// Whether `regex::Regex::is_match` finds the pattern `pattern` anywhere in
/// `text`; `Err` with the compiler's message when the pattern does not compile.
pub uninterp spec fn regex_is_match(pattern: Seq<char>, text: Seq<char>) -> Result<bool, Seq<char>>;

/// The standard, padded base64 text that `base64::encode` gives for the UTF-8
/// bytes of `text`.
pub uninterp spec fn base64_text(text: Seq<char>) -> Seq<char>;

/// The text of the URL that the `url` crate produces when it parses `base` and
/// appends `pairs` to its query as form-urlencoded pairs, in order; `Err` with
/// the parser's message when `base` is no URL.
pub uninterp spec fn url_with_query(base: Seq<char>, pairs: Seq<(Seq<char>, Seq<char>)>) -> Result<
    Seq<char>,
    Seq<char>,
>;

/// The decoded name/value pairs of the query of `url`, in the order in which
/// `url::Url::query_pairs` yields them; `Err` with the parser's message when
/// `url` is no URL.
pub uninterp spec fn url_query_pairs(url: Seq<char>) -> Result<
    Seq<(Seq<char>, Seq<char>)>,
    Seq<char>,
>;

/// What `serde_json` reads under the member `key` of the JSON document `text`:
/// `Err` with the parser's message when `text` is not JSON, `Ok(Some(s))`
/// when the document has that member and it is the string `s`, `Ok(None)` in
/// every other case.
pub uninterp spec fn json_string_member(text: Seq<char>, key: Seq<char>) -> Result<
    Option<Seq<char>>,
    Seq<char>,
>;

/// The groups of one match, as plain sequences.
pub open spec fn groups_view(groups: Vec<Option<String>>) -> Seq<Option<Seq<char>>> {
    Seq::new(
        groups@.len(),
        |i: int|
            match groups@[i] {
                Some(s) => Some(s@),
                None => None,
            },
    )
}

/// What a search found, as plain sequences.
pub open spec fn found_view(found: Result<Option<Vec<Option<String>>>, String>) -> Result<
    Option<Seq<Option<Seq<char>>>>,
    Seq<char>,
> {
    match found {
        Ok(Some(groups)) => Ok(Some(groups_view(groups))),
        Ok(None) => Ok(None),
        Err(reason) => Err(reason@),
    }
}

/// A list of name/value pairs, as plain sequences.
pub open spec fn pairs_view(pairs: Vec<(String, String)>) -> Seq<(Seq<char>, Seq<char>)> {
    Seq::new(pairs@.len(), |i: int| (pairs@[i].0@, pairs@[i].1@))
}

/// Compiles `pattern` with `regex::Regex::new` and searches `text` with
/// `Regex::captures`. The result is the one that `regex_captures` names.
#[verifier::external_body]
pub(crate) fn captures(pattern: &str, text: &str) -> (res: Result<Option<Vec<Option<String>>>, String>)
    ensures
        regex_captures(pattern@, text@) == found_view(res),
{
    let re = regex::Regex::new(pattern).map_err(|e| e.to_string())?;
    Ok(re.captures(text).map(|c| c.iter().map(|m| m.map(|x| x.as_str().to_string())).collect()))
}

/// Compiles `pattern` with `regex::Regex::new` and asks `Regex::is_match`
/// whether it occurs in `text`. The result is the one that `regex_is_match`
/// names.
#[verifier::external_body]
pub(crate) fn is_match(pattern: &str, text: &str) -> (res: Result<bool, String>)
    ensures
        match res {
            Ok(b) => regex_is_match(pattern@, text@) == Ok::<bool, Seq<char>>(b),
            Err(e) => regex_is_match(pattern@, text@) == Err::<bool, Seq<char>>(e@),
        },
{
    let re = regex::Regex::new(pattern).map_err(|e| e.to_string())?;
    Ok(re.is_match(text))
}

/// Encodes the bytes of `text` with `base64::encode`. The result is the one
/// that `base64_text` names.
#[verifier::external_body]
#[allow(deprecated)]
pub(crate) fn base64_encode(text: &str) -> (res: String)
    ensures
        res@ == base64_text(text@),
{
    base64::encode(text)
}

/// The longest base, in characters, that `append_query` takes.
pub const MAX_BASE_LEN: usize = 65536;

/// Whether `base` is a text to whose query pairs may be appended: it is no
/// longer than `MAX_BASE_LEN` characters and holds no `#`. The `url` crate
/// counts positions in 32 bits and gives up, without an error, where a
/// position beyond that is to be noted: at the start of the query of a text
/// that long, and at the start of a fragment that the appended pairs push
/// that far. A short base without a fragment reaches neither.
pub open spec fn plain_base(base: Seq<char>) -> bool {
    base.len() <= MAX_BASE_LEN && !base.contains('#')
}

/// Parses `base` with `url::Url::parse`, appends `pairs` to its query with
/// `extend_pairs`, and gives the URL's text. The result is the one that
/// `url_with_query` names.
#[verifier::external_body]
pub(crate) fn append_query(base: &str, pairs: &Vec<(String, String)>) -> (res: Result<String, String>)
    requires
        plain_base(base@),
    ensures
        match res {
            Ok(s) => url_with_query(base@, pairs_view(*pairs)) == Ok::<Seq<char>, Seq<char>>(s@),
            Err(e) => url_with_query(base@, pairs_view(*pairs)) == Err::<Seq<char>, Seq<char>>(e@),
        },
{
    let mut url = url::Url::parse(base).map_err(|e| e.to_string())?;
    url.query_pairs_mut().extend_pairs(pairs.iter());
    Ok(url.into())
}

/// Parses `url` with `url::Url::parse` and collects what `query_pairs`
/// yields. The result is the one that `url_query_pairs` names.
#[verifier::external_body]
pub(crate) fn query_pairs(url: &str) -> (res: Result<Vec<(String, String)>, String>)
    ensures
        match res {
            Ok(pairs) => url_query_pairs(url@) == Ok::<Seq<(Seq<char>, Seq<char>)>, Seq<char>>(
                pairs_view(pairs),
            ),
            Err(e) => url_query_pairs(url@) == Err::<Seq<(Seq<char>, Seq<char>)>, Seq<char>>(e@),
        },
{
    let parsed = url::Url::parse(url).map_err(|e| e.to_string())?;
    Ok(parsed.query_pairs().map(|(k, v)| (k.into_owned(), v.into_owned())).collect())
}

/// Parses `text` with `serde_json::from_str` into a `serde_json::Value` and
/// reads the member `key` with `Value::get` and `Value::as_str`. The result is
/// the one that `json_string_member` names.
#[verifier::external_body]
pub(crate) fn json_member(text: &str, key: &str) -> (res: Result<Option<String>, String>)
    ensures
        match res {
            Ok(Some(s)) => json_string_member(text@, key@) == Ok::<Option<Seq<char>>, Seq<char>>(
                Some(s@),
            ),
            Ok(None) => json_string_member(text@, key@) == Ok::<Option<Seq<char>>, Seq<char>>(None),
            Err(e) => json_string_member(text@, key@) == Err::<Option<Seq<char>>, Seq<char>>(e@),
        },
{
    let value: serde_json::Value = serde_json::from_str(text).map_err(|e| e.to_string())?;
    Ok(value.get(key).and_then(|v| v.as_str()).map(|s| s.to_string()))
}

/// Decodes `bytes` with `image::load_from_memory`, converts the picture with
/// `DynamicImage::to_rgba8`, and hands out its width, its height and its raw
/// buffer. Which samples come out is the decoder's affair and may differ from
/// one machine to another, so nothing is said of them but their number: the
/// conversion allocates a buffer of four samples for every pixel.
#[verifier::external_body]
pub(crate) fn decode_rgba(bytes: &Vec<u8>) -> (res: Result<(u32, u32, Vec<u8>), String>)
    ensures
        res matches Ok((w, h, px)) ==> px@.len() == 4 * w * h,
{
    let picture = image::load_from_memory(bytes).map_err(|e| e.to_string())?;
    let rgba = picture.to_rgba8();
    Ok((rgba.width(), rgba.height(), rgba.into_raw()))
}

} // verus!
