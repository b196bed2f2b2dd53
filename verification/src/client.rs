//! The parts of the runtime service client that decide: the service URL,
//! the endpoints below it, and the message of a failed response. URLs are
//! parsed and joined by the `url` crate that `reqwest` re-exports.
use vstd::prelude::*;

use crate::json::{json_text_field, json_text_member};
use crate::text::{chars_of, opt_text, push_char, str_equal, string_of};

verus! {

/// `s` without its trailing `/` characters.
pub open spec fn without_trailing_slashes(s: Seq<char>) -> Seq<char>
    decreases s.len(),
{
    if s.len() > 0 && s.last() == '/' {
        without_trailing_slashes(s.drop_last())
    } else {
        s
    }
}

/// The base URL with exactly one trailing `/`, so that relative endpoint
/// paths are joined below it.
pub fn normalize_base_url(base_url: &str) -> (r: String)
    ensures
        r@ == without_trailing_slashes(base_url@).push('/'),
{
    let v = chars_of(base_url);
    let mut end: usize = v.len();
    assert(v@.subrange(0, end as int) =~= v@);
    while end > 0 && v[end - 1] == '/'
        invariant
            end <= v@.len(),
            v@ == base_url@,
            without_trailing_slashes(base_url@) == without_trailing_slashes(
                v@.subrange(0, end as int),
            ),
        decreases end,
    {
        assert(v@.subrange(0, end as int).drop_last() =~= v@.subrange(0, end - 1));
        end = end - 1;
    }
    let mut kept: Vec<char> = Vec::new();
    let mut i: usize = 0;
    while i < end
        invariant
            i <= end <= v@.len(),
            kept@ == v@.subrange(0, i as int),
        decreases end - i,
    {
        kept.push(v[i]);
        assert(kept@ =~= v@.subrange(0, i + 1));
        i = i + 1;
    }
    let mut r = string_of(&kept);
    push_char(&mut r, '/');
    r
}

/// The serialization and scheme of the absolute URL that `text` parses to,
/// or `None` when it is no absolute URL.
pub uninterp spec fn url_parse(text: Seq<char>) -> Option<(Seq<char>, Seq<char>)>;

/// The serialization of the URL that `input` denotes relative to the URL
/// `base`, or `None` when either does not parse.
pub uninterp spec fn url_join(base: Seq<char>, input: Seq<char>) -> Option<Seq<char>>;

/// The serialization of the URL `url` with a trailing empty path segment
/// dropped and `segment` appended as one percent-encoded path segment, or
/// `None` when `url` does not parse or cannot be a base.
pub uninterp spec fn url_push_segment(url: Seq<char>, segment: Seq<char>) -> Option<Seq<char>>;

/// An optional pair of texts seen through their views.
pub open spec fn opt_pair(o: Option<(String, String)>) -> Option<(Seq<char>, Seq<char>)> {
    match o {
        Some((a, b)) => Some((a@, b@)),
        None => None,
    }
}

/// `reqwest::Url::parse` (the `url` crate's `Url::parse`), giving the
/// parsed URL's `as_str` and `scheme`. The contract claims only that the
/// result is the named parse of `text`; what a URL parses to is not stated.
#[verifier::external_body]
fn parse_url(text: &str) -> (r: Option<(String, String)>)
    ensures
        opt_pair(r) == url_parse(text@),
{
    match reqwest::Url::parse(text) {
        Ok(url) => Some((url.as_str().to_owned(), url.scheme().to_owned())),
        Err(_) => None,
    }
}

/// `Url::parse(base)` then `Url::join(input)`, giving the joined URL's
/// `as_str`. The contract claims only that the result is the named join of
/// the two texts.
#[verifier::external_body]
fn join_url(base: &str, input: &str) -> (r: Option<String>)
    ensures
        opt_text(r) == url_join(base@, input@),
{
    match reqwest::Url::parse(base) {
        Ok(url) => match url.join(input) {
            Ok(joined) => Some(joined.as_str().to_owned()),
            Err(_) => None,
        },
        Err(_) => None,
    }
}

/// `Url::parse(url)`, then `path_segments_mut`, `pop_if_empty` and
/// `push(segment)`, giving the URL's `as_str`. The contract claims only
/// that the result is the named one of the two texts.
#[verifier::external_body]
fn push_url_segment(url: &str, segment: &str) -> (r: Option<String>)
    ensures
        opt_text(r) == url_push_segment(url@, segment@),
{
    let mut parsed = match reqwest::Url::parse(url) {
        Ok(parsed) => parsed,
        Err(_) => return None,
    };
    match parsed.path_segments_mut() {
        Ok(mut segments) => {
            segments.pop_if_empty().push(segment);
        },
        Err(()) => return None,
    }
    Some(parsed.as_str().to_owned())
}

/// What the client accepts as the service URL, from the parse of the base
/// URL with one trailing slash: the parsed URL when its scheme is `http` or
/// `https`; otherwise the base URL as given is refused.
pub open spec fn base_url_outcome(
    base_url: Seq<char>,
    parsed: Option<(Seq<char>, Seq<char>)>,
) -> Result<Seq<char>, Seq<char>> {
    match parsed {
        Some((url, scheme)) => if scheme == "http"@ || scheme == "https"@ {
            Ok(url)
        } else {
            Err(base_url)
        },
        None => Err(base_url),
    }
}

/// Settles the service URL from the parse of the normalized base URL: its
/// serialization, or the base URL as given when it is refused.
pub fn check_base_url(base_url: &str, parsed: Option<(String, String)>) -> (r: Result<String, String>)
    ensures
        match base_url_outcome(base_url@, opt_pair(parsed)) {
            Ok(url) => r matches Ok(u) && u@ == url,
            Err(refused) => r matches Err(e) && e@ == refused,
        },
{
    match parsed {
        Some((url, scheme)) => {
            if supported_scheme(scheme.as_str()) {
                Ok(url)
            } else {
                Err(base_url.to_owned())
            }
        },
        None => Err(base_url.to_owned()),
    }
}

/// The service URL for a base URL: the base URL with exactly one trailing
/// slash, parsed, when it is an `http` or `https` URL; otherwise the base URL
/// as given is refused.
pub fn api_base_url(base_url: &str) -> (r: Result<String, String>)
    ensures
        match base_url_outcome(
            base_url@,
            url_parse(without_trailing_slashes(base_url@).push('/')),
        ) {
            Ok(url) => r matches Ok(u) && u@ == url,
            Err(refused) => r matches Err(e) && e@ == refused,
        },
{
    let normalized = normalize_base_url(base_url);
    check_base_url(base_url, parse_url(normalized.as_str()))
}

/// The endpoint that lists and creates runtimes, below the service URL.
pub fn runtimes_endpoint(base_url: &str) -> (r: Option<String>)
    ensures
        opt_text(r) == url_join(base_url@, "v1/runtimes"@),
{
    join_url(base_url, "v1/runtimes")
}

/// The endpoint of one runtime: its id appended as one path segment to the
/// runtimes collection below the service URL.
pub open spec fn runtime_url(base_url: Seq<char>, runtime_id: Seq<char>) -> Result<
    Seq<char>,
    Seq<char>,
> {
    match url_join(base_url, "v1/runtimes/"@) {
        None => Err("static API paths must be valid"@),
        Some(collection) => match url_push_segment(collection, runtime_id) {
            Some(url) => Ok(url),
            None => Err("HTTP API URL must support path segments"@),
        },
    }
}

/// The endpoint of one runtime, or the expectation it breaks.
pub fn runtime_endpoint(base_url: &str, runtime_id: &str) -> (r: Result<String, String>)
    ensures
        match runtime_url(base_url@, runtime_id@) {
            Ok(url) => r matches Ok(u) && u@ == url,
            Err(message) => r matches Err(e) && e@ == message,
        },
{
    let collection = match join_url(base_url, "v1/runtimes/") {
        Some(collection) => collection,
        None => {
            return Err("static API paths must be valid".to_owned());
        },
    };
    match push_url_segment(collection.as_str(), runtime_id) {
        Some(url) => Ok(url),
        None => Err("HTTP API URL must support path segments".to_owned()),
    }
}

/// Whether the service URL uses a scheme the client speaks.
pub fn supported_scheme(scheme: &str) -> (r: bool)
    ensures
        r == (scheme@ == "http"@ || scheme@ == "https"@),
{
    str_equal(scheme, "http") || str_equal(scheme, "https")
}

/// The `detail` field of an error body: a JSON string, or any other JSON
/// value in its compact JSON text.
#[derive(Debug, Clone)]
pub enum ErrorDetail {
    Text(String),
    Json(String),
}

/// The message of a failed response: its non-empty `detail`, else its
/// body, else a fixed message for an empty body.
pub open spec fn detail_message(body: Seq<char>, detail: Option<ErrorDetail>) -> Seq<char> {
    let given = match detail {
        Some(ErrorDetail::Text(s)) => s@,
        Some(ErrorDetail::Json(t)) => t@,
        None => seq![],
    };
    if given.len() > 0 {
        given
    } else if body.len() > 0 {
        body
    } else {
        "request failed without an error body"@
    }
}

/// The message of a failed response with `body`, whose `detail` field
/// (when the body is a JSON object that has one) is given.
pub fn error_detail(body: &str, detail: Option<ErrorDetail>) -> (r: String)
    ensures
        r@ == detail_message(body@, detail),
{
    let given = match detail {
        Some(ErrorDetail::Text(s)) => s,
        Some(ErrorDetail::Json(t)) => t,
        None => String::new(),
    };
    if given.as_str().unicode_len() > 0 {
        given
    } else if body.unicode_len() > 0 {
        body.to_owned()
    } else {
        "request failed without an error body".to_owned()
    }
}

/// The message of a failed response with `body`, from what reading its
/// `detail` member gave: a string member by its text, another member by its
/// compact JSON, nothing when the body is no JSON object with that member.
pub open spec fn failure_text(
    body: Seq<char>,
    detail: Result<Option<(bool, Seq<char>)>, Seq<char>>,
) -> Seq<char> {
    let given = match detail {
        Ok(Some((_, text))) => text,
        _ => seq![],
    };
    if given.len() > 0 {
        given
    } else if body.len() > 0 {
        body
    } else {
        "request failed without an error body"@
    }
}

/// The message of a failed response: the non-empty `detail` member of its
/// JSON body, else the body, else a fixed message for an empty body.
pub fn failure_detail(body: &str) -> (r: String)
    ensures
        r@ == failure_text(body@, json_text_member(body@, "detail"@)),
{
    let detail = match json_text_field(body, "detail") {
        Ok(Some((true, text))) => Some(ErrorDetail::Text(text)),
        Ok(Some((false, text))) => Some(ErrorDetail::Json(text)),
        _ => None,
    };
    error_detail(body, detail)
}

} // verus!
