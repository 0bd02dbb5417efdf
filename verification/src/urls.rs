use vstd::prelude::*;

verus! {

/// What `url::Url::parse` makes of a text: the serialization of the parsed URL,
/// or the message of the parse error.
pub uninterp spec fn parsed_url(input: Seq<char>) -> Result<Seq<char>, Seq<char>>;

/// The last segment of the path of the URL parsed from a text (`None` for a URL
/// that cannot be a base); meaningful where `parsed_url` succeeds.
pub uninterp spec fn url_last_segment(input: Seq<char>) -> Option<Seq<char>>;

/// What `url::Url::join` makes of a reference against the URL parsed from `base`:
/// the serialization of the joined URL, or the message of the parse error.
pub uninterp spec fn joined_url(base: Seq<char>, reference: Seq<char>) -> Result<Seq<char>, Seq<char>>;

/// What `url::Url::set_path` makes of the URL parsed from a text: the
/// serialization after the path is replaced.
pub uninterp spec fn url_with_path(url: Seq<char>, path: Seq<char>) -> Seq<char>;

/// The text of an optional string.
pub open spec fn opt_text(value: Option<String>) -> Option<Seq<char>> {
    match value {
        Some(v) => Some(v@),
        None => None,
    }
}

/// A text outcome read as texts.
pub open spec fn text_result(r: Result<String, String>) -> Result<Seq<char>, Seq<char>> {
    match r {
        Ok(s) => Ok(s@),
        Err(m) => Err(m@),
    }
}

/// A failure carrying a message.
pub open spec fn failure(message: String) -> Result<Seq<char>, Seq<char>> {
    Err(message@)
}

/// Calls `url::Url::parse` and reads the URL back with its `Display` (its
/// serialization), or the error with its `Display`.
///
/// Claimed: the outcome is the function `parsed_url` of the text.
#[verifier::external_body]
pub(crate) fn parse_url(input: &str) -> (outcome: Result<String, String>)
    ensures
        parsed_url(input@) == text_result(outcome),
{
    match url::Url::parse(input) {
        Ok(u) => Ok(u.to_string()),
        Err(e) => Err(e.to_string()),
    }
}

/// Calls `url::Url::parse`, then takes the last item of `Url::path_segments`.
///
/// Claimed: it fails exactly when `parse_url` fails on the same text, with the
/// same message; on success the segment is the function `url_last_segment` of the
/// text and, as `path_segments` splits the path on `/`, holds no `/`.
#[verifier::external_body]
pub(crate) fn last_path_segment(input: &str) -> (outcome: Result<Option<String>, String>)
    ensures
        (outcome is Ok) == (parsed_url(input@) is Ok),
        outcome matches Err(m) ==> parsed_url(input@) == failure(m),
        outcome matches Ok(seg) ==> url_last_segment(input@) == opt_text(seg),
        outcome matches Ok(Some(k)) ==> !k@.contains('/'),
{
    match url::Url::parse(input) {
        Ok(u) => Ok(u.path_segments().and_then(|s| s.last()).map(|k| k.to_string())),
        Err(e) => Err(e.to_string()),
    }
}

/// Calls `url::Url::parse` on `base` and then `Url::join` with `reference`,
/// reading the outcome with `Display`.
///
/// Claimed: the outcome is the function `joined_url` of the two texts. The base
/// must parse (the caller has checked it with `parse_url`).
#[verifier::external_body]
pub(crate) fn join_url(base: &str, reference: &str) -> (outcome: Result<String, String>)
    requires
        parsed_url(base@) is Ok,
    ensures
        joined_url(base@, reference@) == text_result(outcome),
{
    match url::Url::parse(base) {
        Ok(b) => match b.join(reference) {
            Ok(u) => Ok(u.to_string()),
            Err(e) => Err(e.to_string()),
        },
        Err(e) => Err(e.to_string()),
    }
}

/// Calls `url::Url::parse`, then `Url::set_path`, and reads the URL back with
/// `Display`.
///
/// Claimed: the outcome is the function `url_with_path` of the two texts. The URL
/// must parse (the caller has checked it with `parse_url`).
#[verifier::external_body]
pub(crate) fn set_url_path(url: &str, path: &str) -> (outcome: String)
    requires
        parsed_url(url@) is Ok,
    ensures
        outcome@ == url_with_path(url@, path@),
{
    match url::Url::parse(url) {
        Ok(mut u) => {
            u.set_path(path);
            u.to_string()
        },
        Err(e) => e.to_string(),
    }
}

} // verus!
