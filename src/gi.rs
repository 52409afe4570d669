//! Fetching records of the enka.network service: the path of each endpoint,
//! the request sent for it, and what a response turns into.
use vstd::prelude::*;
use crate::decode::{DecodeError, FromJson, decimal, decimal_text};
use crate::json::{Json, json_of_text, parse_json};
use crate::gi::api::AvatarInfo;
use crate::gi::api::player::Response;
use crate::gi::api::player::info::Info;

pub mod api;

verus! {

#[verifier::external_type_specification]
#[verifier::external_body]
pub struct ExRequestError(reqwest::Error);

/// Why a fetch failed.
#[derive(Debug)]
pub enum FetchError {
    /// The request could not be sent, or the response body could not be read.
    Request(reqwest::Error),
    /// The service answered with a status outside the success range; the text
    /// names the status and what it means.
    Response(String),
    /// The body is JSON but does not have the expected shape.
    Deserialization(DecodeError),
    /// The body is not JSON.
    Json(serde_json::Error),
}

pub type Result<T> = core::result::Result<T, FetchError>;

/// The service's address; every endpoint path is appended to it.
pub const HOST: &'static str = "https://enka.network";

/// The user agent sent when the caller gives none.
pub const DEFAULT_USER_AGENT: &'static str = "enka-rs/0.1.0";

/// A GET request to the service.
#[derive(Debug, PartialEq, Eq)]
pub struct Request {
    pub url: String,
    pub user_agent: String,
}

/// Builds the request for `path`, with the caller's user agent or the default one.
pub fn build_request(path: &str, user_agent: Option<String>) -> (r: Request)
    ensures
        r.url@ == HOST@ + path@,
        r.user_agent@ == (match user_agent {
            Some(ua) => ua@,
            None => DEFAULT_USER_AGENT@,
        }),
{
    let mut url = String::from_str(HOST);
    url.append(path);
    let user_agent = match user_agent {
        Some(ua) => ua,
        None => String::from_str(DEFAULT_USER_AGENT),
    };
    Request { url, user_agent }
}

/// The reason phrase that the HTTP standard gives status `code`, if it gives one.
pub uninterp spec fn reason_phrase(code: u16) -> Option<Seq<char>>;

/// Relies on `reqwest::StatusCode` (the `http` crate's): `from_u16` and
/// `canonical_reason`, which looks the code up in the standard's table.
#[verifier::external_body]
fn canonical_reason(code: u16) -> (r: Option<String>)
    ensures
        r matches Some(s) ==> reason_phrase(code) == Some(s@),
        r is None ==> reason_phrase(code) is None,
{
    reqwest::StatusCode::from_u16(code).ok().and_then(|s| s.canonical_reason()).map(String::from)
}

/// The statuses that the service documents, with what each means.
pub open spec fn documented_meaning(code: u16) -> Option<Seq<char>> {
    if code == 400 {
        Some("Bad Request: Wrong UID format"@)
    } else if code == 404 {
        Some("Not Found: Player does not exist (MHY server response)"@)
    } else if code == 424 {
        Some("Failed Dependency: Game maintenance or broken after update"@)
    } else if code == 429 {
        Some("Too Many Requests: Rate-limited (by enka server or MHY server)"@)
    } else if code == 500 {
        Some("Internal Server Error: General server issue"@)
    } else if code == 503 {
        Some("Service Unavailable: Possible major failure on enka end"@)
    } else {
        None
    }
}

/// What a failed status means: the service's own meaning where it documents
/// one, else the standard reason phrase, else `Unknown Error`.
pub open spec fn status_meaning(code: u16) -> Seq<char> {
    match documented_meaning(code) {
        Some(m) => m,
        None => match reason_phrase(code) {
            Some(p) => p,
            None => "Unknown Error"@,
        },
    }
}

/// A status as HTTP writes it: the code, then its reason phrase.
pub open spec fn status_line(code: u16) -> Seq<char> {
    decimal(code as nat) + " "@ + match reason_phrase(code) {
        Some(p) => p,
        None => "<unknown status code>"@,
    }
}

/// The text of the error for a failed status.
pub open spec fn failure_text(code: u16) -> Seq<char> {
    "HTTP "@ + status_line(code) + ": "@ + status_meaning(code)
}

/// The statuses the service uses for success.
pub open spec fn is_success(code: u16) -> bool {
    200 <= code && code < 300
}

/// What status `code` means when it is a failure.
pub fn error_message(code: u16) -> (r: String)
    ensures
        r@ == status_meaning(code),
{
    if code == 400 {
        String::from_str("Bad Request: Wrong UID format")
    } else if code == 404 {
        String::from_str("Not Found: Player does not exist (MHY server response)")
    } else if code == 424 {
        String::from_str("Failed Dependency: Game maintenance or broken after update")
    } else if code == 429 {
        String::from_str("Too Many Requests: Rate-limited (by enka server or MHY server)")
    } else if code == 500 {
        String::from_str("Internal Server Error: General server issue")
    } else if code == 503 {
        String::from_str("Service Unavailable: Possible major failure on enka end")
    } else {
        match canonical_reason(code) {
            Some(p) => p,
            None => String::from_str("Unknown Error"),
        }
    }
}

/// The error for a response with the failed status `code`.
pub fn failure(code: u16) -> (r: FetchError)
    ensures
        r matches FetchError::Response(m) && m@ == failure_text(code),
{
    let mut text = String::from_str("HTTP ");
    let digits = decimal_text(code as u64);
    text.append(digits.as_str());
    text.append(" ");
    match canonical_reason(code) {
        Some(p) => text.append(p.as_str()),
        None => text.append("<unknown status code>"),
    }
    text.append(": ");
    let meaning = error_message(code);
    text.append(meaning.as_str());
    assert(text@ =~= failure_text(code));
    FetchError::Response(text)
}

/// `r` is what the body `text` decodes to as a `T`.
pub open spec fn decoded<T: FromJson>(text: Seq<char>, r: Result<T>) -> bool {
    match json_of_text(text) {
        None => match r {
            Err(FetchError::Json(_)) => true,
            _ => false,
        },
        Some(j) => if T::accepts(j) {
            match r {
                Ok(v) => T::reads(j, v),
                _ => false,
            }
        } else {
            match r {
                Err(FetchError::Deserialization(e)) => T::unknown_variant(j) ==> e
                    == DecodeError::UnknownVariant,
                _ => false,
            }
        },
    }
}

/// `r` is what a response with `status` and `body` turns into, for a `T`.
pub open spec fn answered<T: FromJson>(status: u16, body: Seq<char>, r: Result<T>) -> bool {
    if is_success(status) {
        decoded::<T>(body, r)
    } else {
        match r {
            Err(FetchError::Response(m)) => m@ == failure_text(status),
            _ => false,
        }
    }
}

/// Decodes the body of a successful response as a `T`.
pub fn decode_body<T: FromJson>(text: &str) -> (r: Result<T>)
    ensures
        decoded::<T>(text@, r),
{
    match parse_json(text) {
        Ok(j) => match T::from_json(&j) {
            Ok(v) => Ok(v),
            Err(e) => Err(FetchError::Deserialization(e)),
        },
        Err(e) => Err(FetchError::Json(e)),
    }
}

/// Turns a response into a `T` or an error: a failed status is classified
/// whatever the body holds; a successful one has its body decoded.
pub fn handle_response<T: FromJson>(status: u16, body: &str) -> (r: Result<T>)
    ensures
        answered::<T>(status, body@, r),
{
    if 200 <= status && status < 300 {
        decode_body::<T>(body)
    } else {
        Err(failure(status))
    }
}

/// Path of the player record for `uid`: the full record, or the summary alone.
pub open spec fn player_path_of(uid: u64, info_only: bool) -> Seq<char> {
    let base = "/api/uid/"@ + decimal(uid as nat) + "/"@;
    if info_only {
        base + "?info"@
    } else {
        base
    }
}

pub fn player_path(uid: u64, info_only: bool) -> (r: String)
    ensures
        r@ == player_path_of(uid, info_only),
{
    let mut path = String::from_str("/api/uid/");
    let digits = decimal_text(uid);
    path.append(digits.as_str());
    path.append("/");
    if info_only {
        path.append("?info");
    }
    assert(path@ =~= player_path_of(uid, info_only));
    path
}

/// `r` is what a response to the player endpoint turns into: the summary
/// decoded on its own when `info_only`, else the full record split in two.
pub open spec fn player_answered(
    info_only: bool,
    status: u16,
    body: Seq<char>,
    r: Result<(Info, Option<Vec<AvatarInfo>>)>,
) -> bool {
    if info_only {
        match r {
            Ok((i, l)) => l is None && answered::<Info>(status, body, Ok(i)),
            Err(e) => answered::<Info>(status, body, Err(e)),
        }
    } else {
        match r {
            Ok((i, l)) => answered::<Response>(
                status,
                body,
                Ok(Response { avatar_info_list: l, info: i }),
            ),
            Err(e) => answered::<Response>(status, body, Err(e)),
        }
    }
}

/// Turns a response to the player endpoint into the player's summary and,
/// for the full record, the characters shown.
pub fn player_outcome(info_only: bool, status: u16, body: &str) -> (r: Result<
    (Info, Option<Vec<AvatarInfo>>),
>)
    ensures
        player_answered(info_only, status, body@, r),
{
    if info_only {
        match handle_response::<Info>(status, body) {
            Ok(i) => Ok((i, None)),
            Err(e) => Err(e),
        }
    } else {
        match handle_response::<Response>(status, body) {
            Ok(v) => Ok((v.info, v.avatar_info_list)),
            Err(e) => Err(e),
        }
    }
}

/// Path of the site account `username`.
pub fn profile_path(username: &str) -> (r: String)
    ensures
        r@ == "/api/profile/"@ + username@ + "/?format=json"@,
{
    let mut path = String::from_str("/api/profile/");
    path.append(username);
    path.append("/?format=json");
    path
}

/// Path of the game accounts linked to `username`.
pub fn hoyos_path(username: &str) -> (r: String)
    ensures
        r@ == "/api/profile/"@ + username@ + "/hoyos"@,
{
    let mut path = String::from_str("/api/profile/");
    path.append(username);
    path.append("/hoyos");
    path
}

/// Path of the game account `hash` linked to `username`.
pub fn hoyo_path(username: &str, hash: &str) -> (r: String)
    ensures
        r@ == "/api/profile/"@ + username@ + "/hoyos/"@ + hash@ + "/?format=json"@,
{
    let mut path = String::from_str("/api/profile/");
    path.append(username);
    path.append("/hoyos/");
    path.append(hash);
    path.append("/?format=json");
    path
}

/// Path of the builds saved for the game account `hash` of `username`.
pub fn builds_path(username: &str, hash: &str) -> (r: String)
    ensures
        r@ == "/api/profile/"@ + username@ + "/hoyos/"@ + hash@ + "/builds"@,
{
    let mut path = String::from_str("/api/profile/");
    path.append(username);
    path.append("/hoyos/");
    path.append(hash);
    path.append("/builds");
    path
}

/// Path of the build `build_id` saved for the game account `hash` of `username`.
pub fn build_path(username: &str, hash: &str, build_id: u64) -> (r: String)
    ensures
        r@ == "/api/profile/"@ + username@ + "/hoyos/"@ + hash@ + "/builds/"@ + decimal(
            build_id as nat,
        ),
{
    let mut path = String::from_str("/api/profile/");
    path.append(username);
    path.append("/hoyos/");
    path.append(hash);
    path.append("/builds/");
    let digits = decimal_text(build_id);
    path.append(digits.as_str());
    path
}

} // verus!
