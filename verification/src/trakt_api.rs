//! Request building for the Trakt service: device-flow authentication
//! payloads, the standard header set, the endpoint URLs, and the rules that
//! classify response status codes. The HTTP round trips themselves are
//! performed by the surrounding application; everything it sends, and how it
//! reads each status, is pinned down here.

use vstd::prelude::*;
use vstd::string::StringExecFns;
use crate::text::encode_component;
use crate::text::int_rep;
use crate::text::json_escaped;
use crate::text::pair_views;
use crate::text::push_int;
use crate::text::push_json_escaped;
use crate::text::url_encoded;

verus! {

/// A device code issued by the authentication service.
#[derive(Debug)]
pub struct DeviceCode {
    pub device_code: String,
    pub user_code: String,
    pub verification_url: String,
    pub expires_in: i64,
    pub interval: i64,
}

/// An access token issued or refreshed by the authentication service.
#[derive(Debug)]
pub struct TokenResponse {
    pub access_token: String,
    pub token_type: String,
    pub expires_in: i64,
    pub refresh_token: String,
    pub scope: String,
    pub created_at: i64,
}

/// One string-valued field of a JSON object, with the value escaped.
pub open spec fn json_string_field(name: Seq<char>, value: Seq<char>) -> Seq<char> {
    "\""@ + name + "\":\""@ + json_escaped(value) + "\""@
}

/// Appends one string-valued JSON object field.
fn push_json_string_field(out: &mut String, name: &str, value: &str)
    ensures
        final(out)@ == old(out)@ + json_string_field(name@, value@),
{
    out.append("\"");
    out.append(name);
    out.append("\":\"");
    push_json_escaped(out, value);
    out.append("\"");
    assert(out@ =~= old(out)@ + json_string_field(name@, value@));
}

/// The request body that asks for a device code.
pub fn device_code_body(client_id: &str) -> (r: String)
    ensures
        r@ == "{"@ + json_string_field("client_id"@, client_id@) + "}"@,
{
    let mut out = "{".to_owned();
    push_json_string_field(&mut out, "client_id", client_id);
    out.append("}");
    assert(out@ =~= "{"@ + json_string_field("client_id"@, client_id@) + "}"@);
    out
}

/// The request body that polls a device code for its token.
pub fn poll_token_body(device_code: &str, client_id: &str, client_secret: &str) -> (r: String)
    ensures
        r@ == "{"@ + json_string_field("code"@, device_code@) + ","@ + json_string_field(
            "client_id"@,
            client_id@,
        ) + ","@ + json_string_field("client_secret"@, client_secret@) + "}"@,
{
    let mut out = "{".to_owned();
    push_json_string_field(&mut out, "code", device_code);
    out.append(",");
    push_json_string_field(&mut out, "client_id", client_id);
    out.append(",");
    push_json_string_field(&mut out, "client_secret", client_secret);
    out.append("}");
    assert(out@ =~= "{"@ + json_string_field("code"@, device_code@) + ","@ + json_string_field(
        "client_id"@,
        client_id@,
    ) + ","@ + json_string_field("client_secret"@, client_secret@) + "}"@);
    out
}

/// The request body that exchanges a refresh token for a fresh access token.
pub fn refresh_token_body(refresh_token: &str, client_id: &str, client_secret: &str) -> (r:
    String)
    ensures
        r@ == "{"@ + json_string_field("refresh_token"@, refresh_token@) + ","@
            + json_string_field("client_id"@, client_id@) + ","@ + json_string_field(
            "client_secret"@,
            client_secret@,
        ) + ",\"grant_type\":\"refresh_token\"}"@,
{
    let mut out = "{".to_owned();
    push_json_string_field(&mut out, "refresh_token", refresh_token);
    out.append(",");
    push_json_string_field(&mut out, "client_id", client_id);
    out.append(",");
    push_json_string_field(&mut out, "client_secret", client_secret);
    out.append(",\"grant_type\":\"refresh_token\"}");
    assert(out@ =~= "{"@ + json_string_field("refresh_token"@, refresh_token@) + ","@
        + json_string_field("client_id"@, client_id@) + ","@ + json_string_field(
        "client_secret"@,
        client_secret@,
    ) + ",\"grant_type\":\"refresh_token\"}"@);
    out
}

/// The request body that revokes an access token.
pub fn revoke_token_body(access_token: &str, client_id: &str, client_secret: &str) -> (r: String)
    ensures
        r@ == "{"@ + json_string_field("token"@, access_token@) + ","@ + json_string_field(
            "client_id"@,
            client_id@,
        ) + ","@ + json_string_field("client_secret"@, client_secret@) + "}"@,
{
    let mut out = "{".to_owned();
    push_json_string_field(&mut out, "token", access_token);
    out.append(",");
    push_json_string_field(&mut out, "client_id", client_id);
    out.append(",");
    push_json_string_field(&mut out, "client_secret", client_secret);
    out.append("}");
    assert(out@ =~= "{"@ + json_string_field("token"@, access_token@) + ","@ + json_string_field(
        "client_id"@,
        client_id@,
    ) + ","@ + json_string_field("client_secret"@, client_secret@) + "}"@);
    out
}

/// The authentication endpoint that issues a device code.
pub fn trakt_device_code_url() -> (r: String)
    ensures
        r@ == "https://api.trakt.tv/oauth/device/code"@,
{
    "https://api.trakt.tv/oauth/device/code".to_owned()
}

/// The authentication endpoint that a device code is polled against.
pub fn trakt_device_token_url() -> (r: String)
    ensures
        r@ == "https://api.trakt.tv/oauth/device/token"@,
{
    "https://api.trakt.tv/oauth/device/token".to_owned()
}

/// The authentication endpoint that refreshes a token.
pub fn trakt_token_url() -> (r: String)
    ensures
        r@ == "https://api.trakt.tv/oauth/token"@,
{
    "https://api.trakt.tv/oauth/token".to_owned()
}

/// The authentication endpoint that revokes a token.
pub fn trakt_revoke_url() -> (r: String)
    ensures
        r@ == "https://api.trakt.tv/oauth/revoke"@,
{
    "https://api.trakt.tv/oauth/revoke".to_owned()
}

/// The profile of the authenticated user.
pub fn trakt_user_profile_url() -> (r: String)
    ensures
        r@ == "https://api.trakt.tv/users/me"@,
{
    "https://api.trakt.tv/users/me".to_owned()
}

/// The settings of the authenticated user.
pub fn trakt_user_settings_url() -> (r: String)
    ensures
        r@ == "https://api.trakt.tv/users/settings"@,
{
    "https://api.trakt.tv/users/settings".to_owned()
}

/// The scrobble endpoint that marks playback started.
pub fn trakt_scrobble_start_url() -> (r: String)
    ensures
        r@ == "https://api.trakt.tv/scrobble/start"@,
{
    "https://api.trakt.tv/scrobble/start".to_owned()
}

/// The scrobble endpoint that marks playback paused.
pub fn trakt_scrobble_pause_url() -> (r: String)
    ensures
        r@ == "https://api.trakt.tv/scrobble/pause"@,
{
    "https://api.trakt.tv/scrobble/pause".to_owned()
}

/// The scrobble endpoint that marks playback stopped.
pub fn trakt_scrobble_stop_url() -> (r: String)
    ensures
        r@ == "https://api.trakt.tv/scrobble/stop"@,
{
    "https://api.trakt.tv/scrobble/stop".to_owned()
}

/// The sync endpoint that adds items to the viewing history.
pub fn trakt_history_add_url() -> (r: String)
    ensures
        r@ == "https://api.trakt.tv/sync/history"@,
{
    "https://api.trakt.tv/sync/history".to_owned()
}

/// The sync endpoint that removes items from the viewing history.
pub fn trakt_history_remove_url() -> (r: String)
    ensures
        r@ == "https://api.trakt.tv/sync/history/remove"@,
{
    "https://api.trakt.tv/sync/history/remove".to_owned()
}

/// The sync endpoint that adds items to the watchlist.
pub fn trakt_watchlist_add_url() -> (r: String)
    ensures
        r@ == "https://api.trakt.tv/sync/watchlist"@,
{
    "https://api.trakt.tv/sync/watchlist".to_owned()
}

/// The sync endpoint that removes items from the watchlist.
pub fn trakt_watchlist_remove_url() -> (r: String)
    ensures
        r@ == "https://api.trakt.tv/sync/watchlist/remove"@,
{
    "https://api.trakt.tv/sync/watchlist/remove".to_owned()
}

/// The header list every Trakt request carries: the API version and content
/// type, the API key when a client identifier is given, and a bearer
/// Authorization header when an access token is given.
pub open spec fn trakt_header_list(
    token: Option<Seq<char>>,
    client_id: Option<Seq<char>>,
) -> Seq<(Seq<char>, Seq<char>)> {
    seq![("trakt-api-version"@, "2"@), ("Content-Type"@, "application/json"@)] + (match client_id {
        Some(c) => seq![("trakt-api-key"@, c)],
        None => Seq::<(Seq<char>, Seq<char>)>::empty(),
    }) + (match token {
        Some(t) => seq![("Authorization"@, "Bearer "@ + t)],
        None => Seq::<(Seq<char>, Seq<char>)>::empty(),
    })
}

/// Builds the Trakt header list for a request.
pub fn trakt_headers(token: &Option<String>, client_id: &Option<String>) -> (r: Vec<
    (String, String),
>)
    ensures
        pair_views(r@) == trakt_header_list(
            match token {
                Some(t) => Some(t@),
                None => None,
            },
            match client_id {
                Some(c) => Some(c@),
                None => None,
            },
        ),
{
    let mut v: Vec<(String, String)> = Vec::new();
    v.push(("trakt-api-version".to_owned(), "2".to_owned()));
    v.push(("Content-Type".to_owned(), "application/json".to_owned()));
    match client_id {
        Some(c) => {
            v.push(("trakt-api-key".to_owned(), c.clone()));
        },
        None => {},
    }
    match token {
        Some(t) => {
            let mut bearer = "Bearer ".to_owned();
            bearer.append(t.as_str());
            v.push(("Authorization".to_owned(), bearer));
        },
        None => {},
    }
    assert(pair_views(v@) =~= trakt_header_list(
        match token {
            Some(t) => Some(t@),
            None => None,
        },
        match client_id {
            Some(c) => Some(c@),
            None => None,
        },
    ));
    v
}

/// Whether a response status code counts as success.
pub fn status_is_success(code: u16) -> (r: bool)
    ensures
        r == (200 <= code < 300),
{
    200 <= code && code < 300
}

/// How one poll of the device-token endpoint is to be read.
#[derive(Debug, Clone, Copy, PartialEq, Eq, Structural)]
pub enum PollOutcome {
    /// The user has not approved the device yet; poll again.
    Pending,
    /// The token is in the response body.
    Ready,
    /// The poll failed.
    Failed,
}

/// How a device-token poll reads a status code: 400 means still pending,
/// any other success code carries the token, anything else is a failure.
pub open spec fn poll_outcome_of(code: u16) -> PollOutcome {
    if code == 400 {
        PollOutcome::Pending
    } else if 200 <= code < 300 {
        PollOutcome::Ready
    } else {
        PollOutcome::Failed
    }
}

/// Classifies one status code of the device-token endpoint.
pub fn poll_token_disposition(code: u16) -> (r: PollOutcome)
    ensures
        r == poll_outcome_of(code),
{
    if code == 400 {
        PollOutcome::Pending
    } else if 200 <= code && code < 300 {
        PollOutcome::Ready
    } else {
        PollOutcome::Failed
    }
}

/// The message reported when a request comes back with a failure status.
pub fn failure_message(action: &str, status: &str) -> (r: String)
    ensures
        r@ == "Failed to "@ + action@ + ": "@ + status@,
{
    let mut out = "Failed to ".to_owned();
    out.append(action);
    out.append(": ");
    out.append(status);
    assert(out@ =~= "Failed to "@ + action@ + ": "@ + status@);
    out
}

/// An optional extra path segment, as `/<segment>`.
pub open spec fn opt_path_segment(segment: Option<Seq<char>>) -> Seq<char> {
    match segment {
        Some(s) => "/"@ + s,
        None => Seq::<char>::empty(),
    }
}

/// An optional limit, rendered with the given separator as `<sep>limit=<n>`.
pub open spec fn opt_limit(sep: Seq<char>, limit: Option<int>) -> Seq<char> {
    match limit {
        Some(l) => sep + "limit="@ + int_rep(l),
        None => Seq::<char>::empty(),
    }
}

/// Appends `<sep>limit=<n>` when a limit is given.
fn push_opt_limit(out: &mut String, sep: &str, limit: &Option<i32>)
    ensures
        final(out)@ == old(out)@ + opt_limit(
            sep@,
            match limit {
                Some(l) => Some(l as int),
                None => None,
            },
        ),
{
    match limit {
        Some(l) => {
            out.append(sep);
            out.append("limit=");
            push_int(out, *l as i64);
            assert(out@ =~= old(out)@ + opt_limit(sep@, Some(*l as int)));
        },
        None => {
            assert(out@ =~= old(out)@ + opt_limit(
                sep@,
                None::<int>,
            ));
        },
    }
}

/// The viewing-history endpoint, optionally narrowed to one media kind and
/// capped at a number of entries.
pub fn trakt_history_url(kind: &Option<String>, limit: &Option<i32>) -> (r: String)
    ensures
        r@ == "https://api.trakt.tv/users/me/history"@ + opt_path_segment(
            match kind {
                Some(k) => Some(k@),
                None => None,
            },
        ) + opt_limit(
            "?"@,
            match limit {
                Some(l) => Some(l as int),
                None => None,
            },
        ),
{
    let mut out = "https://api.trakt.tv/users/me/history".to_owned();
    match kind {
        Some(k) => {
            out.append("/");
            out.append(k.as_str());
        },
        None => {},
    }
    push_opt_limit(&mut out, "?", limit);
    assert(out@ =~= "https://api.trakt.tv/users/me/history"@ + opt_path_segment(
        match kind {
            Some(k) => Some(k@),
            None => None,
        },
    ) + opt_limit(
        "?"@,
        match limit {
            Some(l) => Some(l as int),
            None => None,
        },
    ));
    out
}

/// The watchlist endpoint, optionally narrowed to one media kind.
pub fn trakt_watchlist_url(kind: &Option<String>) -> (r: String)
    ensures
        r@ == "https://api.trakt.tv/users/me/watchlist"@ + opt_path_segment(
            match kind {
                Some(k) => Some(k@),
                None => None,
            },
        ),
{
    let mut out = "https://api.trakt.tv/users/me/watchlist".to_owned();
    match kind {
        Some(k) => {
            out.append("/");
            out.append(k.as_str());
        },
        None => {},
    }
    assert(out@ =~= "https://api.trakt.tv/users/me/watchlist"@ + opt_path_segment(
        match kind {
            Some(k) => Some(k@),
            None => None,
        },
    ));
    out
}

/// The watched-progress endpoint for one media kind, with an optional sort.
pub fn trakt_progress_url(kind: &str, sort: &Option<String>) -> (r: String)
    ensures
        r@ == "https://api.trakt.tv/users/me/watched/"@ + kind@ + "/progress"@ + (match sort {
            Some(s) => "?sort="@ + s@,
            None => Seq::<char>::empty(),
        }),
{
    let mut out = "https://api.trakt.tv/users/me/watched/".to_owned();
    out.append(kind);
    out.append("/progress");
    match sort {
        Some(s) => {
            out.append("?sort=");
            out.append(s.as_str());
        },
        None => {},
    }
    assert(out@ =~= "https://api.trakt.tv/users/me/watched/"@ + kind@ + "/progress"@ + (
    match sort {
        Some(s) => "?sort="@ + s@,
        None => Seq::<char>::empty(),
    }));
    out
}

/// The recommendations endpoint for one media kind, optionally capped.
pub fn trakt_recommendations_url(kind: &str, limit: &Option<i32>) -> (r: String)
    ensures
        r@ == "https://api.trakt.tv/recommendations/"@ + kind@ + opt_limit(
            "?"@,
            match limit {
                Some(l) => Some(l as int),
                None => None,
            },
        ),
{
    let mut out = "https://api.trakt.tv/recommendations/".to_owned();
    out.append(kind);
    push_opt_limit(&mut out, "?", limit);
    assert(out@ =~= "https://api.trakt.tv/recommendations/"@ + kind@ + opt_limit(
        "?"@,
        match limit {
            Some(l) => Some(l as int),
            None => None,
        },
    ));
    out
}

/// The search endpoint: the media kinds searched (default "movie,show"), the
/// percent-encoded query, and an optional result cap.
pub fn trakt_search_url(query: &str, kind: &Option<String>, limit: &Option<i32>) -> (r: String)
    ensures
        r@ == "https://api.trakt.tv/search/"@ + (match kind {
            Some(k) => k@,
            None => "movie,show"@,
        }) + "?query="@ + url_encoded(query@) + opt_limit(
            "&"@,
            match limit {
                Some(l) => Some(l as int),
                None => None,
            },
        ),
{
    let mut out = "https://api.trakt.tv/search/".to_owned();
    match kind {
        Some(k) => out.append(k.as_str()),
        None => out.append("movie,show"),
    }
    out.append("?query=");
    let encoded = encode_component(query);
    out.append(encoded.as_str());
    push_opt_limit(&mut out, "&", limit);
    assert(out@ =~= "https://api.trakt.tv/search/"@ + (match kind {
        Some(k) => k@,
        None => "movie,show"@,
    }) + "?query="@ + url_encoded(query@) + opt_limit(
        "&"@,
        match limit {
            Some(l) => Some(l as int),
            None => None,
        },
    ));
    out
}

/// The popularity listing for one media kind, optionally capped.
pub fn trakt_popular_url(kind: &str, limit: &Option<i32>) -> (r: String)
    ensures
        r@ == "https://api.trakt.tv/"@ + kind@ + "/popular"@ + opt_limit(
            "?"@,
            match limit {
                Some(l) => Some(l as int),
                None => None,
            },
        ),
{
    let mut out = "https://api.trakt.tv/".to_owned();
    out.append(kind);
    out.append("/popular");
    push_opt_limit(&mut out, "?", limit);
    assert(out@ =~= "https://api.trakt.tv/"@ + kind@ + "/popular"@ + opt_limit(
        "?"@,
        match limit {
            Some(l) => Some(l as int),
            None => None,
        },
    ));
    out
}

} // verus!
