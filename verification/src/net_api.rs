//! Request building for the TMDB and Plex catalog services: the exact URLs
//! and header lists each passthrough call sends. The calls themselves are
//! plain HTTP round trips performed by the surrounding application; every
//! string it sends is assembled and pinned down here.

use vstd::prelude::*;
use vstd::string::StringExecFns;
use crate::text::encode_component;
use crate::text::int_rep;
use crate::text::pair_views;
use crate::text::push_int;
use crate::text::stripped_question_marks;
use crate::text::strip_leading_question_marks;
use crate::text::trim_trailing_slashes;
use crate::text::trimmed_slashes;
use crate::text::url_encoded;

verus! {

/// The TMDB trending endpoint for a media kind and time window.
pub fn tmdb_trending_url(media: &str, window: &str) -> (r: String)
    ensures
        r@ == "https://api.themoviedb.org/3/trending/"@ + media@ + "/"@ + window@,
{
    let mut out = "https://api.themoviedb.org/3/trending/".to_owned();
    out.append(media);
    out.append("/");
    out.append(window);
    assert(out@ =~= "https://api.themoviedb.org/3/trending/"@ + media@ + "/"@ + window@);
    out
}

/// The header every Plex server request carries to ask for a JSON body.
pub fn accept_json_header() -> (r: (String, String))
    ensures
        r.0@ == "Accept"@,
        r.1@ == "application/json"@,
{
    ("Accept".to_owned(), "application/json".to_owned())
}

/// The plex.tv endpoint that creates a login pin.
pub fn plex_pin_create_url() -> (r: String)
    ensures
        r@ == "https://plex.tv/api/v2/pins"@,
{
    "https://plex.tv/api/v2/pins".to_owned()
}

/// The plex.tv endpoint that lists the account's server resources.
pub fn plex_resources_url() -> (r: String)
    ensures
        r@ == "https://plex.tv/api/v2/resources?includeHttps=1&includeRelay=1"@,
{
    "https://plex.tv/api/v2/resources?includeHttps=1&includeRelay=1".to_owned()
}

/// The value of a bearer-token Authorization header.
pub fn bearer_value(token: &str) -> (r: String)
    ensures
        r@ == "Bearer "@ + token@,
{
    let mut out = "Bearer ".to_owned();
    out.append(token);
    out
}

/// A bearer-token Authorization header, as a name/value pair.
pub fn authorization_header(token: &str) -> (r: (String, String))
    ensures
        r.0@ == "Authorization"@,
        r.1@ == "Bearer "@ + token@,
{
    ("Authorization".to_owned(), bearer_value(token))
}

/// The two headers the Trakt trending passthrough sends: the API version and
/// the caller's API key.
pub fn trakt_trending_headers(client_id: &str) -> (r: Vec<(String, String)>)
    ensures
        pair_views(r@) == seq![("trakt-api-version"@, "2"@), ("trakt-api-key"@, client_id@)],
{
    let mut v: Vec<(String, String)> = Vec::new();
    v.push(("trakt-api-version".to_owned(), "2".to_owned()));
    v.push(("trakt-api-key".to_owned(), client_id.to_owned()));
    assert(pair_views(v@) =~= seq![("trakt-api-version"@, "2"@), ("trakt-api-key"@, client_id@)]);
    v
}

/// The fixed Plex client identification headers, with the caller's client
/// identifier.
pub fn plex_headers(client_id: &str) -> (r: Vec<(String, String)>)
    ensures
        pair_views(r@) == seq![
            ("X-Plex-Product"@, "MPV Plex Client"@),
            ("X-Plex-Version"@, "1.0"@),
            ("X-Plex-Client-Identifier"@, client_id@),
            ("X-Plex-Platform"@, "Tauri"@),
            ("X-Plex-Device"@, "Desktop"@),
        ],
{
    let mut v: Vec<(String, String)> = Vec::new();
    v.push(("X-Plex-Product".to_owned(), "MPV Plex Client".to_owned()));
    v.push(("X-Plex-Version".to_owned(), "1.0".to_owned()));
    v.push(("X-Plex-Client-Identifier".to_owned(), client_id.to_owned()));
    v.push(("X-Plex-Platform".to_owned(), "Tauri".to_owned()));
    v.push(("X-Plex-Device".to_owned(), "Desktop".to_owned()));
    assert(pair_views(v@) =~= seq![
        ("X-Plex-Product"@, "MPV Plex Client"@),
        ("X-Plex-Version"@, "1.0"@),
        ("X-Plex-Client-Identifier"@, client_id@),
        ("X-Plex-Platform"@, "Tauri"@),
        ("X-Plex-Device"@, "Desktop"@),
    ]);
    v
}

/// The Plex client headers together with the account token header, for the
/// plex.tv resource listing.
pub fn plex_token_headers(client_id: &str, account_token: &str) -> (r: Vec<(String, String)>)
    ensures
        pair_views(r@) == seq![
            ("X-Plex-Product"@, "MPV Plex Client"@),
            ("X-Plex-Version"@, "1.0"@),
            ("X-Plex-Client-Identifier"@, client_id@),
            ("X-Plex-Platform"@, "Tauri"@),
            ("X-Plex-Device"@, "Desktop"@),
            ("X-Plex-Token"@, account_token@),
        ],
{
    let mut v: Vec<(String, String)> = Vec::new();
    v.push(("X-Plex-Product".to_owned(), "MPV Plex Client".to_owned()));
    v.push(("X-Plex-Version".to_owned(), "1.0".to_owned()));
    v.push(("X-Plex-Client-Identifier".to_owned(), client_id.to_owned()));
    v.push(("X-Plex-Platform".to_owned(), "Tauri".to_owned()));
    v.push(("X-Plex-Device".to_owned(), "Desktop".to_owned()));
    v.push(("X-Plex-Token".to_owned(), account_token.to_owned()));
    assert(pair_views(v@) =~= seq![
        ("X-Plex-Product"@, "MPV Plex Client"@),
        ("X-Plex-Version"@, "1.0"@),
        ("X-Plex-Client-Identifier"@, client_id@),
        ("X-Plex-Platform"@, "Tauri"@),
        ("X-Plex-Device"@, "Desktop"@),
        ("X-Plex-Token"@, account_token@),
    ]);
    v
}

/// The plex.tv endpoint that polls one login pin.
pub fn plex_pin_poll_url(pin_id: i64) -> (r: String)
    ensures
        r@ == "https://plex.tv/api/v2/pins/"@ + int_rep(pin_id as int),
{
    let mut out = "https://plex.tv/api/v2/pins/".to_owned();
    push_int(&mut out, pin_id);
    out
}

/// A Plex server URL of the shape `<base>/<path>?X-Plex-Token=<token>`, with
/// trailing slashes trimmed off the base.
pub open spec fn plex_tokened_url(base: Seq<char>, path: Seq<char>, token: Seq<char>) -> Seq<
    char,
> {
    trimmed_slashes(base) + path + "?X-Plex-Token="@ + token
}

/// Joins a Plex server URL from its base, a path, and the access token.
fn build_plex_tokened_url(base: &str, path: &str, token: &str) -> (r: String)
    ensures
        r@ == plex_tokened_url(base@, path@, token@),
{
    let mut out = trim_trailing_slashes(base);
    out.append(path);
    out.append("?X-Plex-Token=");
    out.append(token);
    assert(out@ =~= plex_tokened_url(base@, path@, token@));
    out
}

/// The identity probe of one Plex server.
pub fn plex_identity_url(base: &str, token: &str) -> (r: String)
    ensures
        r@ == plex_tokened_url(base@, "/identity"@, token@),
{
    build_plex_tokened_url(base, "/identity", token)
}

/// The library section listing of one Plex server.
pub fn plex_sections_url(base: &str, token: &str) -> (r: String)
    ensures
        r@ == plex_tokened_url(base@, "/library/sections"@, token@),
{
    build_plex_tokened_url(base, "/library/sections", token)
}

/// The on-deck listing of one library section.
pub fn plex_on_deck_url(base: &str, token: &str, library_key: &str) -> (r: String)
    ensures
        r@ == plex_tokened_url(base@, "/library/sections/"@ + library_key@ + "/onDeck"@, token@),
{
    let mut path = "/library/sections/".to_owned();
    path.append(library_key);
    path.append("/onDeck");
    assert(path@ =~= "/library/sections/"@ + library_key@ + "/onDeck"@);
    build_plex_tokened_url(base, path.as_str(), token)
}

/// The server-wide on-deck listing.
pub fn plex_on_deck_global_url(base: &str, token: &str) -> (r: String)
    ensures
        r@ == plex_tokened_url(base@, "/library/onDeck"@, token@),
{
    build_plex_tokened_url(base, "/library/onDeck", token)
}

/// The metadata of one item.
pub fn plex_metadata_url(base: &str, token: &str, rating_key: &str) -> (r: String)
    ensures
        r@ == plex_tokened_url(base@, "/library/metadata/"@ + rating_key@, token@),
{
    let mut path = "/library/metadata/".to_owned();
    path.append(rating_key);
    assert(path@ =~= "/library/metadata/"@ + rating_key@);
    build_plex_tokened_url(base, path.as_str(), token)
}

/// The children of one item.
pub fn plex_children_url(base: &str, token: &str, rating_key: &str) -> (r: String)
    ensures
        r@ == plex_tokened_url(
            base@,
            "/library/metadata/"@ + rating_key@ + "/children"@,
            token@,
        ),
{
    let mut path = "/library/metadata/".to_owned();
    path.append(rating_key);
    path.append("/children");
    assert(path@ =~= "/library/metadata/"@ + rating_key@ + "/children"@);
    build_plex_tokened_url(base, path.as_str(), token)
}

/// The query-string portion of a section-wide listing: the caller's filter
/// parameters, or the default movie-by-recency filter; a '?' is supplied when
/// the parameters do not start with one, and leading question marks are
/// stripped from the parameters themselves.
pub open spec fn sections_all_query(params: Option<Seq<char>>) -> Seq<char> {
    let qs = match params {
        Some(q) => q,
        None => "?type=1&sort=addedAt:desc"@,
    };
    (if qs.len() > 0 && qs[0] == '?' {
        Seq::<char>::empty()
    } else {
        "?"@
    }) + stripped_question_marks(qs)
}

/// The full listing of one library section, with optional filter parameters.
pub fn plex_sections_all_url(
    base: &str,
    token: &str,
    section_key: &str,
    params: &Option<String>,
) -> (r: String)
    ensures
        r@ == trimmed_slashes(base@) + "/library/sections/"@ + section_key@ + "/all"@
            + sections_all_query(
            match params {
                Some(q) => Some(q@),
                None => None,
            },
        ) + "X-Plex-Token="@ + token@,
{
    let mut out = trim_trailing_slashes(base);
    out.append("/library/sections/");
    out.append(section_key);
    out.append("/all");
    let qs: &str = match params {
        Some(q) => q.as_str(),
        None => "?type=1&sort=addedAt:desc",
    };
    let starts_with_mark = qs.unicode_len() > 0 && qs.get_char(0) == '?';
    if !starts_with_mark {
        out.append("?");
    }
    let stripped = strip_leading_question_marks(qs);
    out.append(stripped.as_str());
    out.append("X-Plex-Token=");
    out.append(token);
    assert(out@ =~= trimmed_slashes(base@) + "/library/sections/"@ + section_key@ + "/all"@
        + sections_all_query(
        match params {
            Some(q) => Some(q@),
            None => None,
        },
    ) + "X-Plex-Token="@ + token@);
    out
}

/// The library search endpoint: the item type filter (default "1", movies),
/// the percent-encoded query, and the access token.
pub fn plex_search_url(base: &str, token: &str, query: &str, type_filter: &Option<String>) -> (r:
    String)
    ensures
        r@ == trimmed_slashes(base@) + "/search?type="@ + (match type_filter {
            Some(t) => t@,
            None => "1"@,
        }) + "&query="@ + url_encoded(query@) + "&X-Plex-Token="@ + token@,
{
    let mut out = trim_trailing_slashes(base);
    out.append("/search?type=");
    match type_filter {
        Some(t) => out.append(t.as_str()),
        None => out.append("1"),
    }
    out.append("&query=");
    let encoded = encode_component(query);
    out.append(encoded.as_str());
    out.append("&X-Plex-Token=");
    out.append(token);
    assert(out@ =~= trimmed_slashes(base@) + "/search?type="@ + (match type_filter {
        Some(t) => t@,
        None => "1"@,
    }) + "&query="@ + url_encoded(query@) + "&X-Plex-Token="@ + token@);
    out
}

/// The library-wide GUID lookup, with an optional item type filter appended.
pub fn plex_find_guid_url(base: &str, token: &str, guid: &str, type_filter: &Option<String>) -> (r:
    String)
    ensures
        r@ == trimmed_slashes(base@) + "/library/all?guid="@ + url_encoded(guid@)
            + "&X-Plex-Token="@ + token@ + (match type_filter {
            Some(t) => "&type="@ + t@,
            None => Seq::<char>::empty(),
        }),
{
    let mut out = trim_trailing_slashes(base);
    out.append("/library/all?guid=");
    let encoded = encode_component(guid);
    out.append(encoded.as_str());
    out.append("&X-Plex-Token=");
    out.append(token);
    match type_filter {
        Some(t) => {
            out.append("&type=");
            out.append(t.as_str());
        },
        None => {},
    }
    assert(out@ =~= trimmed_slashes(base@) + "/library/all?guid="@ + url_encoded(guid@)
        + "&X-Plex-Token="@ + token@ + (match type_filter {
        Some(t) => "&type="@ + t@,
        None => Seq::<char>::empty(),
    }));
    out
}

/// The Trakt trending endpoint for a media kind.
pub fn trakt_trending_url(kind: &str) -> (r: String)
    ensures
        r@ == "https://api.trakt.tv/"@ + kind@ + "/trending"@,
{
    let mut out = "https://api.trakt.tv/".to_owned();
    out.append(kind);
    out.append("/trending");
    assert(out@ =~= "https://api.trakt.tv/"@ + kind@ + "/trending"@);
    out
}

} // verus!
