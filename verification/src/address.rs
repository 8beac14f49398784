//! The Homebridge UI address a user enters, brought to the one form that
//! requests are built on, and the request paths built from it.
use vstd::prelude::*;
use vstd::utf8::encode_utf8;
use crate::json::{Json, JsonView, view_json, view_object};
use crate::models::opt_text;
use crate::text::{
    concat, contains, contains_str, ends_with, ends_with_str, owned, same_text, starts_with,
    starts_with_str, strip_trailing, strip_trailing_char, trim, trimmed, chars_of,
    string_from_range,
};

verus! {

/// What the URL parser reads out of an address.
#[derive(Debug)]
pub struct UrlParts {
    pub scheme: String,
    pub host: Option<String>,
    pub username: String,
    pub password: Option<String>,
    pub path: String,
    pub query: Option<String>,
    pub fragment: Option<String>,
}

/// `UrlParts` as plain text.
pub struct UrlPartsView {
    pub scheme: Seq<char>,
    pub host: Option<Seq<char>>,
    pub username: Seq<char>,
    pub password: Option<Seq<char>>,
    pub path: Seq<char>,
    pub query: Option<Seq<char>>,
    pub fragment: Option<Seq<char>>,
}

impl View for UrlParts {
    type V = UrlPartsView;

    open spec fn view(&self) -> UrlPartsView {
        UrlPartsView {
            scheme: self.scheme@,
            host: opt_text(self.host),
            username: self.username@,
            password: opt_text(self.password),
            path: self.path@,
            query: opt_text(self.query),
            fragment: opt_text(self.fragment),
        }
    }
}

/// What `url::Url::parse` makes of `input`: `None` where it refuses it,
/// else the scheme, host, user name, password, path, query and fragment
/// of the URL it parsed.
pub uninterp spec fn parsed_url(input: Seq<char>) -> Option<UrlPartsView>;

/// The serialisation of the URL that `url::Url::parse` makes of `input`,
/// after its path is set to `path` and its query and fragment are removed.
pub uninterp spec fn url_with_path_text(input: Seq<char>, path: Seq<char>) -> Seq<char>;

/// Parses `value` with `url::Url::parse` (reached as `reqwest::Url`) and
/// reads its parts. Trusted: the result is `parsed_url` of the input.
#[verifier::external_body]
fn parse_url(value: &str) -> (r: Option<UrlParts>)
    ensures
        match r {
            Some(p) => parsed_url(value@) == Some(p@),
            None => parsed_url(value@) is None,
        },
{
    match reqwest::Url::parse(value) {
        Ok(u) => Some(UrlParts {
            scheme: u.scheme().to_string(),
            host: u.host_str().map(String::from),
            username: u.username().to_string(),
            password: u.password().map(String::from),
            path: u.path().to_string(),
            query: u.query().map(String::from),
            fragment: u.fragment().map(String::from),
        }),
        Err(_) => None,
    }
}

/// Parses `value` with `url::Url::parse`, sets its path with
/// `Url::set_path`, clears query and fragment with `Url::set_query` and
/// `Url::set_fragment`, and serialises it. Trusted: it succeeds exactly when
/// the parse does, and then gives `url_with_path_text` of its arguments.
#[verifier::external_body]
fn url_with_path(value: &str, path: &str) -> (r: Option<String>)
    ensures
        r is Some <==> parsed_url(value@) is Some,
        r matches Some(s) ==> s@ == url_with_path_text(value@, path@),
{
    match reqwest::Url::parse(value) {
        Ok(mut u) => {
            u.set_path(path);
            u.set_query(None);
            u.set_fragment(None);
            Some(u.to_string())
        },
        Err(_) => None,
    }
}

/// The message for an empty address.
pub open spec fn missing_address_text() -> Seq<char> {
    "enter the Homebridge UI address, for example http://homebridge.local:8581"@
}

/// The message for an address with another scheme than HTTP(S).
pub open spec fn bad_scheme_text() -> Seq<char> {
    "Homebridge URL must use http:// or https://"@
}

/// The message for an address with credentials in it.
pub open spec fn credentials_text() -> Seq<char> {
    "do not include credentials in the Homebridge URL; use the username and password fields"@
}

/// The message for an address with a query or fragment.
pub open spec fn query_text() -> Seq<char> {
    "Homebridge URL must not contain a query string or fragment"@
}

/// The message for an address that normalises to nothing.
pub open spec fn empty_result_text() -> Seq<char> {
    "Homebridge URL is empty after normalisation"@
}

/// The input trimmed and without trailing slashes.
pub open spec fn address_core(input: Seq<char>) -> Seq<char> {
    strip_trailing(trimmed(input), '/')
}

/// `s` starts with `http://` or `https://`.
pub open spec fn has_http_prefix(s: Seq<char>) -> bool {
    starts_with(s, "http://"@) || starts_with(s, "https://"@)
}

/// The address with `http://` put in front where it names no scheme.
pub open spec fn with_scheme(core: Seq<char>) -> Seq<char> {
    if has_http_prefix(core) {
        core
    } else {
        "http://"@ + core
    }
}

/// `path` without trailing slashes and without a final `/api`.
pub open spec fn base_path(path: Seq<char>) -> Seq<char> {
    let p = strip_trailing(path, '/');
    if ends_with(p, "/api"@) {
        p.take(p.len() - 4)
    } else {
        p
    }
}

/// The address to parse: the input trimmed, without trailing slashes, with
/// `http://` in front where it names no scheme; or why it cannot be used.
pub open spec fn address_to_parse(input: Seq<char>) -> Result<Seq<char>, Seq<char>> {
    let core = address_core(input);
    if core.len() == 0 {
        Err(missing_address_text())
    } else if contains(core, "://"@) && !has_http_prefix(core) {
        Err(bad_scheme_text())
    } else {
        Ok(with_scheme(core))
    }
}

/// What an address that parsed into `p` calls for: the path to give it,
/// or why it cannot be used.
pub open spec fn path_for_parts(value: Seq<char>, p: UrlPartsView) -> Result<Seq<char>, Seq<char>> {
    if p.scheme != "http"@ && p.scheme != "https"@ {
        Err(bad_scheme_text())
    } else if p.host is None {
        Err(value + " does not contain a host name"@)
    } else if p.username.len() > 0 || p.password is Some {
        Err(credentials_text())
    } else if p.query is Some || p.fragment is Some {
        Err(query_text())
    } else {
        Ok(base_path(p.path))
    }
}

/// The base URL from the serialised URL: without trailing slashes, and
/// refused when nothing is left.
pub open spec fn finished_base_url(serialised: Seq<char>) -> Result<Seq<char>, Seq<char>> {
    let out = strip_trailing(serialised, '/');
    if out.len() == 0 {
        Err(empty_result_text())
    } else {
        Ok(out)
    }
}

/// The base URL that requests are built on, or the message that says why
/// the address cannot be used.
pub open spec fn base_url_of(input: Seq<char>) -> Result<Seq<char>, Seq<char>> {
    match address_to_parse(input) {
        Err(e) => Err(e),
        Ok(value) => match parsed_url(value) {
            None => Err(value + " is not a valid Homebridge URL"@),
            Some(p) => match path_for_parts(value, p) {
                Err(e) => Err(e),
                Ok(path) => finished_base_url(url_with_path_text(value, path)),
            },
        },
    }
}

fn has_http_prefix_exec(s: &str) -> (r: bool)
    ensures
        r == has_http_prefix(s@),
{
    starts_with_str(s, "http://") || starts_with_str(s, "https://")
}

fn base_path_exec(path: &str) -> (r: String)
    ensures
        r@ == base_path(path@),
{
    let p = strip_trailing_char(path, '/');
    if ends_with_str(p.as_str(), "/api") {
        let cs = chars_of(p.as_str());
        proof {
            reveal_strlit("/api");
        }
        let r = string_from_range(cs.as_slice(), 0, cs.len() - 4);
        assert(cs@.subrange(0, cs@.len() - 4) =~= p@.take(p@.len() - 4));
        r
    } else {
        p
    }
}

/// The address the user entered made ready for the URL parser: trimmed,
/// without trailing slashes, with `http://` where no scheme is given; or
/// why it cannot be used.
pub fn prepare_address(input: &str) -> (r: Result<String, String>)
    ensures
        match r {
            Ok(s) => address_to_parse(input@) == Ok::<Seq<char>, Seq<char>>(s@),
            Err(e) => address_to_parse(input@) == Err::<Seq<char>, Seq<char>>(e@),
        },
{
    let t = trim(input);
    let core = strip_trailing_char(t.as_str(), '/');
    if core.as_str().is_empty() {
        assert(core@.len() == 0);
        return Err(owned("enter the Homebridge UI address, for example http://homebridge.local:8581"));
    }
    assert(core@.len() > 0);
    let prefixed = has_http_prefix_exec(core.as_str());
    if contains_str(core.as_str(), "://") && !prefixed {
        return Err(owned("Homebridge URL must use http:// or https://"));
    }
    if prefixed {
        Ok(core)
    } else {
        Ok(concat("http://", core.as_str()))
    }
}

/// Checks what the URL parser read out of `value`: an HTTP(S) URL with a
/// host and without credentials, query or fragment is given its path
/// without trailing slashes or a final `/api`; any other is refused.
pub fn path_for_url(value: &str, parts: &UrlParts) -> (r: Result<String, String>)
    ensures
        match r {
            Ok(s) => path_for_parts(value@, parts@) == Ok::<Seq<char>, Seq<char>>(s@),
            Err(e) => path_for_parts(value@, parts@) == Err::<Seq<char>, Seq<char>>(e@),
        },
{
    if !same_text(parts.scheme.as_str(), "http") && !same_text(parts.scheme.as_str(), "https") {
        return Err(owned("Homebridge URL must use http:// or https://"));
    }
    if parts.host.is_none() {
        return Err(concat(value, " does not contain a host name"));
    }
    if !parts.username.as_str().is_empty() || parts.password.is_some() {
        assert(parts.username@.len() > 0 || parts.password is Some);
        return Err(
            owned(
                "do not include credentials in the Homebridge URL; use the username and password fields",
            ),
        );
    }
    assert(parts.username@.len() == 0);
    if parts.query.is_some() || parts.fragment.is_some() {
        return Err(owned("Homebridge URL must not contain a query string or fragment"));
    }
    Ok(base_path_exec(parts.path.as_str()))
}

/// The base URL from the URL the parser serialised: without trailing
/// slashes, and refused when nothing is left.
pub fn finish_base_url(serialised: &str) -> (r: Result<String, String>)
    ensures
        match r {
            Ok(s) => finished_base_url(serialised@) == Ok::<Seq<char>, Seq<char>>(s@),
            Err(e) => finished_base_url(serialised@) == Err::<Seq<char>, Seq<char>>(e@),
        },
{
    let out = strip_trailing_char(serialised, '/');
    if out.as_str().is_empty() {
        assert(out@.len() == 0);
        return Err(owned("Homebridge URL is empty after normalisation"));
    }
    assert(out@.len() > 0);
    Ok(out)
}

/// Brings the Homebridge UI address the user entered to the form requests
/// are built on: trimmed, with `http://` where no scheme is given, without
/// a final `/api` or trailing slashes; or says why it cannot be used.
pub fn normalise_base_url(input: &str) -> (r: Result<String, String>)
    ensures
        match r {
            Ok(s) => base_url_of(input@) == Ok::<Seq<char>, Seq<char>>(s@),
            Err(e) => base_url_of(input@) == Err::<Seq<char>, Seq<char>>(e@),
        },
{
    let value = prepare_address(input)?;
    let parts = match parse_url(value.as_str()) {
        None => {
            return Err(concat(value.as_str(), " is not a valid Homebridge URL"));
        },
        Some(p) => p,
    };
    let path = path_for_url(value.as_str(), &parts)?;
    let serialised = match url_with_path(value.as_str(), path.as_str()) {
        Some(s) => s,
        None => {
            return Err(concat(value.as_str(), " is not a valid Homebridge URL"));
        },
    };
    finish_base_url(serialised.as_str())
}

/// An ASCII letter or digit, the bytes that `NON_ALPHANUMERIC` leaves as
/// they are.
pub open spec fn is_ascii_alnum(b: u8) -> bool {
    (48 <= b <= 57) || (65 <= b <= 90) || (97 <= b <= 122)
}

/// The upper-case hexadecimal digit for `d < 16`.
pub open spec fn hex_digit(d: u8) -> char {
    if d < 10 {
        ((d + 48) as u32) as char
    } else {
        ((d + 55) as u32) as char
    }
}

/// One byte percent-encoded against `NON_ALPHANUMERIC`.
pub open spec fn escape_byte(b: u8) -> Seq<char> {
    if is_ascii_alnum(b) {
        seq![(b as u32) as char]
    } else {
        seq!['%', hex_digit(b / 16), hex_digit(b % 16)]
    }
}

/// `bytes` percent-encoded against `NON_ALPHANUMERIC`, byte by byte.
pub open spec fn percent_encoded(bytes: Seq<u8>) -> Seq<char>
    decreases bytes.len(),
{
    if bytes.len() == 0 {
        Seq::empty()
    } else {
        escape_byte(bytes[0]) + percent_encoded(bytes.drop_first())
    }
}

/// `percent_encoding::utf8_percent_encode` with `NON_ALPHANUMERIC`, written
/// out. Trusted: every byte of the UTF-8 encoding that is not an ASCII
/// letter or digit becomes `%` and two upper-case hexadecimal digits.
#[verifier::external_body]
fn percent_encode_text(value: &str) -> (r: String)
    ensures
        r@ == percent_encoded(encode_utf8(value@)),
{
    percent_encoding::utf8_percent_encode(value, percent_encoding::NON_ALPHANUMERIC).to_string()
}

/// The request path of the accessory service `unique_id`.
pub fn accessory_path(unique_id: &str) -> (r: String)
    ensures
        r@ == "/api/accessories/"@ + percent_encoded(encode_utf8(unique_id@)),
{
    let encoded = percent_encode_text(unique_id);
    concat("/api/accessories/", encoded.as_str())
}

/// The body of a write: the characteristic's type and the value.
pub fn write_body(characteristic_type: &str, value: Json) -> (r: Json)
    ensures
        view_json(r) == JsonView::Object(
            seq![
                ("characteristicType"@, JsonView::String(characteristic_type@)),
                ("value"@, view_json(value)),
            ],
        ),
{
    let mut members: Vec<(String, Json)> = Vec::new();
    members.push((owned("characteristicType"), Json::String(owned(characteristic_type))));
    members.push((owned("value"), value));
    proof {
        crate::json::lemma_view_object(members);
    }
    let ghost seen = view_object(members);
    assert(seen =~= seq![
        ("characteristicType"@, JsonView::String(characteristic_type@)),
        ("value"@, view_json(value)),
    ]);
    Json::Object(members)
}

} // verus!
