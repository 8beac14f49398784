//! Signing in to Homebridge: the token it hands out when authentication is
//! off, the login with user name, password and an optional two-factor code,
//! and the one retry after a rejected token.
use vstd::prelude::*;
use crate::errors::two_factor_message;
use crate::models::GlobalSettings;
use crate::session::{CachedToken, TokenResponse, token_from, token_lifetime};
use crate::text::{blank, concat, is_blank, owned, trim, trimmed};

verus! {

/// The authentication method of a token Homebridge gave without a login.
pub open spec fn no_auth_method() -> Seq<char> {
    "Homebridge authentication disabled"@
}

/// The authentication method of a token from a login.
pub open spec fn login_method() -> Seq<char> {
    "Homebridge username/password"@
}

/// The error when Homebridge wants a login and no credentials are set.
pub open spec fn credentials_needed_text() -> Seq<char> {
    "Homebridge requires authentication. Enter its UI username and password"@
}

/// The error after the retry with a fresh token was rejected too.
pub open spec fn auth_failed_text() -> Seq<char> {
    "Homebridge authentication failed"@
}

/// The body of a login request.
#[derive(Debug)]
pub struct LoginRequest {
    pub username: String,
    pub password: String,
    /// The two-factor code; left out of the request when `None`.
    pub otp: Option<String>,
}

/// The settings hold a user name that is not blank and a password.
pub open spec fn has_credentials(username: Seq<char>, password: Seq<char>) -> bool {
    !blank(username) && password.len() > 0
}

/// The two-factor code that is sent: the given one unless it is blank.
pub open spec fn sent_code(otp: Option<Seq<char>>) -> Option<Seq<char>> {
    match otp {
        Some(c) => if blank(c) {
            None
        } else {
            Some(c)
        },
        None => None,
    }
}

/// Whether the settings hold credentials to log in with.
pub fn credentials_present(settings: &GlobalSettings) -> (r: bool)
    ensures
        r == has_credentials(settings@.username, settings@.password),
{
    !is_blank(settings.username.as_str()) && !settings.password.as_str().is_empty()
}

/// The login request for `settings`: the trimmed user name, the password,
/// and the two-factor code unless it is blank.
pub fn login_request(settings: &GlobalSettings, otp: Option<&str>) -> (r: LoginRequest)
    ensures
        r.username@ == trimmed(settings@.username),
        r.password@ == settings@.password,
        crate::models::opt_text(r.otp) == sent_code(
            match otp {
                Some(c) => Some(c@),
                None => None,
            },
        ),
{
    let code = match otp {
        Some(c) => if is_blank(c) {
            None
        } else {
            Some(owned(c))
        },
        None => None,
    };
    LoginRequest {
        username: trim(settings.username.as_str()),
        password: settings.password.clone(),
        otp: code,
    }
}

/// What comes after the request for a token without credentials.
#[derive(Debug)]
pub enum AfterNoAuth {
    /// Authentication is off: this token serves.
    Signed(CachedToken),
    /// Log in with this request.
    Login(LoginRequest),
    /// No login is possible: the error to report.
    Refused(String),
}

/// Decides what follows the request for a token without credentials:
/// `accepted` is the token when Homebridge handed one out. A token is kept
/// as signed with authentication disabled; otherwise a login follows when
/// the settings hold credentials, and fails with a request for them when
/// they do not.
pub fn after_no_auth(
    accepted: Option<TokenResponse>,
    settings: &GlobalSettings,
    otp: Option<&str>,
    now_ns: u128,
    now_epoch: u64,
) -> (r: AfterNoAuth)
    requires
        accepted matches Some(t) ==> now_ns + token_lifetime(t.expires_in as int) * 1_000_000_000 <= u128::MAX,
    ensures
        match accepted {
            Some(t) => r matches AfterNoAuth::Signed(tok) && tok@ == token_from(
                t,
                no_auth_method(),
                now_ns as int,
                now_epoch as int,
            ),
            None => if has_credentials(settings@.username, settings@.password) {
                r matches AfterNoAuth::Login(req) && req.username@ == trimmed(settings@.username)
                    && req.password@ == settings@.password && crate::models::opt_text(req.otp)
                    == sent_code(
                    match otp {
                        Some(c) => Some(c@),
                        None => None,
                    },
                )
            } else {
                r matches AfterNoAuth::Refused(e) && e@ == credentials_needed_text()
            },
        },
{
    match accepted {
        Some(t) => {
            let tok = crate::session::cached_token(t, "Homebridge authentication disabled", now_ns, now_epoch);
            proof {
                reveal_strlit("Homebridge authentication disabled");
            }
            AfterNoAuth::Signed(tok)
        },
        None => {
            if credentials_present(settings) {
                AfterNoAuth::Login(login_request(settings, otp))
            } else {
                AfterNoAuth::Refused(owned("Homebridge requires authentication. Enter its UI username and password"))
            }
        },
    }
}

/// Homebridge's answer to a login.
#[derive(Debug)]
pub enum LoginReply {
    /// HTTP 412: a valid two-factor code is needed; `detail` is what the
    /// error body says.
    TwoFactorRequired(String),
    /// The login was accepted with this token.
    Accepted(TokenResponse),
    /// The login failed otherwise, with this message.
    Failed(String),
}

/// The token or the error that a login's answer gives.
pub fn after_login(reply: LoginReply, now_ns: u128, now_epoch: u64) -> (r: Result<CachedToken, String>)
    requires
        reply matches LoginReply::Accepted(t) ==> now_ns + token_lifetime(t.expires_in as int) * 1_000_000_000
            <= u128::MAX,
    ensures
        match reply {
            LoginReply::TwoFactorRequired(d) => r matches Err(e) && e@
                == "Homebridge requires a valid two-factor authentication code: "@ + d@,
            LoginReply::Accepted(t) => r matches Ok(tok) && tok@ == token_from(
                t,
                login_method(),
                now_ns as int,
                now_epoch as int,
            ),
            LoginReply::Failed(m) => r matches Err(e) && e@ == m@,
        },
{
    match reply {
        LoginReply::TwoFactorRequired(detail) => Err(two_factor_message(detail.as_str())),
        LoginReply::Accepted(t) => {
            let tok = crate::session::cached_token(t, "Homebridge username/password", now_ns, now_epoch);
            proof {
                reveal_strlit("Homebridge username/password");
            }
            Ok(tok)
        },
        LoginReply::Failed(m) => Err(m),
    }
}

/// The `Authorization` header value for a token: its type and the token.
pub fn authorization_value(token: &CachedToken) -> (r: String)
    ensures
        r@ == token.token_type@ + " "@ + token.access_token@,
{
    let head = concat(token.token_type.as_str(), " ");
    concat(head.as_str(), token.access_token.as_str())
}

/// Whether a request is sent again with a fresh token: only after the
/// first attempt was answered with HTTP 401.
pub fn retry_with_fresh_token(status: u16, attempt: u32) -> (r: bool)
    ensures
        r == (status == 401 && attempt == 0),
{
    status == 401 && attempt == 0
}

/// Whether an attempt may use a cached token: only the first one does.
pub fn token_may_be_cached(attempt: u32) -> (r: bool)
    ensures
        r == (attempt == 0),
{
    attempt == 0
}

/// The endpoint a request goes to: the base URL followed by the path.
pub fn endpoint(base_url: &str, path: &str) -> (r: String)
    ensures
        r@ == base_url@ + path@,
{
    concat(base_url, path)
}

/// The error when the retry with a fresh token was rejected too.
pub fn auth_failed_message() -> (r: String)
    ensures
        r@ == auth_failed_text(),
{
    owned("Homebridge authentication failed")
}

} // verus!
