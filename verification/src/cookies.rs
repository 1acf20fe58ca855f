//! The cookies that carry a session.
//!
//! Both are `HttpOnly` and `SameSite=Strict`. The refresh cookie is scoped
//! to the authentication routes: it is never sent on ordinary requests.
use vstd::prelude::*;

verus! {

pub const ACCESS_COOKIE: &'static str = "access_token";
pub const REFRESH_COOKIE: &'static str = "refresh_token";
pub const ACCESS_COOKIE_PATH: &'static str = "/";
pub const REFRESH_COOKIE_PATH: &'static str = "/api/v1/auth";

/// A cookie to set: its attributes, as the `Set-Cookie` header carries them.
pub struct CookieSpec {
    pub name: &'static str,
    pub value: String,
    pub path: &'static str,
    pub http_only: bool,
    pub secure: bool,
    pub same_site_strict: bool,
    /// Lifetime in seconds; `Some(0)` removes the cookie.
    pub max_age_secs: Option<i64>,
}

/// Whether `c` is a session cookie named `name` at `path`, `HttpOnly`,
/// `SameSite=Strict` and `Secure` as configured.
pub open spec fn session_cookie(c: CookieSpec, name: Seq<char>, path: Seq<char>, secure: bool) -> bool {
    &&& c.name@ == name
    &&& c.path@ == path
    &&& c.http_only
    &&& c.same_site_strict
    &&& c.secure == secure
}

/// The cookies set after a login or a refresh.
pub fn auth_cookies(cookie_secure: bool, access: &str, refresh: &str, access_ttl_secs: i64, refresh_ttl_secs: i64)
    -> (c: (CookieSpec, CookieSpec))
    ensures
        session_cookie(c.0, ACCESS_COOKIE@, ACCESS_COOKIE_PATH@, cookie_secure),
        c.0.value@ == access@,
        c.0.max_age_secs == Some(access_ttl_secs),
        session_cookie(c.1, REFRESH_COOKIE@, REFRESH_COOKIE_PATH@, cookie_secure),
        c.1.value@ == refresh@,
        c.1.max_age_secs == Some(refresh_ttl_secs),
{
    let access_cookie = CookieSpec {
        name: ACCESS_COOKIE,
        value: String::from_str(access),
        path: ACCESS_COOKIE_PATH,
        http_only: true,
        secure: cookie_secure,
        same_site_strict: true,
        max_age_secs: Some(access_ttl_secs),
    };
    let refresh_cookie = CookieSpec {
        name: REFRESH_COOKIE,
        value: String::from_str(refresh),
        path: REFRESH_COOKIE_PATH,
        http_only: true,
        secure: cookie_secure,
        same_site_strict: true,
        max_age_secs: Some(refresh_ttl_secs),
    };
    (access_cookie, refresh_cookie)
}

/// The cookies that remove the session at logout: empty and expired.
pub fn cleared_auth_cookies(cookie_secure: bool) -> (c: (CookieSpec, CookieSpec))
    ensures
        session_cookie(c.0, ACCESS_COOKIE@, ACCESS_COOKIE_PATH@, cookie_secure),
        c.0.value@.len() == 0,
        c.0.max_age_secs == Some(0i64),
        session_cookie(c.1, REFRESH_COOKIE@, REFRESH_COOKIE_PATH@, cookie_secure),
        c.1.value@.len() == 0,
        c.1.max_age_secs == Some(0i64),
{
    (
        CookieSpec {
            name: ACCESS_COOKIE,
            value: String::new(),
            path: ACCESS_COOKIE_PATH,
            http_only: true,
            secure: cookie_secure,
            same_site_strict: true,
            max_age_secs: Some(0),
        },
        CookieSpec {
            name: REFRESH_COOKIE,
            value: String::new(),
            path: REFRESH_COOKIE_PATH,
            http_only: true,
            secure: cookie_secure,
            same_site_strict: true,
            max_age_secs: Some(0),
        },
    )
}

/// A logout clears exactly the cookies a login set: a cookie is identified
/// by its name and path, and the cleared ones carry the same.
pub proof fn logout_clears_what_login_set(set: (CookieSpec, CookieSpec), cleared: (CookieSpec, CookieSpec), secure: bool)
    requires
        session_cookie(set.0, ACCESS_COOKIE@, ACCESS_COOKIE_PATH@, secure),
        session_cookie(set.1, REFRESH_COOKIE@, REFRESH_COOKIE_PATH@, secure),
        session_cookie(cleared.0, ACCESS_COOKIE@, ACCESS_COOKIE_PATH@, secure),
        session_cookie(cleared.1, REFRESH_COOKIE@, REFRESH_COOKIE_PATH@, secure),
    ensures
        set.0.name@ == cleared.0.name@ && set.0.path@ == cleared.0.path@,
        set.1.name@ == cleared.1.name@ && set.1.path@ == cleared.1.path@,
{
}

} // verus!
