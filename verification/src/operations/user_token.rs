use vstd::prelude::*;
use vstd::std_specs::convert::FromSpecImpl;

use super::text::{clone_opt, opt_text};

verus! {

/// When a browser sends a cookie along with requests from other sites.
#[derive(Copy, Clone, PartialEq, Eq, Debug, Structural)]
pub enum SameSite {
    Strict,
    Lax,
    Unrestricted,
}

/// A cookie as the transport layer sees it: a name, a value, and the
/// attributes that were set on it.
#[derive(PartialEq, Eq, Debug)]
pub struct SessionCookie {
    pub name: String,
    pub value: String,
    /// The lifetime in seconds.
    pub max_age: Option<i64>,
    /// The moment of expiry, in seconds of unix time.
    pub expires: Option<i64>,
    pub same_site: Option<SameSite>,
    pub path: Option<String>,
    pub http_only: Option<bool>,
    pub domain: Option<String>,
}

/// What a `SessionCookie` holds, as plain text and numbers.
pub struct SessionCookieView {
    pub name: Seq<char>,
    pub value: Seq<char>,
    pub max_age: Option<int>,
    pub expires: Option<int>,
    pub same_site: Option<SameSite>,
    pub path: Option<Seq<char>>,
    pub http_only: Option<bool>,
    pub domain: Option<Seq<char>>,
}

impl View for SessionCookie {
    type V = SessionCookieView;

    open spec fn view(&self) -> SessionCookieView {
        SessionCookieView {
            name: self.name@,
            value: self.value@,
            max_age: match self.max_age {
                Some(seconds) => Some(seconds as int),
                None => None,
            },
            expires: match self.expires {
                Some(moment) => Some(moment as int),
                None => None,
            },
            same_site: self.same_site,
            path: opt_text(self.path),
            http_only: self.http_only,
            domain: opt_text(self.domain),
        }
    }
}

/// The cookie that a request carries under a name: the name and the value,
/// with no attribute set.
pub open spec fn bare_cookie(name: Seq<char>, value: Seq<char>) -> SessionCookieView {
    SessionCookieView {
        name,
        value,
        max_age: None,
        expires: None,
        same_site: None,
        path: None,
        http_only: None,
        domain: None,
    }
}

/// The domain a session cookie is scoped to when the request names no host.
pub open spec fn fallback_domain() -> Seq<char> {
    "0.0.0.0"@
}

/// The session cookie that carries a token to the browser. It lives for
/// `expires_in` seconds and expires that many seconds after `now`, unless
/// that moment is out of range. It is sent along on same-site requests and
/// top-level navigation only, for every path, is hidden from scripts, and is
/// scoped to the host of the request.
pub open spec fn session_cookie(
    name: Seq<char>,
    value: Seq<char>,
    expires_in: i32,
    now: i64,
    host: Option<Seq<char>>,
) -> SessionCookieView {
    SessionCookieView {
        name,
        value,
        max_age: Some(expires_in as int),
        expires: if i64::MIN <= now + expires_in <= i64::MAX {
            Some(now + expires_in)
        } else {
            None
        },
        same_site: Some(SameSite::Lax),
        path: Some("/"@),
        http_only: Some(true),
        domain: Some(
            match host {
                Some(name) => name,
                None => fallback_domain(),
            },
        ),
    }
}

impl SessionCookie {
    /// A cookie with a name and a value and no attribute set.
    pub fn bare(name: String, value: String) -> (cookie: SessionCookie)
        ensures
            cookie@ == bare_cookie(name@, value@),
            cookie.name == name,
            cookie.value == value,
    {
        SessionCookie {
            name,
            value,
            max_age: None,
            expires: None,
            same_site: None,
            path: None,
            http_only: None,
            domain: None,
        }
    }

    /// The session cookie for a token, at the moment `now` in seconds of unix
    /// time.
    pub fn session(name: String, value: String, expires_in: i32, now: i64, host: &Option<String>) -> (cookie: SessionCookie)
        ensures
            cookie@ == session_cookie(name@, value@, expires_in, now, opt_text(*host)),
    {
        let domain = match host {
            Some(name) => name.clone(),
            None => "0.0.0.0".to_owned(),
        };
        SessionCookie {
            name,
            value,
            max_age: Some(expires_in as i64),
            expires: now.checked_add(expires_in as i64),
            same_site: Some(SameSite::Lax),
            path: Some("/".to_owned()),
            http_only: Some(true),
            domain: Some(domain),
        }
    }

    /// A copy of this cookie.
    pub fn duplicate(&self) -> (copy: SessionCookie)
        ensures
            copy == *self,
    {
        SessionCookie {
            name: self.name.clone(),
            value: self.value.clone(),
            max_age: self.max_age,
            expires: self.expires,
            same_site: self.same_site,
            path: clone_opt(&self.path),
            http_only: self.http_only,
            domain: clone_opt(&self.domain),
        }
    }
}

/// A token in one of its two forms: the bare text an authentication yields,
/// or the cookie that carries it.
#[derive(PartialEq, Eq, Debug)]
pub enum UserToken {
    Raw(String),
    Cookie(SessionCookie),
}

/// A `UserToken`, as plain text and numbers.
pub enum UserTokenView {
    Raw(Seq<char>),
    Cookie(SessionCookieView),
}

impl View for UserToken {
    type V = UserTokenView;

    open spec fn view(&self) -> UserTokenView {
        match self {
            UserToken::Raw(text) => UserTokenView::Raw(text@),
            UserToken::Cookie(cookie) => UserTokenView::Cookie(cookie@),
        }
    }
}

impl From<String> for UserToken {
    fn from(token: String) -> (r: UserToken) {
        UserToken::Raw(token)
    }
}

impl FromSpecImpl<String> for UserToken {
    open spec fn obeys_from_spec() -> bool {
        true
    }

    open spec fn from_spec(token: String) -> UserToken {
        UserToken::Raw(token)
    }
}

impl From<SessionCookie> for UserToken {
    fn from(token: SessionCookie) -> (r: UserToken) {
        UserToken::Cookie(token)
    }
}

impl FromSpecImpl<SessionCookie> for UserToken {
    open spec fn obeys_from_spec() -> bool {
        true
    }

    open spec fn from_spec(token: SessionCookie) -> UserToken {
        UserToken::Cookie(token)
    }
}

impl UserToken {
    /// A token in its bare form, from text.
    pub fn from_text(token: &str) -> (r: UserToken)
        ensures
            r@ == UserTokenView::Raw(token@),
    {
        UserToken::Raw(token.to_owned())
    }

    /// The bare text, where the token is held in that form. A token held as
    /// a cookie is handed back unchanged.
    pub fn into_string(self) -> (r: Result<String, UserToken>)
        ensures
            r == (match self {
                UserToken::Raw(text) => Ok::<String, UserToken>(text),
                UserToken::Cookie(_) => Err::<String, UserToken>(self),
            }),
    {
        match self {
            UserToken::Raw(text) => Ok(text),
            UserToken::Cookie(cookie) => Err(UserToken::Cookie(cookie)),
        }
    }

    /// The cookie, where the token is held in that form. A token held as
    /// bare text is handed back unchanged.
    pub fn into_cookie(self) -> (r: Result<SessionCookie, UserToken>)
        ensures
            r == (match self {
                UserToken::Cookie(cookie) => Ok::<SessionCookie, UserToken>(cookie),
                UserToken::Raw(_) => Err::<SessionCookie, UserToken>(self),
            }),
    {
        match self {
            UserToken::Cookie(cookie) => Ok(cookie),
            UserToken::Raw(text) => Err(UserToken::Raw(text)),
        }
    }
}

} // verus!
