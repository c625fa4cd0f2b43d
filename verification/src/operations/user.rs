use vstd::prelude::*;

use super::auth::TokenBundle;
use super::text::{clone_opt, opt_text, text_eq};
use super::text_map::TextMap;
use super::user_token::{
    bare_cookie, session_cookie, SessionCookie, SessionCookieView, UserToken, UserTokenView,
};
use crate::errors::user_token::NoCookieError;

verus! {

/// The name of the cookie that carries the access token.
pub open spec fn access_token_name() -> Seq<char> {
    "access_token"@
}

/// The name of the cookie that carries the identity token.
pub open spec fn id_token_name() -> Seq<char> {
    "id_token"@
}

/// The name of the cookie that carries the refresh token.
pub open spec fn refresh_token_name() -> Seq<char> {
    "refresh_token"@
}

/// The three cookie names differ from one another.
pub proof fn lemma_token_names_differ()
    ensures
        access_token_name() != id_token_name(),
        access_token_name() != refresh_token_name(),
        id_token_name() != refresh_token_name(),
{
    reveal_strlit("access_token");
    reveal_strlit("id_token");
    reveal_strlit("refresh_token");
    assert(access_token_name().len() == 12);
    assert(id_token_name().len() == 8);
    assert(refresh_token_name().len() == 13);
}

/// What a user submits to log in.
#[derive(Clone, PartialEq, Eq, Debug)]
pub struct UserLoginRequest {
    pub email: String,
    pub password: String,
}

impl UserLoginRequest {
    /// The parameters that carry these credentials to the identity provider:
    /// the email as `USERNAME`, then the password as `PASSWORD`.
    pub fn package_data(&self) -> (data: TextMap<String>)
        ensures
            data.pairs() == seq![("USERNAME"@, self.email), ("PASSWORD"@, self.password)],
            data@ == Map::<Seq<char>, String>::empty().insert("USERNAME"@, self.email).insert(
                "PASSWORD"@,
                self.password,
            ),
    {
        let mut data: TextMap<String> = TextMap::new();
        data.insert("USERNAME".to_owned(), self.email.clone());
        proof {
            reveal_strlit("USERNAME");
            reveal_strlit("PASSWORD");
            assert("USERNAME"@[0] != "PASSWORD"@[0]);
        }
        data.insert("PASSWORD".to_owned(), self.password.clone());
        assert(data.pairs() =~= seq![("USERNAME"@, self.email), ("PASSWORD"@, self.password)]);
        data
    }
}

/// The cookies of a request as plain text: names with values, in the order
/// of the request.
pub open spec fn cookie_pairs(cookies: Seq<(String, String)>) -> Seq<(Seq<char>, Seq<char>)> {
    cookies.map_values(|c: (String, String)| (c.0@, c.1@))
}

/// Whether a place is the first in a list of cookies that holds a name.
pub open spec fn is_first_named(cookies: Seq<(Seq<char>, Seq<char>)>, name: Seq<char>, i: int) -> bool {
    &&& 0 <= i < cookies.len()
    &&& cookies[i].0 == name
    &&& forall|j: int| 0 <= j < i ==> (#[trigger] cookies[j]).0 != name
}

/// The first place in a list of cookies that holds a name, if any does.
pub open spec fn first_named(cookies: Seq<(Seq<char>, Seq<char>)>, name: Seq<char>) -> Option<int> {
    if exists|i: int| is_first_named(cookies, name, i) {
        Some(choose|i: int| is_first_named(cookies, name, i))
    } else {
        None
    }
}

/// A name has one first place at most.
pub proof fn lemma_first_named_is(cookies: Seq<(Seq<char>, Seq<char>)>, name: Seq<char>, i: int)
    requires
        is_first_named(cookies, name, i),
    ensures
        first_named(cookies, name) == Some(i),
{
    let k = choose|k: int| is_first_named(cookies, name, k);
    if k < i {
        assert(cookies[k].0 != name);
    } else if i < k {
        assert(cookies[i].0 != name);
    }
}

/// Finds the first cookie of a request that goes by a name.
pub fn find_cookie(cookies: &Vec<(String, String)>, name: &str) -> (found: Option<usize>)
    ensures
        match found {
            Some(i) => first_named(cookie_pairs(cookies@), name@) == Some(i as int),
            None => first_named(cookie_pairs(cookies@), name@) is None,
        },
        found matches Some(i) ==> is_first_named(cookie_pairs(cookies@), name@, i as int),
{
    let ghost pairs = cookie_pairs(cookies@);
    let mut i: usize = 0;
    while i < cookies.len()
        invariant
            i <= cookies.len(),
            pairs == cookie_pairs(cookies@),
            forall|j: int| 0 <= j < i ==> (#[trigger] pairs[j]).0 != name@,
        decreases cookies.len() - i,
    {
        if text_eq(cookies[i].0.as_str(), name) {
            proof {
                assert(pairs[i as int].0 == name@);
                lemma_first_named_is(pairs, name@, i as int);
            }
            return Some(i);
        }
        assert(pairs[i as int].0 != name@);
        i += 1;
    }
    proof {
        assert forall|k: int| !is_first_named(pairs, name@, k) by {
            if 0 <= k < pairs.len() {
                assert(pairs[k].0 != name@);
            }
        }
    }
    None
}

/// The token that a request carries under a name, if it carries one: a
/// cookie with that name and the value of the first such cookie.
pub open spec fn carried_token(cookies: Seq<(Seq<char>, Seq<char>)>, name: Seq<char>) -> Option<
    UserTokenView,
> {
    match first_named(cookies, name) {
        Some(i) => Some(UserTokenView::Cookie(bare_cookie(name, cookies[i].1))),
        None => None,
    }
}

/// Whether a request carries all three session cookies.
pub open spec fn carries_session(cookies: Seq<(Seq<char>, Seq<char>)>) -> bool {
    &&& first_named(cookies, access_token_name()) is Some
    &&& first_named(cookies, refresh_token_name()) is Some
    &&& first_named(cookies, id_token_name()) is Some
}

/// The tokens of a session with the message and lifetime that belong to
/// them, and the host the session is served from.
#[derive(PartialEq, Eq, Debug)]
pub struct UserAuthCredentials {
    /// The body of the answer to the user.
    pub message: String,
    pub tokens: TextMap<UserToken>,
    /// The lifetime of the tokens in seconds.
    pub expires_in: i32,
    /// The host the session is served from, if the request named one.
    pub domain: Option<String>,
}

/// How a login is answered: the status, the plain-text body, and the cookies
/// to set.
#[derive(PartialEq, Eq, Debug)]
pub struct LoginReply {
    pub status: u16,
    pub body: String,
    pub cookies: Vec<SessionCookie>,
}

/// The entry that a token of a bundle makes in the token map, if the bundle
/// has that token.
pub open spec fn raw_entry(name: Seq<char>, token: Option<String>) -> Seq<(Seq<char>, UserToken)> {
    match token {
        Some(text) => seq![(name, UserToken::Raw(text))],
        None => Seq::empty(),
    }
}

/// The token map that a bundle makes: its tokens in bare form, the access
/// token first, then the identity token, then the refresh token.
pub open spec fn raw_tokens(bundle: TokenBundle) -> Seq<(Seq<char>, UserToken)> {
    raw_entry(access_token_name(), bundle.access_token) + raw_entry(
        id_token_name(),
        bundle.id_token,
    ) + raw_entry(refresh_token_name(), bundle.refresh_token)
}

/// A token in cookie form: a bare token is wrapped into its session cookie,
/// a cookie stays as it is.
pub open spec fn cookified(
    name: Seq<char>,
    token: UserToken,
    expires_in: i32,
    now: i64,
    host: Option<Seq<char>>,
) -> UserTokenView {
    match token {
        UserToken::Raw(text) => UserTokenView::Cookie(
            session_cookie(name, text@, expires_in, now, host),
        ),
        UserToken::Cookie(cookie) => UserTokenView::Cookie(cookie@),
    }
}

/// The cookies among the tokens of a map, in the map's order.
pub open spec fn cookies_in(pairs: Seq<(Seq<char>, UserToken)>) -> Seq<SessionCookie>
    decreases pairs.len(),
{
    if pairs.len() == 0 {
        Seq::empty()
    } else {
        let before = cookies_in(pairs.drop_last());
        match pairs.last().1 {
            UserToken::Cookie(cookie) => before.push(cookie),
            UserToken::Raw(_) => before,
        }
    }
}

/// Cookies as plain text and numbers.
pub open spec fn cookie_views(cookies: Seq<SessionCookie>) -> Seq<SessionCookieView> {
    cookies.map_values(|c: SessionCookie| c@)
}

/// The session cookie that a token of a bundle is packaged into, if the
/// bundle has that token.
pub open spec fn packaged_entry(
    name: Seq<char>,
    token: Option<String>,
    expires_in: i32,
    now: i64,
    host: Option<Seq<char>>,
) -> Seq<SessionCookieView> {
    match token {
        Some(text) => seq![session_cookie(name, text@, expires_in, now, host)],
        None => Seq::empty(),
    }
}

/// The session cookies that a bundle is packaged into for a host, at the
/// moment `now`: one for each token the bundle has, the access token first,
/// then the identity token, then the refresh token.
pub open spec fn packaged(bundle: TokenBundle, host: Option<Seq<char>>, now: i64) -> Seq<
    SessionCookieView,
> {
    packaged_entry(access_token_name(), bundle.access_token, bundle.expires_in, now, host)
        + packaged_entry(id_token_name(), bundle.id_token, bundle.expires_in, now, host)
        + packaged_entry(refresh_token_name(), bundle.refresh_token, bundle.expires_in, now, host)
}

/// What a browser sends back for the cookies it was given: their names with
/// their values.
pub open spec fn sent_back(cookies: Seq<SessionCookieView>) -> Seq<(Seq<char>, Seq<char>)> {
    cookies.map_values(|c: SessionCookieView| (c.name, c.value))
}

/// Where every token of a map is a cookie, the cookies among them are all of
/// them, place by place.
pub proof fn lemma_cookies_in_all(pairs: Seq<(Seq<char>, UserToken)>)
    requires
        forall|i: int| 0 <= i < pairs.len() ==> (#[trigger] pairs[i]).1 is Cookie,
    ensures
        cookies_in(pairs).len() == pairs.len(),
        forall|i: int|
            0 <= i < pairs.len() ==> (#[trigger] pairs[i]).1 == UserToken::Cookie(
                cookies_in(pairs)[i],
            ),
    decreases pairs.len(),
{
    if pairs.len() > 0 {
        let front = pairs.drop_last();
        assert forall|i: int| 0 <= i < front.len() implies (#[trigger] front[i]).1 is Cookie by {
            assert(front[i] == pairs[i]);
        }
        lemma_cookies_in_all(front);
        assert(pairs.last() == pairs[pairs.len() - 1]);
        assert forall|i: int| 0 <= i < pairs.len() implies (#[trigger] pairs[i]).1
            == UserToken::Cookie(cookies_in(pairs)[i]) by {
            if i < front.len() {
                assert(front[i] == pairs[i]);
            }
        }
    }
}

impl UserAuthCredentials {
    /// Credentials without tokens.
    pub fn new(message: String, expires_in: i32, domain: Option<String>) -> (credentials: Self)
        ensures
            credentials.message == message,
            credentials.expires_in == expires_in,
            credentials.domain == domain,
            credentials.tokens.pairs() == Seq::<(Seq<char>, UserToken)>::empty(),
    {
        UserAuthCredentials { message, tokens: TextMap::new(), expires_in, domain }
    }

    /// The credentials of a fresh login: the tokens of the bundle in bare
    /// form, under the message "Logged In".
    pub fn build(auth_data: TokenBundle, domain: Option<String>) -> (credentials: Self)
        ensures
            credentials.message@ == "Logged In"@,
            credentials.expires_in == auth_data.expires_in,
            credentials.domain == domain,
            credentials.tokens.pairs() == raw_tokens(auth_data),
    {
        let mut res = UserAuthCredentials::new("Logged In".to_owned(), auth_data.expires_in, domain);
        proof {
            lemma_token_names_differ();
        }
        let ghost first = raw_entry(access_token_name(), auth_data.access_token);
        let ghost second = raw_entry(id_token_name(), auth_data.id_token);
        let TokenBundle { access_token, id_token, refresh_token, expires_in: _ } = auth_data;
        if let Some(token) = access_token {
            res.tokens.insert("access_token".to_owned(), UserToken::Raw(token));
        }
        assert(res.tokens.pairs() =~= first);
        if let Some(token) = id_token {
            assert(!super::text_map::has_key(res.tokens.pairs(), id_token_name()));
            res.tokens.insert("id_token".to_owned(), UserToken::Raw(token));
        }
        assert(res.tokens.pairs() =~= first + second);
        if let Some(token) = refresh_token {
            assert(!super::text_map::has_key(res.tokens.pairs(), refresh_token_name()));
            res.tokens.insert("refresh_token".to_owned(), UserToken::Raw(token));
        }
        assert(res.tokens.pairs() =~= raw_tokens(auth_data));
        res
    }

    /// Reads the session off the cookies of a request, given as names with
    /// values in the order of the request. All three session cookies must be
    /// there; where a name occurs more than once, the first counts. The
    /// tokens come out in cookie form: the access token first, then the
    /// refresh token, then the identity token.
    pub fn from_request(cookies: &Vec<(String, String)>, host: Option<String>) -> (r: Result<
        Self,
        NoCookieError,
    >)
        ensures
            r is Ok <==> carries_session(cookie_pairs(cookies@)),
            r matches Ok(credentials) ==> {
                &&& credentials.message@ == Seq::<char>::empty()
                &&& credentials.expires_in == 0
                &&& credentials.domain == host
                &&& credentials.tokens.pairs().len() == 3
                &&& credentials.tokens.pairs()[0].0 == access_token_name()
                &&& credentials.tokens.pairs()[1].0 == refresh_token_name()
                &&& credentials.tokens.pairs()[2].0 == id_token_name()
                &&& Some(credentials.tokens.pairs()[0].1@) == carried_token(
                    cookie_pairs(cookies@),
                    access_token_name(),
                )
                &&& Some(credentials.tokens.pairs()[1].1@) == carried_token(
                    cookie_pairs(cookies@),
                    refresh_token_name(),
                )
                &&& Some(credentials.tokens.pairs()[2].1@) == carried_token(
                    cookie_pairs(cookies@),
                    id_token_name(),
                )
            },
    {
        let access = find_cookie(cookies, "access_token");
        let refresh = find_cookie(cookies, "refresh_token");
        let id = find_cookie(cookies, "id_token");
        match (access, refresh, id) {
            (Some(a), Some(r), Some(i)) => {
                let mut res = UserAuthCredentials::new(String::new(), 0, host);
                proof {
                    lemma_token_names_differ();
                }
                res.tokens.insert(
                    "access_token".to_owned(),
                    UserToken::Cookie(
                        SessionCookie::bare("access_token".to_owned(), cookies[a].1.clone()),
                    ),
                );
                assert(!super::text_map::has_key(res.tokens.pairs(), refresh_token_name()));
                res.tokens.insert(
                    "refresh_token".to_owned(),
                    UserToken::Cookie(
                        SessionCookie::bare("refresh_token".to_owned(), cookies[r].1.clone()),
                    ),
                );
                assert(!super::text_map::has_key(res.tokens.pairs(), id_token_name()));
                res.tokens.insert(
                    "id_token".to_owned(),
                    UserToken::Cookie(
                        SessionCookie::bare("id_token".to_owned(), cookies[i].1.clone()),
                    ),
                );
                Ok(res)
            },
            _ => Err(NoCookieError),
        }
    }

    /// Turns every bare token into its session cookie, at the moment `now` in
    /// seconds of unix time. Tokens that are cookies already stay as they
    /// are, and every token keeps its name and its place.
    pub fn cookify(&mut self, now: i64)
        ensures
            final(self).message == old(self).message,
            final(self).expires_in == old(self).expires_in,
            final(self).domain == old(self).domain,
            final(self).tokens.pairs().len() == old(self).tokens.pairs().len(),
            forall|i: int|
                0 <= i < old(self).tokens.pairs().len() ==> {
                    &&& (#[trigger] final(self).tokens.pairs()[i]).0 == old(self).tokens.pairs()[i].0
                    &&& final(self).tokens.pairs()[i].1@ == cookified(
                        old(self).tokens.pairs()[i].0,
                        old(self).tokens.pairs()[i].1,
                        old(self).expires_in,
                        now,
                        opt_text(old(self).domain),
                    )
                },
    {
        let n = self.tokens.len();
        let mut i: usize = 0;
        while i < n
            invariant
                i <= n,
                n == old(self).tokens.pairs().len(),
                self.message == old(self).message,
                self.expires_in == old(self).expires_in,
                self.domain == old(self).domain,
                self.tokens.pairs().len() == n,
                forall|j: int|
                    0 <= j < i ==> {
                        &&& (#[trigger] self.tokens.pairs()[j]).0 == old(self).tokens.pairs()[j].0
                        &&& self.tokens.pairs()[j].1@ == cookified(
                            old(self).tokens.pairs()[j].0,
                            old(self).tokens.pairs()[j].1,
                            old(self).expires_in,
                            now,
                            opt_text(old(self).domain),
                        )
                    },
                forall|j: int| i <= j < n ==> (#[trigger] self.tokens.pairs()[j]) == old(self).tokens.pairs()[j],
            decreases n - i,
        {
            let wrapped = match self.tokens.value_at(i) {
                UserToken::Raw(text) => Some(
                    SessionCookie::session(
                        self.tokens.key_at(i).clone(),
                        text.clone(),
                        self.expires_in,
                        now,
                        &self.domain,
                    ),
                ),
                UserToken::Cookie(_) => None,
            };
            if let Some(cookie) = wrapped {
                self.tokens.replace_at(i, UserToken::Cookie(cookie));
            }
            i += 1;
        }
    }

    /// The answer to a login: success, the message as the body, and every
    /// token that is held as a cookie, in the order of the token map.
    pub fn response(&self) -> (reply: LoginReply)
        ensures
            reply.status == 200,
            reply.body == self.message,
            reply.cookies@ == cookies_in(self.tokens.pairs()),
    {
        let mut cookies: Vec<SessionCookie> = Vec::new();
        let n = self.tokens.len();
        let mut i: usize = 0;
        assert(self.tokens.pairs().subrange(0, 0) =~= Seq::<(Seq<char>, UserToken)>::empty());
        while i < n
            invariant
                i <= n,
                n == self.tokens.pairs().len(),
                cookies@ == cookies_in(self.tokens.pairs().subrange(0, i as int)),
            decreases n - i,
        {
            proof {
                let upto = self.tokens.pairs().subrange(0, i + 1);
                assert(upto.drop_last() =~= self.tokens.pairs().subrange(0, i as int));
                assert(upto.last() == self.tokens.pairs()[i as int]);
            }
            if let UserToken::Cookie(cookie) = self.tokens.value_at(i) {
                cookies.push(cookie.duplicate());
            }
            i += 1;
        }
        assert(self.tokens.pairs().subrange(0, n as int) =~= self.tokens.pairs());
        LoginReply { status: 200, body: self.message.clone(), cookies }
    }
}

/// Packages the tokens of a fresh login for the browser: the answer "Logged
/// In" with one session cookie for each token of the bundle, scoped to the
/// host of the request, at the moment `now` in seconds of unix time.
pub fn package(token_bundle: TokenBundle, request_host: Option<String>, now: i64) -> (reply:
    LoginReply)
    ensures
        reply.status == 200,
        reply.body@ == "Logged In"@,
        cookie_views(reply.cookies@) == packaged(token_bundle, opt_text(request_host), now),
        reply.cookies@.len() == packaged(token_bundle, opt_text(request_host), now).len(),
{
    let mut credentials = UserAuthCredentials::build(token_bundle, request_host);
    let ghost raw = credentials.tokens.pairs();
    credentials.cookify(now);
    let reply = credentials.response();
    proof {
        let cooked = credentials.tokens.pairs();
        assert forall|i: int| 0 <= i < cooked.len() implies (#[trigger] cooked[i]).1 is Cookie by {
            assert(cooked[i].0 == raw[i].0);
        }
        lemma_cookies_in_all(cooked);
        let wanted = packaged(token_bundle, opt_text(request_host), now);
        assert(wanted.len() == raw.len());
        assert forall|i: int| 0 <= i < wanted.len() implies cookie_views(reply.cookies@)[i]
            == wanted[i] by {
            assert(cooked[i].0 == raw[i].0);
            assert(cooked[i].1 == UserToken::Cookie(reply.cookies@[i]));
        }
        assert(cookie_views(reply.cookies@) =~= wanted);
    }
    reply
}

/// Packaging a bundle that has all three tokens and reading the session off
/// a request that carries the packaged cookies gives the three tokens back:
/// the request carries the whole session, and under each of the three names
/// it carries the token of the bundle.
pub proof fn lemma_package_then_extract(bundle: TokenBundle, host: Option<Seq<char>>, now: i64)
    requires
        bundle.access_token is Some,
        bundle.id_token is Some,
        bundle.refresh_token is Some,
    ensures
        carries_session(sent_back(packaged(bundle, host, now))),
        carried_token(sent_back(packaged(bundle, host, now)), access_token_name()) == Some(
            UserTokenView::Cookie(bare_cookie(access_token_name(), bundle.access_token.unwrap()@)),
        ),
        carried_token(sent_back(packaged(bundle, host, now)), id_token_name()) == Some(
            UserTokenView::Cookie(bare_cookie(id_token_name(), bundle.id_token.unwrap()@)),
        ),
        carried_token(sent_back(packaged(bundle, host, now)), refresh_token_name()) == Some(
            UserTokenView::Cookie(
                bare_cookie(refresh_token_name(), bundle.refresh_token.unwrap()@),
            ),
        ),
{
    lemma_token_names_differ();
    let request = sent_back(packaged(bundle, host, now));
    assert(request.len() == 3);
    assert(request[0].0 == access_token_name());
    assert(request[1].0 == id_token_name());
    assert(request[2].0 == refresh_token_name());
    assert(is_first_named(request, access_token_name(), 0));
    assert(is_first_named(request, id_token_name(), 1));
    assert(is_first_named(request, refresh_token_name(), 2));
    lemma_first_named_is(request, access_token_name(), 0);
    lemma_first_named_is(request, id_token_name(), 1);
    lemma_first_named_is(request, refresh_token_name(), 2);
}

} // verus!
