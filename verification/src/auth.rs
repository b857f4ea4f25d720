//! The authorization-code resume flow.
//!
//! On page load the query string either carries an authorization
//! `code` — then exactly one exchange is directed, against the
//! token-exchange endpoint — or it does not, and no network call is
//! made at all. The token and profile responses are JSON documents
//! whose one interesting string field is extracted here; the session
//! records the signed-in identity.
use vstd::prelude::*;
use vstd::string::StrSliceExecFns;
use vstd::string::StringExecFns;

verus! {

/// The index of the first occurrence of `c` in `s`, or `s.len()` if
/// `c` does not occur.
pub open spec fn spec_index_of(s: Seq<char>, c: char) -> int
    decreases s.len(),
{
    if s.len() == 0 {
        0
    } else if s[0] == c {
        0
    } else {
        1 + spec_index_of(s.drop_first(), c)
    }
}

/// The value of the first `key=value` pair of the '&'-separated
/// query string `q` whose key is `key`, as it stands there; `None`
/// if no pair has that key. A segment without '=' is a key with an
/// empty value.
pub open spec fn spec_param_value(q: Seq<char>, key: Seq<char>) -> Option<Seq<char>>
    decreases q.len(),
{
    if q.len() == 0 {
        None
    } else {
        let i = spec_index_of(q, '&');
        let seg = q.take(i);
        let j = spec_index_of(seg, '=');
        let k = seg.take(j);
        let v = if j < seg.len() {
            seg.skip(j + 1)
        } else {
            Seq::<char>::empty()
        };
        let rest = if 0 <= i < q.len() {
            q.skip(i + 1)
        } else {
            Seq::<char>::empty()
        };
        if k == key {
            Some(v)
        } else {
            spec_param_value(rest, key)
        }
    }
}

/// The authorization code in a page's search string (the query
/// string, with or without its leading '?'), or `None` when the code
/// is absent — in particular once it has been consumed and cleared.
pub open spec fn spec_resume_code(search: Seq<char>) -> Option<Seq<char>> {
    let q = if search.len() > 0 && search[0] == '?' {
        search.drop_first()
    } else {
        search
    };
    spec_param_value(q, "code"@)
}

fn index_of_char(s: &str, c: char) -> (r: usize)
    ensures
        r as int == spec_index_of(s@, c),
        r <= s@.len(),
    decreases s@.len(),
{
    let n = s.unicode_len();
    if n == 0 {
        0
    } else if s.get_char(0) == c {
        0
    } else {
        let rest = s.substring_char(1, n);
        proof {
            assert(rest@ =~= s@.drop_first());
        }
        let r = index_of_char(rest, c);
        1 + r
    }
}

/// The value of the first pair of the query string `q` whose key is
/// `key`, exactly as `spec_param_value` describes it.
pub fn query_param(q: &str, key: &str) -> (r: Option<String>)
    ensures
        r.deep_view() == spec_param_value(q@, key@),
    decreases q@.len(),
{
    let n = q.unicode_len();
    if n == 0 {
        return None;
    }
    let i = index_of_char(q, '&');
    let seg = q.substring_char(0, i);
    proof {
        assert(seg@ =~= q@.take(i as int));
    }
    let j = index_of_char(seg, '=');
    let k = seg.substring_char(0, j);
    proof {
        assert(k@ =~= q@.take(i as int).take(j as int));
    }
    if String::from_str(k) == String::from_str(key) {
        let seg_len = seg.unicode_len();
        let v = if j < seg_len {
            seg.substring_char(j + 1, seg_len)
        } else {
            ""
        };
        proof {
            reveal_strlit("");
            let seg_spec = q@.take(i as int);
            let j_spec = spec_index_of(seg_spec, '=');
            if j_spec < seg_spec.len() {
                assert(v@ =~= seg_spec.skip(j_spec + 1));
            } else {
                assert(v@ =~= Seq::<char>::empty());
            }
        }
        Some(String::from_str(v))
    } else {
        let rest = if i < n {
            q.substring_char(i + 1, n)
        } else {
            ""
        };
        proof {
            reveal_strlit("");
            if i < n {
                assert(rest@ =~= q@.skip(i as int + 1));
            } else {
                assert(rest@ =~= Seq::<char>::empty());
            }
        }
        query_param(rest, key)
    }
}

/// The authorization code in a page's search string, exactly as
/// `spec_resume_code` describes it.
pub fn resume_code(search: &str) -> (r: Option<String>)
    ensures
        r.deep_view() == spec_resume_code(search@),
{
    let n = search.unicode_len();
    let q = if n > 0 && search.get_char(0) == '?' {
        search.substring_char(1, n)
    } else {
        search
    };
    proof {
        if n > 0 && search@[0] == '?' {
            assert(q@ =~= search@.drop_first());
        }
    }
    query_param(q, "code")
}

/// The identity provider's authorization page for this application:
/// where the browser is sent to sign in.
pub open spec fn spec_authorize_url(client_id: Seq<char>, redirect: Seq<char>) -> Seq<char> {
    "https://github.com/login/oauth/authorize?client_id="@ + client_id + "&redirect_uri="@
        + redirect + "&scope=user"@
}

/// Builds the authorization page URL for this application.
pub fn authorize_url(client_id: &str, redirect: &str) -> (r: String)
    ensures
        r@ == spec_authorize_url(client_id@, redirect@),
{
    let mut s = String::from_str("https://github.com/login/oauth/authorize?client_id=");
    s.append(client_id);
    s.append("&redirect_uri=");
    s.append(redirect);
    s.append("&scope=user");
    proof {
        assert(s@ =~= spec_authorize_url(client_id@, redirect@));
    }
    s
}

/// The token-exchange endpoint for an authorization code.
pub open spec fn spec_exchange_url(code: Seq<char>) -> Seq<char> {
    "https://github-oauth-proxy.onrender.com/auth?code="@ + code
}

/// Builds the token-exchange URL for an authorization code.
pub fn exchange_url(code: &str) -> (r: String)
    ensures
        r@ == spec_exchange_url(code@),
{
    let mut s = String::from_str("https://github-oauth-proxy.onrender.com/auth?code=");
    s.append(code);
    s
}

/// The identity profile endpoint, queried with the bearer token to
/// learn the signed-in identity.
pub fn profile_url() -> (r: &'static str)
    ensures
        r@ == "https://api.github.com/user"@,
{
    "https://api.github.com/user"
}

/// The `Authorization` header value carrying an access token.
pub open spec fn spec_token_header(token: Seq<char>) -> Seq<char> {
    "token "@ + token
}

/// Builds the `Authorization` header value for an access token.
pub fn token_header(token: &str) -> (r: String)
    ensures
        r@ == spec_token_header(token@),
{
    let mut s = String::from_str("token ");
    s.append(token);
    s
}

/// The string at top-level `key` of the JSON document `body`, or
/// `None` when `body` is not a JSON object, has no such member, or
/// its value is not a string. The result depends on `body` and `key`
/// alone.
pub uninterp spec fn spec_json_string_field(body: Seq<char>, key: Seq<char>) -> Option<Seq<char>>;

/// Relies on `serde_json::from_str`, `serde_json::Value::get` and
/// `serde_json::Value::as_str`: parses `body` as JSON and hands back
/// the string member named `key` of the top-level object, `None` on
/// a parse failure, a missing member, or a non-string value. The
/// result is a function of `body` and `key` alone.
#[verifier::external_body]
fn json_string_field(body: &str, key: &str) -> (r: Option<String>)
    ensures
        r.deep_view() == spec_json_string_field(body@, key@),
{
    match serde_json::from_str::<serde_json::Value>(body) {
        Ok(v) => match v.get(key) {
            Some(f) => f.as_str().map(|s| s.to_string()),
            None => None,
        },
        Err(_) => None,
    }
}

/// The access token in a token-exchange response body.
pub fn parse_access_token(body: &str) -> (r: Option<String>)
    ensures
        r.deep_view() == spec_json_string_field(body@, "access_token"@),
{
    json_string_field(body, "access_token")
}

/// The signed-in identity in a profile response body.
pub fn parse_login(body: &str) -> (r: Option<String>)
    ensures
        r.deep_view() == spec_json_string_field(body@, "login"@),
{
    json_string_field(body, "login")
}

/// What resuming from a redirect directs the surrounding program to
/// do: nothing at all, or exactly one exchange of the one code that
/// the URL carried.
pub enum AuthDirective {
    /// The query string carries no authorization code — it was never
    /// there, or it has already been consumed — so no network call is
    /// made.
    NoCalls,
    /// Exchange the code: one request against `url`, whose response
    /// body feeds `parse_access_token`.
    Exchange { code: String, url: String },
}

/// What to do on page load for a given search string. Exactly when
/// the query string carries an authorization code, one exchange of
/// that code is directed; a search string without a code — in
/// particular one already consumed and cleared — directs no network
/// call at all.
pub fn resume_action(search: &str) -> (r: AuthDirective)
    ensures
        spec_resume_code(search@) is None <==> r is NoCalls,
        (r matches AuthDirective::Exchange { code, url } ==> spec_resume_code(search@) == Some(
            code@,
        ) && url@ == spec_exchange_url(code@)),
{
    match resume_code(search) {
        None => AuthDirective::NoCalls,
        Some(code) => {
            let url = exchange_url(code.as_str());
            AuthDirective::Exchange { code, url }
        },
    }
}

/// The current authenticated identity: absent until the one-time
/// exchange of the page load has succeeded, then the signed-in login.
pub struct AuthSession {
    pub user: Option<String>,
}

impl AuthSession {
    /// A fresh session: nobody is signed in.
    pub fn new() -> (r: Self)
        ensures
            r.user is None,
    {
        AuthSession { user: None }
    }

    /// Records the signed-in identity after a successful exchange and
    /// profile fetch.
    pub fn complete_login(&mut self, login: String)
        ensures
            final(self).user == Some(login),
    {
        self.user = Some(login);
    }
}

} // verus!
