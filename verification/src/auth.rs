//! CLI credentials and the browser login hand-off: the URL the browser is
//! sent to, how the loopback callback request is read, what it is answered,
//! and the credentials that come of it.

use vstd::prelude::*;

use crate::text::{
    concat2, decimal, find_char, find_char_str, is_space, lemma_find_char_found,
    lemma_find_char_some, lemma_split_on_absent, lemma_words_concat, lemma_words_single,
    push_decimal, split_char_str, split_on, split_pair, split_pair_str, split_whitespace_str,
    str_eq, trim_end_char, trim_end_char_str, views, words,
};
use vstd::string::StringSliceAdditionalSpecFns;
use vstd::utf8::{decode_utf8, encode_utf8, is_char_boundary};

verus! {

broadcast use vstd::utf8::encode_utf8_decode_utf8;

/// The portal that logins go through when none is given.
pub const DEFAULT_PORTAL_URL: &'static str = "https://app.usermon.dev";

/// The directory below the home directory that holds the credentials.
pub const CREDENTIALS_DIR: &'static str = ".usermon";

/// The file in that directory that holds the credentials.
pub const CREDENTIALS_FILE: &'static str = "credentials.json";

/// What a CLI login leaves behind.
#[derive(Clone, Debug, PartialEq)]
pub struct Credentials {
    pub token: String,
    pub email: Option<String>,
    pub user_id: Option<String>,
    pub portal_url: String,
    pub created_at: u64,
}

/// The portal URL stored when a saved login names none.
pub fn default_portal() -> (r: String)
    ensures
        r@ == DEFAULT_PORTAL_URL@,
{
    String::from_str(DEFAULT_PORTAL_URL)
}

impl Credentials {
    /// The credentials of a login with a token given by hand: no e-mail, no
    /// user id, and the portal given or the default one.
    pub fn from_token(token: String, portal_url: Option<String>, created_at: u64) -> (c:
        Credentials)
        ensures
            c.token == token,
            c.email is None,
            c.user_id is None,
            portal_url matches Some(p) ==> c.portal_url == p,
            portal_url is None ==> c.portal_url@ == DEFAULT_PORTAL_URL@,
            c.created_at == created_at,
    {
        let portal_url = match portal_url {
            Some(p) => p,
            None => default_portal(),
        };
        Credentials { token, email: None, user_id: None, portal_url, created_at }
    }
}

/// The characters of an optional string.
pub open spec fn opt_view(o: Option<String>) -> Option<Seq<char>> {
    match o {
        Some(s) => Some(s@),
        None => None,
    }
}

/// The fields a login callback carries.
pub ghost struct CallbackFields {
    pub token: Seq<char>,
    pub email: Option<Seq<char>>,
    pub user_id: Option<Seq<char>>,
}

/// The fields read from a login callback request; a missing token is
/// empty.
#[derive(Clone, Debug, PartialEq)]
pub struct CallbackParams {
    pub token: String,
    pub email: Option<String>,
    pub user_id: Option<String>,
}

impl View for CallbackParams {
    type V = CallbackFields;

    open spec fn view(&self) -> CallbackFields {
        CallbackFields {
            token: self.token@,
            email: opt_view(self.email),
            user_id: opt_view(self.user_id),
        }
    }
}

/// No field read yet.
pub open spec fn no_fields() -> CallbackFields {
    CallbackFields { token: Seq::empty(), email: None, user_id: None }
}

/// One `key=value` pair of the query applied to the fields read so far:
/// `token`, `email` and `userId` set their field, other keys are ignored.
pub open spec fn apply_pair(f: CallbackFields, pair: Seq<char>) -> CallbackFields {
    let kv = split_pair(pair, '=');
    if kv.0 == "token"@ {
        CallbackFields { token: kv.1, email: f.email, user_id: f.user_id }
    } else if kv.0 == "email"@ {
        CallbackFields { token: f.token, email: Some(kv.1), user_id: f.user_id }
    } else if kv.0 == "userId"@ {
        CallbackFields { token: f.token, email: f.email, user_id: Some(kv.1) }
    } else {
        f
    }
}

/// The pairs applied in order, so that a later pair wins.
pub open spec fn apply_pairs(pairs: Seq<Seq<char>>) -> CallbackFields
    decreases pairs.len(),
{
    if pairs.len() == 0 {
        no_fields()
    } else {
        apply_pair(apply_pairs(pairs.drop_last()), pairs.last())
    }
}

/// The request target of an HTTP request line: its second word, or empty.
pub open spec fn request_target(line: Seq<char>) -> Seq<char> {
    let ws = words(line);
    if ws.len() >= 2 {
        ws[1]
    } else {
        Seq::empty()
    }
}

/// The fields of a callback request line such as
/// `GET /callback?token=...&email=...&userId=... HTTP/1.1`: the `&`-separated
/// pairs after the first `?` of the target; none when there is no `?`.
pub open spec fn callback_fields(line: Seq<char>) -> CallbackFields {
    let target = request_target(line);
    match find_char(target, '?') {
        Some(i) => apply_pairs(split_on(target.skip(i + 1), '&')),
        None => no_fields(),
    }
}

/// The token that the portal puts in the callback's query is the token
/// read: for a request `GET <path>?token=<token> HTTP/1.1` whose path holds
/// no `?` and whose path and token hold no white space, and whose token holds
/// no `&`, the token read is `token`, and no e-mail or user id is read.
pub proof fn law_callback_token_is_read(path: Seq<char>, token: Seq<char>)
    requires
        forall|i: int| 0 <= i < path.len() ==> !is_space(#[trigger] path[i]) && path[i] != '?',
        forall|i: int| 0 <= i < token.len() ==> !is_space(#[trigger] token[i]) && token[i] != '&',
    ensures
        callback_fields("GET "@ + path + "?token="@ + token + " HTTP/1.1"@) == (CallbackFields {
            token,
            email: None,
            user_id: None,
        }),
{
    reveal_strlit("GET ");
    reveal_strlit("?token=");
    reveal_strlit(" HTTP/1.1");
    reveal_strlit("token");
    let g = "GET "@;
    let q = "?token="@;
    let h = " HTTP/1.1"@;
    let t = path + q + token;
    let line = g + path + q + token + h;
    assert(line =~= g + (t + h));
    // The words of the line are `GET`, the target and the version.
    lemma_words_concat(g, t + h);
    lemma_words_single(g.drop_last());
    assert(words(g) == words(g.drop_last()));
    assert forall|i: int| 0 <= i < t.len() implies !is_space(#[trigger] t[i]) by {
        if i < path.len() {
            assert(t[i] == path[i]);
        } else if i < path.len() + q.len() {
            assert(t[i] == q[i - path.len()]);
        } else {
            assert(t[i] == token[i - path.len() - q.len()]);
        }
    }
    lemma_words_single(t);
    let sp = seq![' '];
    let v = h.drop_first();
    assert(h =~= sp + v);
    assert(t + h =~= (t + sp) + v);
    lemma_words_concat(t + sp, v);
    assert((t + sp).drop_last() =~= t);
    assert(words(t + sp) == words(t));
    assert(words(line)[1] == t);
    assert(request_target(line) == t);
    // The query starts after the `?` that ends the path.
    assert(t[path.len() as int] == '?');
    assert forall|j: int| 0 <= j < path.len() implies t[j] != '?' by {
        assert(t[j] == path[j]);
    }
    lemma_find_char_found(t, '?', path.len() as int);
    let query = t.skip(path.len() as int + 1);
    assert(query =~= q.drop_first() + token);
    assert forall|i: int| 0 <= i < query.len() implies #[trigger] query[i] != '&' by {
        if i >= 6 {
            assert(query[i] == token[i - 6]);
        }
    }
    lemma_split_on_absent(query, '&');
    // The one pair is `token=<token>`.
    assert(query[5] == '=');
    lemma_find_char_found(query, '=', 5);
    assert(query.take(5) =~= "token"@);
    assert(query.skip(6) =~= token);
    assert(seq![query].drop_last() =~= Seq::<Seq<char>>::empty());
    assert(split_pair(query, '=') == ("token"@, token));
    let ps = seq![query];
    assert(ps.len() == 1);
    assert(ps.last() == query);
    assert(apply_pairs(ps.drop_last()) == no_fields());
    assert(apply_pairs(ps) == apply_pair(no_fields(), query));
    assert(split_on(t.skip(path.len() as int + 1), '&') == seq![query]);
}

fn apply_pair_exec(f: CallbackParams, pair: &str) -> (r: CallbackParams)
    ensures
        r@ == apply_pair(f@, pair@),
{
    let (key, val) = split_pair_str(pair, '=');
    if str_eq(key.as_str(), "token") {
        CallbackParams { token: val, email: f.email, user_id: f.user_id }
    } else if str_eq(key.as_str(), "email") {
        CallbackParams { token: f.token, email: Some(val), user_id: f.user_id }
    } else if str_eq(key.as_str(), "userId") {
        CallbackParams { token: f.token, email: f.email, user_id: Some(val) }
    } else {
        f
    }
}

/// Reads the fields of a login callback from its HTTP request line.
pub fn parse_callback(request_line: &str) -> (p: CallbackParams)
    ensures
        p@ == callback_fields(request_line@),
{
    let ws = split_whitespace_str(request_line);
    let target = if ws.len() >= 2 {
        ws[1].clone()
    } else {
        String::new()
    };
    assert(target@ == request_target(request_line@));
    let mut params = CallbackParams { token: String::new(), email: None, user_id: None };
    proof {
        lemma_find_char_some(target@, '?');
    }
    match find_char_str(target.as_str(), '?') {
        None => params,
        Some(pos) => {
            let n = target.as_str().unicode_len();
            let query = target.as_str().substring_char(pos + 1, n);
            assert(query@ =~= target@.skip(pos + 1));
            let pairs = split_char_str(query, '&');
            let ghost ps = views(pairs@);
            let mut i: usize = 0;
            assert(ps.take(0) =~= Seq::<Seq<char>>::empty());
            while i < pairs.len()
                invariant
                    ps == views(pairs@),
                    i <= pairs@.len(),
                    params@ == apply_pairs(ps.take(i as int)),
                decreases pairs@.len() - i,
            {
                params = apply_pair_exec(params, pairs[i].as_str());
                assert(ps.take(i + 1).drop_last() =~= ps.take(i as int));
                i = i + 1;
            }
            assert(ps.take(pairs@.len() as int) =~= ps);
            params
        },
    }
}

/// The error of a callback that brought no token.
pub open spec fn missing_token_error() -> Seq<char> {
    "Authentication failed: No token received in callback"@
}

/// The outcome of a login callback: refused when it brought no token,
/// otherwise the credentials it carries, for `portal`, made at `created_at`.
pub fn finish_login(params: CallbackParams, portal: String, created_at: u64) -> (r: Result<
    Credentials,
    String,
>)
    ensures
        params.token@.len() == 0 ==> (r matches Err(e) && e@ == missing_token_error()),
        params.token@.len() > 0 ==> r == Ok::<Credentials, String>(
            Credentials {
                token: params.token,
                email: params.email,
                user_id: params.user_id,
                portal_url: portal,
                created_at,
            },
        ),
{
    if params.token.as_str().unicode_len() == 0 {
        Err(String::from_str("Authentication failed: No token received in callback"))
    } else {
        Ok(
            Credentials {
                token: params.token,
                email: params.email,
                user_id: params.user_id,
                portal_url: portal,
                created_at,
            },
        )
    }
}

/// What the loopback listener answers a callback without a token.
pub const FAILURE_REPLY: &'static str = "HTTP/1.1 400 Bad Request\r\nContent-Type: text/html\r\n\r\n<h1>Authentication Failed</h1><p>No token was provided.</p>";

/// The page shown in the browser after a successful login.
pub const SUCCESS_HTML: &'static str = r#"<!DOCTYPE html>
<html>
<head><title>Usermon CLI - Authentication Successful</title>
<style>
body { font-family: -apple-system, BlinkMacSystemFont, 'Segoe UI', Roboto, sans-serif; display: flex; align-items: center; justify-content: center; height: 100vh; margin: 0; background: #090d16; color: #f1f5f9; }
.card { background: #0f172a; border: 1px solid #334155; padding: 2.5rem; border-radius: 1rem; text-align: center; max-width: 420px; }
h1 { color: #6366f1; margin-top: 0; }
p { color: #94a3b8; line-height: 1.5; }
</style>
</head>
<body>
<div class="card">
  <h1>✓ Authenticated!</h1>
  <p>You have successfully logged in to <strong>Usermon CLI</strong>.</p>
  <p>You may now close this window and return to your terminal.</p>
</div>
</body>
</html>"#;

/// The HTTP answer to a successful callback: status 200, an HTML content
/// type, the byte length of the page, and the page.
pub open spec fn success_reply_text() -> Seq<char> {
    "HTTP/1.1 200 OK\r\nContent-Type: text/html\r\nContent-Length: "@ + decimal(
        SUCCESS_HTML.len() as nat,
    ) + "\r\n\r\n"@ + SUCCESS_HTML@
}

/// What the loopback listener answers a callback: the failure page when it
/// brought no token, the success page otherwise.
pub fn callback_reply(params: &CallbackParams) -> (r: String)
    ensures
        params.token@.len() == 0 ==> r@ == FAILURE_REPLY@,
        params.token@.len() > 0 ==> r@ == success_reply_text(),
{
    if params.token.as_str().unicode_len() == 0 {
        String::from_str(FAILURE_REPLY)
    } else {
        let mut r = String::from_str("HTTP/1.1 200 OK\r\nContent-Type: text/html\r\nContent-Length: ");
        push_decimal(&mut r, SUCCESS_HTML.len() as u64);
        r.append("\r\n\r\n");
        r.append(SUCCESS_HTML);
        r
    }
}

/// The portal a login goes through: the one given or the default, without
/// trailing `/`.
pub fn login_portal(portal_url: Option<&str>) -> (r: String)
    ensures
        r@ == trim_end_char(
            match portal_url {
                Some(p) => p@,
                None => DEFAULT_PORTAL_URL@,
            },
            '/',
        ),
{
    let p = match portal_url {
        Some(p) => p,
        None => DEFAULT_PORTAL_URL,
    };
    String::from_str(trim_end_char_str(p, '/'))
}

/// The page the browser is sent to: `<portal>/cli/auth?port=<port>&state=<state>`.
pub fn auth_url(portal: &str, port: u16, state: &str) -> (r: String)
    ensures
        r@ == portal@ + "/cli/auth?port="@ + decimal(port as nat) + "&state="@ + state@,
{
    let mut r = concat2(portal, "/cli/auth?port=");
    push_decimal(&mut r, port as u64);
    r.append("&state=");
    r.append(state);
    r
}

/// The first `n` bytes of `s`, which must end on a character boundary.
pub fn byte_prefix(s: &str, n: usize) -> (r: &str)
    requires
        n <= s.spec_bytes().len(),
        is_char_boundary(s.spec_bytes(), n as int),
    ensures
        r.spec_bytes() == s.spec_bytes().take(n as int),
        r@ == decode_utf8(s.spec_bytes().take(n as int)),
{
    let (a, _) = s.split_at(n);
    assert(a.spec_bytes() =~= s.spec_bytes().take(n as int));
    a
}

/// How a secret is shown: its first 8 bytes and `...` when it is longer,
/// otherwise all of it.
pub fn secret_preview(secret: &str) -> (r: String)
    requires
        secret.spec_bytes().len() <= usize::MAX,
        secret.spec_bytes().len() > 8 ==> is_char_boundary(secret.spec_bytes(), 8),
    ensures
        secret.spec_bytes().len() <= 8 ==> r@ == secret@,
        secret.spec_bytes().len() > 8 ==> r@ == decode_utf8(secret.spec_bytes().take(8))
            + "..."@,
{
    if secret.len() > 8 {
        concat2(byte_prefix(secret, 8), "...")
    } else {
        String::from_str(secret)
    }
}

/// How a login names the user: the e-mail when known, otherwise the first
/// (up to) 8 bytes of the token.
pub fn user_label(creds: &Credentials) -> (r: String)
    requires
        encode_utf8(creds.token@).len() <= usize::MAX,
        creds.email is None && encode_utf8(creds.token@).len() > 8 ==> is_char_boundary(
            encode_utf8(creds.token@),
            8,
        ),
    ensures
        creds.email matches Some(e) ==> r@ == e@,
        creds.email is None && encode_utf8(creds.token@).len() <= 8 ==> r@
            == creds.token@,
        creds.email is None && encode_utf8(creds.token@).len() > 8 ==> r@ == decode_utf8(
            encode_utf8(creds.token@).take(8),
        ),
{
    match &creds.email {
        Some(e) => e.clone(),
        None => {
            let t = creds.token.as_str();
            if t.len() > 8 {
                String::from_str(byte_prefix(t, 8))
            } else {
                String::from_str(t)
            }
        },
    }
}

} // verus!
