//! Access tokens of the media-asset server: requesting one, and the daemon
//! that keeps the shared token fresh.

use vstd::prelude::*;
use vstd::string::StringSliceAdditionalSpecFns;

use crate::codec::{
    base64_decode_spec, base64_encode, base64_spec, percent_encode_non_alphanumeric, percent_encode_spec,
};
use crate::handler::{failure, ok_reply, ApiReply, HandlerError};

verus! {

/// The handler that fetches an access token on request.
pub struct GetMahToken;

/// Its query: the optional user name.
pub struct GetMahTokenReq {
    pub username: Option<String>,
}

/// An access token as the media-asset server grants it.
#[derive(Debug)]
pub struct MahTokenResp {
    pub access_token: String,
    pub token_type: String,
    pub refresh_token: String,
    pub expires_in: u64,
    pub scope: String,
    pub jti: String,
}

/// Whether `t` is the empty token: empty texts, expiring at once.
pub open spec fn is_empty_token(t: MahTokenResp) -> bool {
    &&& t.access_token@ == Seq::<char>::empty()
    &&& t.token_type@ == Seq::<char>::empty()
    &&& t.refresh_token@ == Seq::<char>::empty()
    &&& t.expires_in == 0
    &&& t.scope@ == Seq::<char>::empty()
    &&& t.jti@ == Seq::<char>::empty()
}

impl Default for MahTokenResp {
    fn default() -> (r: Self)
        ensures
            is_empty_token(r),
    {
        MahTokenResp {
            access_token: String::new(),
            token_type: String::new(),
            refresh_token: String::new(),
            expires_in: 0,
            scope: String::new(),
            jti: String::new(),
        }
    }
}

/// The text whose Base64 form is the basic authorization of a client.
pub open spec fn auth_seed(client_id: Seq<char>, client_secret: Seq<char>) -> Seq<char> {
    client_id + ":"@ + client_secret
}

/// The basic-authorization credentials of a client: Base64 of
/// `{client_id}:{client_secret}`; it never fails.
pub fn get_auth(client_id: &str, client_secret: &str) -> (r: Result<String, HandlerError>)
    requires
        vstd::utf8::encode_utf8(auth_seed(client_id@, client_secret@)).len() / 3 * 4 + 4
            <= usize::MAX,
    ensures
        r matches Ok(a) && a@ == base64_spec(
            vstd::utf8::encode_utf8(auth_seed(client_id@, client_secret@)),
        ),
{
    let ori = crate::text::concat3(client_id, ":", client_secret);
    Ok(base64_encode(ori.as_str().as_bytes()))
}

/// The credentials decode back to `{client_id}:{client_secret}`, and their
/// text has four characters for every started group of three bytes of it.
pub proof fn lemma_auth_round_trip(client_id: Seq<char>, client_secret: Seq<char>)
    ensures
        base64_decode_spec(base64_spec(vstd::utf8::encode_utf8(auth_seed(client_id, client_secret))))
            == vstd::utf8::encode_utf8(auth_seed(client_id, client_secret)),
        base64_spec(vstd::utf8::encode_utf8(auth_seed(client_id, client_secret))).len() == 4 * ((
        vstd::utf8::encode_utf8(auth_seed(client_id, client_secret)).len() + 2) / 3),
{
    crate::codec::lemma_base64_round_trip(vstd::utf8::encode_utf8(auth_seed(client_id, client_secret)));
}

/// The form sent to obtain a token.
pub struct TokenForm {
    pub grant_type: String,
    pub username: String,
}

/// A token request: where it goes, its `Authorization` and `Host` headers,
/// and its form.
pub struct TokenRequest {
    pub url: String,
    pub authorization: String,
    pub host: String,
    pub form: TokenForm,
}

/// The token request for user `username`: posted to `{url}/oauth/token`
/// with basic authorization and host `auth.wifizs.cn`, the user name
/// percent-encoded (every byte but ASCII letters and digits).
pub fn mah_token_request(
    url: &str,
    username: &str,
    client_id: &str,
    client_secret: &str,
    grant_type: &str,
) -> (r: Result<TokenRequest, HandlerError>)
    requires
        vstd::utf8::encode_utf8(auth_seed(client_id@, client_secret@)).len() / 3 * 4 + 4
            <= usize::MAX,
    ensures
        r matches Ok(req) && req.url@ == url@ + "/oauth/token"@ && req.authorization@ == "Basic "@
            + base64_spec(vstd::utf8::encode_utf8(auth_seed(client_id@, client_secret@)))
            && req.host@ == "auth.wifizs.cn"@ && req.form.grant_type@ == grant_type@
            && req.form.username@ == percent_encode_spec(username.spec_bytes()),
{
    let full_url = crate::text::concat2(url, "/oauth/token");
    let encoded = percent_encode_non_alphanumeric(username);
    let auth = get_auth(client_id, client_secret)?;
    let authorization = crate::text::concat2("Basic ", auth.as_str());
    Ok(
        TokenRequest {
            url: full_url,
            authorization,
            host: String::from_str("auth.wifizs.cn"),
            form: TokenForm { grant_type: String::from_str(grant_type), username: encoded },
        },
    )
}

/// The token that a request gives: the server's answer when its status was
/// OK, otherwise "获取token失败".
pub fn token_result(answer: Option<MahTokenResp>) -> (r: Result<MahTokenResp, HandlerError>)
    ensures
        match answer {
            Some(t) => r == Ok::<MahTokenResp, HandlerError>(t),
            None => r matches Err(HandlerError::Message(m)) && m@ == "获取token失败"@,
        },
{
    match answer {
        Some(t) => Ok(t),
        None => Err(failure("获取token失败")),
    }
}

impl GetMahToken {
    /// The user name asked for, the empty text when none is given.
    pub fn username(prms: &GetMahTokenReq) -> (r: String)
        ensures
            r@ == (match prms.username {
                Some(u) => u@,
                None => Seq::<char>::empty(),
            }),
    {
        match &prms.username {
            Some(u) => u.clone(),
            None => String::new(),
        }
    }

    /// The reply carrying the token, with message "获取token成功".
    pub fn reply(token: MahTokenResp) -> (r: ApiReply<MahTokenResp>)
        ensures
            r.success,
            r.err_msg@ == "获取token成功"@,
            r.data == token,
    {
        ok_reply("获取token成功", token)
    }
}

// ---------------------------------------------------------------------------
// The token daemon
// ---------------------------------------------------------------------------

/// What the token daemon does after a tick.
pub enum TokenAction {
    /// Request a new token, then wait.
    Refresh,
    /// Only wait.
    Wait,
}

/// Whether a tick with `interval` seconds would count a token's remaining
/// lifetime below zero (or overflow the step): the lifetime exceeds the
/// interval but not by the five-second margin.
pub open spec fn tick_underflows(expires_in: u64, interval: u64) -> bool {
    expires_in > interval && (interval + 5 > u64::MAX || expires_in < interval + 5)
}

/// The remaining lifetime after a tick, or `None` when the tick refreshes:
/// a token that expires within the interval is refreshed, otherwise its
/// lifetime is counted down by the interval and five seconds of margin.
pub open spec fn tick_spec(expires_in: nat, interval: nat) -> Option<nat> {
    if expires_in <= interval {
        None
    } else {
        Some((expires_in - (interval + 5)) as nat)
    }
}

/// Whether `b` is `a` with remaining lifetime `expires_in`.
pub open spec fn with_expiry(a: MahTokenResp, b: MahTokenResp, expires_in: u64) -> bool {
    &&& b.access_token == a.access_token
    &&& b.token_type == a.token_type
    &&& b.refresh_token == a.refresh_token
    &&& b.expires_in == expires_in
    &&& b.scope == a.scope
    &&& b.jti == a.jti
}

/// One tick of the token daemon, every `interval` seconds: either the token
/// must be refreshed, or its remaining lifetime is counted down.
pub fn token_tick(token: &mut MahTokenResp, interval: u64) -> (r: TokenAction)
    requires
        !tick_underflows(old(token).expires_in, interval),
    ensures
        match tick_spec(old(token).expires_in as nat, interval as nat) {
            None => r == TokenAction::Refresh && *final(token) == *old(token),
            Some(n) => r == TokenAction::Wait && with_expiry(*old(token), *final(token), n as u64),
        },
{
    if token.expires_in <= interval {
        TokenAction::Refresh
    } else {
        token.expires_in = token.expires_in - (interval + 5);
        TokenAction::Wait
    }
}

/// The shared token after a refresh: the new token, or the empty token when
/// the request failed.
pub fn token_refreshed(token: &mut MahTokenResp, fetched: Option<MahTokenResp>)
    ensures
        match fetched {
            Some(t) => *final(token) == t,
            None => is_empty_token(*final(token)),
        },
{
    *token = match fetched {
        Some(t) => t,
        None => MahTokenResp::default(),
    };
}

/// Every tick that does not refresh shortens the remaining lifetime, so the
/// token is refreshed after finitely many ticks.
pub proof fn lemma_tick_counts_down(expires_in: nat, interval: nat)
    requires
        expires_in <= interval || expires_in >= interval + 5,
    ensures
        tick_spec(expires_in, interval) matches Some(n) ==> n < expires_in,
{
}

/// After a failed refresh the token expires at once, so the next tick
/// refreshes again, whatever the interval.
pub proof fn lemma_failed_refresh_retried(token: MahTokenResp, interval: nat)
    requires
        is_empty_token(token),
    ensures
        tick_spec(token.expires_in as nat, interval) is None,
{
}

} // verus!
