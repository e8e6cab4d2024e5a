//! Session authentication: one configured credential pair, signed
//! time-bounded tokens, and token extraction from a request.

use vstd::prelude::*;
use crate::error::ApiError;
use crate::text::{
    index_from, index_of_char, opt_view, split, split_str, starts_with_text, strings_view, text_eq, trim,
    trim_str,
};

verus! {

#[verifier::external_type_specification]
#[verifier::external_body]
pub struct ExJwtError(jsonwebtoken::errors::Error);

/// The token that signing these claims with this secret yields.
pub uninterp spec fn jwt_encoded(sub: Seq<char>, iat: i64, exp: i64, secret: Seq<char>) -> Seq<
    char,
>;

/// What a token carries once its signature has been checked with this
/// secret: `None` when it is malformed or forged, when its `exp` is missing
/// or not a non-negative number, or when it names an audience (`aud`);
/// otherwise its `sub` where that is a string, and its `iat` and `exp`
/// where those are integers.
pub uninterp spec fn jwt_decoded(token: Seq<char>, secret: Seq<char>) -> Option<
    (Option<Seq<char>>, Option<i64>, Option<i64>),
>;

/// Relies on `jsonwebtoken::encode` with the default header (HS256) and an
/// HMAC key made from the secret's bytes. With an HMAC key and an HMAC
/// algorithm, and claims that are a JSON map of a string and two integers,
/// encoding cannot fail; the token (`header.claims.signature`) depends on the
/// claims and the secret alone, and `jsonwebtoken::decode` with the same
/// secret gives the claims back when `exp` is not negative.
#[verifier::external_body]
fn sign_claims(sub: &str, iat: i64, exp: i64, secret: &str) -> (r: Result<
    String,
    jsonwebtoken::errors::Error,
>)
    ensures
        r is Ok,
        r->Ok_0@ == jwt_encoded(sub@, iat, exp, secret@),
        r->Ok_0@.len() > 0,
        exp >= 0 ==> jwt_decoded(r->Ok_0@, secret@) == Some((Some(sub@), Some(iat), Some(exp))),
{
    let mut claims = serde_json::Map::new();
    claims.insert("sub".to_string(), serde_json::Value::from(sub));
    claims.insert("iat".to_string(), serde_json::Value::from(iat));
    claims.insert("exp".to_string(), serde_json::Value::from(exp));
    let key = jsonwebtoken::EncodingKey::from_secret(secret.as_bytes());
    jsonwebtoken::encode(&jsonwebtoken::Header::default(), &claims, &key)
}

/// Relies on `jsonwebtoken::decode` with the default validation (HS256,
/// `exp` required) but without its own clock check of `exp`, which the
/// caller makes against a given time; the claims are read as JSON fields.
#[verifier::external_body]
fn read_token(token: &str, secret: &str) -> (r: Result<
    (Option<String>, Option<i64>, Option<i64>),
    jsonwebtoken::errors::Error,
>)
    ensures
        match r {
            Ok((s, i, e)) => jwt_decoded(token@, secret@) == Some((opt_view(s), i, e)),
            Err(_) => jwt_decoded(token@, secret@) is None,
        },
{
    let mut validation = jsonwebtoken::Validation::default();
    validation.validate_exp = false;
    let key = jsonwebtoken::DecodingKey::from_secret(secret.as_bytes());
    let c = jsonwebtoken::decode::<serde_json::Map<String, serde_json::Value>>(
        token,
        &key,
        &validation,
    )?.claims;
    Ok((
        c.get("sub").and_then(|v| v.as_str()).map(String::from),
        c.get("iat").and_then(|v| v.as_i64()),
        c.get("exp").and_then(|v| v.as_i64()),
    ))
}

/// Relies on `chrono::Utc::now`: the current time in whole seconds since
/// the Unix epoch. Nothing is known of its value.
#[verifier::external_body]
fn unix_now() -> i64 {
    chrono::Utc::now().timestamp()
}

pub const DEFAULT_USERNAME: &'static str = "admin";

pub const DEFAULT_PASSWORD: &'static str = "studyguardian";

pub const DEFAULT_SECRET: &'static str = "change-me-please";

pub const DEFAULT_SESSION_MINUTES: i64 = 5;

/// The shared credential, the signing secret and the session length.
#[derive(Clone, Debug)]
pub struct AuthSettings {
    pub username: String,
    pub password: String,
    pub secret: String,
    pub session_minutes: i64,
}

/// The claims of a session token.
#[derive(Clone, Debug)]
pub struct Claims {
    pub sub: String,
    pub iat: i64,
    pub exp: i64,
}

impl View for Claims {
    type V = (Seq<char>, i64, i64);

    open spec fn view(&self) -> (Seq<char>, i64, i64) {
        (self.sub@, self.iat, self.exp)
    }
}

/// What a successful login hands back.
#[derive(Clone, Debug)]
pub struct LoginResponse {
    pub token: String,
    pub expires_at: i64,
    pub username: String,
}

/// The session length in minutes, never below one.
pub open spec fn effective_minutes(m: i64) -> int {
    if m < 1 {
        1
    } else {
        m as int
    }
}

/// When a session opened at `now` ends, in seconds since the epoch.
pub open spec fn expiry_of(now: i64, minutes: i64) -> int {
    now + 60 * effective_minutes(minutes)
}

pub open spec fn fits_i64(x: int) -> bool {
    i64::MIN <= x <= i64::MAX
}

/// Whether a token with this expiry is still valid at `now`: expiry is
/// enforced strictly, with no leeway.
pub open spec fn is_live(exp: i64, now: i64) -> bool {
    now <= exp
}

/// The claims of a decoded token, when all three are present.
pub open spec fn complete_claims(d: Option<(Option<Seq<char>>, Option<i64>, Option<i64>)>) -> Option<
    (Seq<char>, i64, i64),
> {
    match d {
        Some((Some(s), Some(i), Some(e))) => Some((s, i, e)),
        _ => None,
    }
}

/// The outcome of checking decoded claims at time `now`.
pub open spec fn accepted_claims(
    d: Option<(Option<Seq<char>>, Option<i64>, Option<i64>)>,
    now: i64,
) -> Option<(Seq<char>, i64, i64)> {
    match complete_claims(d) {
        Some(c) => if is_live(c.2, now) {
            Some(c)
        } else {
            None
        },
        None => None,
    }
}

pub open spec fn is_unauthorized<T>(r: Result<T, ApiError>) -> bool {
    r matches Err(ApiError::Unauthorized)
}

impl AuthSettings {
    /// Settings from optional configured values, with defaults for what is
    /// missing and the session length raised to at least one minute.
    pub fn from_config(
        username: Option<String>,
        password: Option<String>,
        secret: Option<String>,
        session_minutes: Option<i64>,
    ) -> (r: AuthSettings)
        ensures
            r.username@ == match username {
                Some(u) => u@,
                None => DEFAULT_USERNAME@,
            },
            r.password@ == match password {
                Some(p) => p@,
                None => DEFAULT_PASSWORD@,
            },
            r.secret@ == match secret {
                Some(s) => s@,
                None => DEFAULT_SECRET@,
            },
            r.session_minutes == effective_minutes(
                match session_minutes {
                    Some(m) => m,
                    None => DEFAULT_SESSION_MINUTES,
                },
            ),
    {
        let username = match username {
            Some(u) => u,
            None => String::from_str(DEFAULT_USERNAME),
        };
        let password = match password {
            Some(p) => p,
            None => String::from_str(DEFAULT_PASSWORD),
        };
        let secret = match secret {
            Some(s) => s,
            None => String::from_str(DEFAULT_SECRET),
        };
        let m = match session_minutes {
            Some(m) => m,
            None => DEFAULT_SESSION_MINUTES,
        };
        let session_minutes = if m < 1 {
            1
        } else {
            m
        };
        AuthSettings { username, password, secret, session_minutes }
    }

    pub open spec fn credentials_match(&self, username: Seq<char>, password: Seq<char>) -> bool {
        username == self.username@ && password == self.password@
    }

    /// The claims of a session opened at `now` for these credentials.
    pub fn issue_claims(&self, username: &str, password: &str, now: i64) -> (r: Result<
        Claims,
        ApiError,
    >)
        ensures
            !self.credentials_match(username@, password@) ==> is_unauthorized(r),
            self.credentials_match(username@, password@) && fits_i64(
                expiry_of(now, self.session_minutes),
            ) ==> r is Ok && r->Ok_0@ == (username@, now, expiry_of(
                now,
                self.session_minutes,
            ) as i64),
            self.credentials_match(username@, password@) && !fits_i64(
                expiry_of(now, self.session_minutes),
            ) ==> r matches Err(ApiError::Internal(_)),
    {
        let user_ok = text_eq(username, self.username.as_str());
        let pass_ok = text_eq(password, self.password.as_str());
        if !(user_ok && pass_ok) {
            return Err(ApiError::Unauthorized);
        }
        let minutes: i64 = if self.session_minutes < 1 {
            1
        } else {
            self.session_minutes
        };
        let e: i128 = now as i128 + 60 * (minutes as i128);
        if e < i64::MIN as i128 || e > i64::MAX as i128 {
            return Err(ApiError::Internal(String::from_str("session expiry out of range")));
        }
        Ok(Claims { sub: String::from_str(username), iat: now, exp: e as i64 })
    }

    /// Logs in at time `now`: checks the credentials and issues a signed token.
    pub fn login_at(&self, username: &str, password: &str, now: i64) -> (r: Result<
        LoginResponse,
        ApiError,
    >)
        ensures
            !self.credentials_match(username@, password@) ==> is_unauthorized(r),
            self.credentials_match(username@, password@) && !fits_i64(
                expiry_of(now, self.session_minutes),
            ) ==> r matches Err(ApiError::Internal(_)),
            self.credentials_match(username@, password@) && fits_i64(
                expiry_of(now, self.session_minutes),
            ) ==> r is Ok,
            r is Ok ==> {
                let resp = r->Ok_0;
                &&& self.credentials_match(username@, password@)
                &&& resp.username@ == username@
                &&& resp.expires_at == expiry_of(now, self.session_minutes)
                &&& resp.token@ == jwt_encoded(username@, now, resp.expires_at, self.secret@)
                &&& resp.token@.len() > 0
                &&& resp.expires_at >= 0 ==> jwt_decoded(resp.token@, self.secret@) == Some(
                    (Some(username@), Some(now), Some(resp.expires_at)),
                )
            },
    {
        let claims = match self.issue_claims(username, password, now) {
            Ok(c) => c,
            Err(e) => return Err(e),
        };
        match sign_claims(claims.sub.as_str(), claims.iat, claims.exp, self.secret.as_str()) {
            Ok(token) => Ok(LoginResponse { token, expires_at: claims.exp, username: claims.sub }),
            Err(_) => Err(ApiError::Internal(String::from_str("cannot sign session token"))),
        }
    }

    /// Logs in now.
    pub fn login(&self, username: &str, password: &str) -> (r: Result<LoginResponse, ApiError>)
        ensures
            !self.credentials_match(username@, password@) ==> is_unauthorized(r),
            self.credentials_match(username@, password@) ==> !is_unauthorized(r),
            r is Ok ==> {
                let resp = r->Ok_0;
                &&& self.credentials_match(username@, password@)
                &&& resp.username@ == username@
                &&& resp.token@.len() > 0
                &&& exists|now: i64|
                    resp.expires_at == expiry_of(now, self.session_minutes) && resp.token@
                        == jwt_encoded(username@, now, resp.expires_at, self.secret@) && (
                    resp.expires_at >= 0 ==> jwt_decoded(resp.token@, self.secret@) == Some(
                        (Some(username@), Some(now), Some(resp.expires_at)),
                    ))
            },
    {
        let now = unix_now();
        self.login_at(username, password, now)
    }

    /// Checks a token's signature and claims, and that it has not expired at `now`.
    pub fn verify_at(&self, token: &str, now: i64) -> (r: Result<Claims, ApiError>)
        ensures
            match accepted_claims(jwt_decoded(token@, self.secret@), now) {
                Some(c) => r is Ok && r->Ok_0@ == c,
                None => is_unauthorized(r),
            },
    {
        match read_token(token, self.secret.as_str()) {
            Ok((sub, iat, exp)) => check_claims(Some((sub, iat, exp)), now),
            Err(_) => check_claims(None, now),
        }
    }

    /// Checks a token now.
    pub fn verify(&self, token: &str) -> (r: Result<Claims, ApiError>)
        ensures
            complete_claims(jwt_decoded(token@, self.secret@)) is None ==> is_unauthorized(r),
            r is Err ==> is_unauthorized(r),
            r is Ok ==> complete_claims(jwt_decoded(token@, self.secret@)) == Some(r->Ok_0@),
    {
        let now = unix_now();
        self.verify_at(token, now)
    }

    /// The claims of the request's token, checked at `now`.
    pub fn authorize_at(&self, auth_header: Option<&str>, query: Option<&str>, now: i64) -> (r:
        Result<Claims, ApiError>)
        ensures
            match request_token(opt_str_view(auth_header), opt_str_view(query)) {
                Some(t) => match accepted_claims(jwt_decoded(t, self.secret@), now) {
                    Some(c) => r is Ok && r->Ok_0@ == c,
                    None => is_unauthorized(r),
                },
                None => is_unauthorized(r),
            },
    {
        match extract_token(auth_header, query) {
            Some(t) => self.verify_at(t.as_str(), now),
            None => Err(ApiError::Unauthorized),
        }
    }

    /// The claims of the request's token, checked now.
    pub fn authorize(&self, auth_header: Option<&str>, query: Option<&str>) -> (r: Result<
        Claims,
        ApiError,
    >)
        ensures
            request_token(opt_str_view(auth_header), opt_str_view(query)) is None
                ==> is_unauthorized(r),
            r is Err ==> is_unauthorized(r),
            r is Ok ==> exists|t: Seq<char>|
                request_token(opt_str_view(auth_header), opt_str_view(query)) == Some(t)
                    && complete_claims(jwt_decoded(t, self.secret@)) == Some(r->Ok_0@),
    {
        let now = unix_now();
        self.authorize_at(auth_header, query, now)
    }
}

/// Accepts decoded claims at `now` when `sub`, `iat` and `exp` are all
/// present and the token has not expired.
pub fn check_claims(
    decoded: Option<(Option<String>, Option<i64>, Option<i64>)>,
    now: i64,
) -> (r: Result<Claims, ApiError>)
    ensures
        match accepted_claims(decoded_view(decoded), now) {
            Some(c) => r is Ok && r->Ok_0@ == c,
            None => is_unauthorized(r),
        },
{
    match decoded {
        Some((Some(sub), Some(iat), Some(exp))) => if now <= exp {
            Ok(Claims { sub, iat, exp })
        } else {
            Err(ApiError::Unauthorized)
        },
        _ => Err(ApiError::Unauthorized),
    }
}

pub open spec fn decoded_view(d: Option<(Option<String>, Option<i64>, Option<i64>)>) -> Option<
    (Option<Seq<char>>, Option<i64>, Option<i64>),
> {
    match d {
        Some((s, i, e)) => Some((opt_view(s), i, e)),
        None => None,
    }
}

pub open spec fn opt_str_view(o: Option<&str>) -> Option<Seq<char>> {
    match o {
        Some(s) => Some(s@),
        None => None,
    }
}

/// The token of an `Authorization` header value: what follows `Bearer `,
/// trimmed, when that is not empty.
pub open spec fn bearer_token(h: Seq<char>) -> Option<Seq<char>> {
    let p = "Bearer "@;
    if p.is_prefix_of(h) && trim(h.subrange(p.len() as int, h.len() as int)).len() > 0 {
        Some(trim(h.subrange(p.len() as int, h.len() as int)))
    } else {
        None
    }
}

/// The token named by one `key=value` pair of a query string: the value
/// after the first `=` when the key is `token` and the value is not empty.
pub open spec fn pair_token(pair: Seq<char>) -> Option<Seq<char>> {
    match index_from(pair, '=', 0) {
        Some(k) => if pair.subrange(0, k) == "token"@ && k + 1 < pair.len() {
            Some(pair.subrange(k + 1, pair.len() as int))
        } else {
            None
        },
        None => None,
    }
}

/// The first token among the pairs from position `k` on.
pub open spec fn first_pair_token(pairs: Seq<Seq<char>>, k: int) -> Option<Seq<char>>
    decreases pairs.len() - k,
{
    if k < 0 || k >= pairs.len() {
        None
    } else {
        match pair_token(pairs[k]) {
            Some(t) => Some(t),
            None => first_pair_token(pairs, k + 1),
        }
    }
}

/// The token of a query string: that of its first `&`-separated pair that names one.
pub open spec fn query_token(q: Seq<char>) -> Option<Seq<char>> {
    first_pair_token(split(q, '&'), 0)
}

/// The session token of a request: from the `Authorization` header when it
/// holds one, else from the query string.
pub open spec fn request_token(header: Option<Seq<char>>, query: Option<Seq<char>>) -> Option<
    Seq<char>,
> {
    match header {
        Some(h) if bearer_token(h) is Some => bearer_token(h),
        _ => match query {
            Some(q) => query_token(q),
            None => None,
        },
    }
}

/// The bearer token of an `Authorization` header value.
pub fn bearer_token_of(h: &str) -> (r: Option<String>)
    ensures
        opt_view(r) == bearer_token(h@),
{
    let p = "Bearer ";
    if !starts_with_text(h, p) {
        return None;
    }
    let t = trim_str(h.substring_char(p.unicode_len(), h.unicode_len()));
    if t.unicode_len() > 0 {
        Some(t)
    } else {
        None
    }
}

/// The token named by one query pair.
pub fn pair_token_of(pair: &str) -> (r: Option<String>)
    ensures
        opt_view(r) == pair_token(pair@),
{
    match index_of_char(pair, '=') {
        Some(k) => {
            let n = pair.unicode_len();
            proof {
                lemma_index_from_bound(pair@, '=', 0);
            }
            if text_eq(pair.substring_char(0, k), "token") && k + 1 < n {
                Some(String::from_str(pair.substring_char(k + 1, n)))
            } else {
                None
            }
        },
        None => None,
    }
}

proof fn lemma_index_from_bound(s: Seq<char>, c: char, i: int)
    ensures
        index_from(s, c, i) matches Some(k) ==> 0 <= i <= k < s.len() && s[k] == c,
    decreases s.len() - i,
{
    if 0 <= i < s.len() && s[i] != c {
        lemma_index_from_bound(s, c, i + 1);
    }
}

/// The token of a query string.
pub fn query_token_of(q: &str) -> (r: Option<String>)
    ensures
        opt_view(r) == query_token(q@),
{
    let pairs = split_str(q, '&');
    let ghost ps = strings_view(pairs@);
    let mut k: usize = 0;
    while k < pairs.len()
        invariant
            ps == strings_view(pairs@),
            ps == split(q@, '&'),
            0 <= k <= pairs.len(),
            query_token(q@) == first_pair_token(ps, k as int),
        decreases pairs.len() - k,
    {
        let t = pair_token_of(pairs[k].as_str());
        if t.is_some() {
            return t;
        }
        k = k + 1;
    }
    None
}

/// The session token of a request, from its `Authorization` header value
/// (taking precedence) or its query string.
pub fn extract_token(auth_header: Option<&str>, query: Option<&str>) -> (r: Option<String>)
    ensures
        opt_view(r) == request_token(opt_str_view(auth_header), opt_str_view(query)),
{
    if let Some(h) = auth_header {
        let t = bearer_token_of(h);
        if t.is_some() {
            return t;
        }
    }
    match query {
        Some(q) => query_token_of(q),
        None => None,
    }
}

/// A token whose `exp` lies before `now` is rejected, whatever else it
/// carries: also one that was valid when it was issued.
pub proof fn expired_claims_rejected(
    d: Option<(Option<Seq<char>>, Option<i64>, Option<i64>)>,
    now: i64,
)
    requires
        d matches Some((_, _, Some(exp))) && exp < now,
    ensures
        accepted_claims(d, now) is None,
{
}

/// The claims of a session opened at `now` are accepted from `now` until the
/// session's end, `session_minutes` (at least one) later, and rejected at
/// every time after it.
pub proof fn session_claims_live_until_expiry(s: AuthSettings, username: Seq<char>, now: i64, t: i64)
    requires
        fits_i64(expiry_of(now, s.session_minutes)),
    ensures
        ({
            let exp = expiry_of(now, s.session_minutes) as i64;
            let d = Some((Some(username), Some(now), Some(exp)));
            &&& exp >= now + 60
            &&& now <= t <= exp ==> accepted_claims(d, t) == Some((username, now, exp))
            &&& t > exp ==> accepted_claims(d, t) is None
        }),
{
}

/// A token issued at `now` for a session that ends at a non-negative time
/// (as `login_at` states of every token it issues, with `jwt_decoded`) is
/// accepted by `verify_at` at every time from `now` until the session's end,
/// and rejected at every time after it.
pub proof fn issued_token_live_until_expiry(
    s: AuthSettings,
    username: Seq<char>,
    now: i64,
    token: Seq<char>,
    t: i64,
)
    requires
        fits_i64(expiry_of(now, s.session_minutes)),
        expiry_of(now, s.session_minutes) >= 0,
        jwt_decoded(token, s.secret@) == Some(
            (Some(username), Some(now), Some(expiry_of(now, s.session_minutes) as i64)),
        ),
    ensures
        ({
            let exp = expiry_of(now, s.session_minutes) as i64;
            &&& now <= t <= exp ==> accepted_claims(jwt_decoded(token, s.secret@), t) == Some(
                (username, now, exp),
            )
            &&& t > exp ==> accepted_claims(jwt_decoded(token, s.secret@), t) is None
        }),
{
}

} // verus!
