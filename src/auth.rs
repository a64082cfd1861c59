//! Password-based administration: the administrator's status, token refresh,
//! and the token a WebSocket client passes in its query string.
use vstd::prelude::*;
use vstd::string::{StringExecFns, StringSliceAdditionalSpecFns};
use argon2::{PasswordHasher, PasswordVerifier};
use crate::bytes::{copy_range, has_prefix, starts_with};

verus! {

/// Lifetime of an access token, in seconds.
pub const ACCESS_TOKEN_SECONDS: i64 = 86400;

/// The shortest administrator password accepted from the command line.
pub const MIN_PASSWORD_LENGTH: usize = 8;

/// Lifetime of a refresh token, in seconds.
pub const REFRESH_TOKEN_SECONDS: i64 = 604800;

#[derive(Debug, Clone, Copy, PartialEq, Eq, Structural)]
pub enum AuthError {
    InvalidCredentials,
    InvalidToken,
    TokenExpired,
    RegistrationDisabled,
    UserAlreadyExists,
    Hash,
    Jwt,
    Io,
    Json,
    Base64,
    MissingAuthHeader,
    InvalidAuthHeaderFormat,
}

/// The claims a token carries.
#[derive(Debug, PartialEq, Eq)]
pub struct Claims {
    /// The user; `admin` in single-user mode.
    pub sub: String,
    /// Issued at, in epoch seconds.
    pub iat: i64,
    /// Expires at, in epoch seconds.
    pub exp: i64,
    /// `access` or `refresh`.
    pub token_type: String,
}

#[derive(Debug, PartialEq, Eq)]
pub struct LoginRequest {
    pub password: String,
}

#[derive(Debug, PartialEq, Eq)]
pub struct RegisterRequest {
    pub password: String,
}

#[derive(Debug, PartialEq, Eq)]
pub struct RefreshRequest {
    pub refresh_token: String,
}

#[derive(Debug, PartialEq, Eq)]
pub struct TokenResponse {
    pub access_token: String,
    pub refresh_token: String,
    pub token_type: String,
    pub expires_in: i64,
}

#[derive(Debug, Clone, Copy, PartialEq, Eq, Structural)]
pub struct AuthStatus {
    pub auth_enabled: bool,
    pub has_admin: bool,
    pub registration_enabled: bool,
}

/// The HS256 token with claims `sub`, `iat`, `exp` and `type` under
/// `secret`, if it can be made.
pub uninterp spec fn hs256_token(
    sub: Seq<char>,
    iat: int,
    exp: int,
    token_type: Seq<char>,
    secret: Seq<u8>,
) -> Option<Seq<char>>;

/// Relies on jsonwebtoken::encode with the default header (HS256); the
/// claims are a JSON object of the four fields.
#[verifier::external_body]
fn encode_token(claims: &Claims, secret: &[u8]) -> (r: Option<String>)
    ensures
        r matches Some(t) ==> hs256_token(claims.sub@, claims.iat as int, claims.exp as int, claims.token_type@, secret@) == Some(t@),
        r is None ==> hs256_token(claims.sub@, claims.iat as int, claims.exp as int, claims.token_type@, secret@) is None,
{
    let mut m = serde_json::Map::new();
    m.insert("sub".to_string(), serde_json::Value::from(claims.sub.as_str()));
    m.insert("iat".to_string(), serde_json::Value::from(claims.iat));
    m.insert("exp".to_string(), serde_json::Value::from(claims.exp));
    m.insert("type".to_string(), serde_json::Value::from(claims.token_type.as_str()));
    let key = jsonwebtoken::EncodingKey::from_secret(secret);
    jsonwebtoken::encode(&jsonwebtoken::Header::default(), &serde_json::Value::Object(m), &key).ok()
}

/// Relies on jsonwebtoken::decode with the default validation (HS256, `exp`
/// checked against the clock): the claims of a valid, unexpired token. What
/// it returns depends on the time, so nothing is stated of it.
#[verifier::external_body]
fn decode_token(token: &[u8], secret: &[u8]) -> (r: Option<Claims>) {
    let token = std::str::from_utf8(token).ok()?;
    let key = jsonwebtoken::DecodingKey::from_secret(secret);
    let v = jsonwebtoken::decode::<serde_json::Value>(token, &key, &jsonwebtoken::Validation::default());
    let c = v.ok()?.claims;
    let sub = c.get("sub")?.as_str()?.to_string();
    let token_type = c.get("type")?.as_str()?.to_string();
    Some(Claims { sub, iat: c.get("iat")?.as_i64()?, exp: c.get("exp")?.as_i64()?, token_type })
}

/// Whether Argon2 accepts `password` for the PHC string `hash`: `None` when
/// `hash` does not parse.
pub uninterp spec fn argon2_verdict(password: Seq<char>, hash: Seq<char>) -> Option<bool>;

/// Relies on argon2's PasswordHash::new and Argon2::default's
/// verify_password; a hash that does not parse gives `None`.
#[verifier::external_body]
fn check_password(password: &str, hash: &str) -> (r: Option<bool>)
    ensures
        r == argon2_verdict(password@, hash@),
{
    let parsed = argon2::PasswordHash::new(hash).ok()?;
    Some(argon2::Argon2::default().verify_password(password.as_bytes(), &parsed).is_ok())
}

/// Relies on argon2's hash_password with Argon2::default and a salt from
/// SaltString::generate over the system's random source. The salt is random;
/// what holds of every outcome is that Argon2 accepts the password for the
/// PHC string it returns.
#[verifier::external_body]
fn hash_with_fresh_salt(password: &str) -> (r: Option<String>)
    ensures
        r matches Some(h) ==> argon2_verdict(password@, h@) == Some(true),
{
    let salt = argon2::password_hash::SaltString::generate(&mut rand::rngs::OsRng);
    let hash = argon2::Argon2::default().hash_password(password.as_bytes(), &salt).ok()?;
    Some(hash.to_string())
}

/// Relies on chrono::Utc::now: the current time in epoch seconds.
#[verifier::external_body]
fn now_seconds() -> (r: i64) {
    chrono::Utc::now().timestamp()
}

/// A new Argon2 hash of `password` with a fresh salt, for an administrator
/// password set from the command line; `None` if the password is shorter
/// than `MIN_PASSWORD_LENGTH` bytes.
pub fn hash_admin_password(password: &str) -> (r: Result<Option<String>, AuthError>)
    ensures
        password.spec_bytes().len() < MIN_PASSWORD_LENGTH ==> r matches Ok(None),
        password.spec_bytes().len() >= MIN_PASSWORD_LENGTH ==> (r matches Ok(Some(_)) || r == Err::<Option<String>, AuthError>(AuthError::Hash)),
        r matches Ok(Some(h)) ==> argon2_verdict(password@, h@) == Some(true),
{
    if password.as_bytes().len() < MIN_PASSWORD_LENGTH {
        return Ok(None);
    }
    match hash_with_fresh_salt(password) {
        Some(h) => Ok(Some(h)),
        None => Err(AuthError::Hash),
    }
}

/// The access and refresh tokens for `sub` issued at `now`.
pub open spec fn issued_pair(secret: Seq<u8>, sub: Seq<char>, now: i64) -> Result<(Seq<char>, Seq<char>), AuthError> {
    if now as int + REFRESH_TOKEN_SECONDS > i64::MAX {
        Err(AuthError::Jwt)
    } else {
        let access = hs256_token(sub, now as int, now + ACCESS_TOKEN_SECONDS, "access"@, secret);
        let refresh = hs256_token(sub, now as int, now + REFRESH_TOKEN_SECONDS, "refresh"@, secret);
        match (access, refresh) {
            (Some(a), Some(r)) => Ok((a, r)),
            _ => Err(AuthError::Jwt),
        }
    }
}

/// `r` hands out exactly the tokens of `outcome`, or its error.
pub open spec fn answers(r: Result<TokenResponse, AuthError>, outcome: Result<(Seq<char>, Seq<char>), AuthError>) -> bool {
    match outcome {
        Ok((a, f)) => r matches Ok(t) && t.access_token@ == a && t.refresh_token@ == f
            && t.token_type@ == "Bearer"@ && t.expires_in == ACCESS_TOKEN_SECONDS,
        Err(e) => r == Err::<TokenResponse, AuthError>(e),
    }
}

/// The outcome of a login with `password` at `now` against the stored hash.
pub open spec fn login_outcome(
    secret: Seq<u8>,
    stored: Option<Seq<char>>,
    password: Seq<char>,
    now: i64,
) -> Result<(Seq<char>, Seq<char>), AuthError> {
    match stored {
        None => Err(AuthError::InvalidCredentials),
        Some(h) => match argon2_verdict(password, h) {
            None => Err(AuthError::Hash),
            Some(false) => Err(AuthError::InvalidCredentials),
            Some(true) => issued_pair(secret, "admin"@, now),
        },
    }
}

/// A password that was registered, with its hash stored, logs in: the
/// outcome is the token pair for `admin`, never `InvalidCredentials`.
pub proof fn lemma_registered_password_logs_in(
    secret: Seq<u8>,
    password: Seq<char>,
    hash: Seq<char>,
    now: i64,
)
    requires
        argon2_verdict(password, hash) == Some(true),
    ensures
        login_outcome(secret, Some(hash), password, now) == issued_pair(secret, "admin"@, now),
        login_outcome(secret, Some(hash), password, now) != Err::<(Seq<char>, Seq<char>), AuthError>(
            AuthError::InvalidCredentials,
        ),
{
}

/// The pair of tokens a refresh with these claims at time `now` hands out.
pub open spec fn refresh_outcome(
    secret: Seq<u8>,
    claims: Option<(Seq<char>, Seq<char>)>,
    now: i64,
) -> Result<(Seq<char>, Seq<char>), AuthError> {
    match claims {
        None => Err(AuthError::InvalidToken),
        Some((sub, token_type)) => if token_type != "refresh"@ {
            Err(AuthError::InvalidToken)
        } else {
            issued_pair(secret, sub, now)
        },
    }
}

pub open spec fn claims_view(c: Option<Claims>) -> Option<(Seq<char>, Seq<char>)> {
    match c {
        Some(c) => Some((c.sub@, c.token_type@)),
        None => None,
    }
}

/// Manages the administrator's credentials and the token secret.
pub struct AuthManager {
    data_dir: String,
    jwt_secret: Vec<u8>,
    admin_password_hash: Option<String>,
    registration_enabled: bool,
}

impl AuthManager {
    pub closed spec fn secret_view(&self) -> Seq<u8> {
        self.jwt_secret@
    }

    pub closed spec fn has_admin_view(&self) -> bool {
        self.admin_password_hash is Some
    }

    pub closed spec fn password_hash_view(&self) -> Option<Seq<char>> {
        match self.admin_password_hash {
            Some(h) => Some(h@),
            None => None,
        }
    }

    pub closed spec fn data_dir_view(&self) -> Seq<char> {
        self.data_dir@
    }

    pub closed spec fn registration_view(&self) -> bool {
        self.registration_enabled
    }

    /// A manager over state already loaded from `data_dir`.
    pub fn from_parts(
        data_dir: String,
        jwt_secret: Vec<u8>,
        admin_password_hash: Option<String>,
        registration_enabled: bool,
    ) -> (r: AuthManager)
        ensures
            r.secret_view() == jwt_secret@,
            r.has_admin_view() == admin_password_hash is Some,
            r.password_hash_view() == (match admin_password_hash {
                Some(h) => Some(h@),
                None => None::<Seq<char>>,
            }),
            r.data_dir_view() == data_dir@,
            r.registration_view() == registration_enabled,
    {
        AuthManager { data_dir, jwt_secret, admin_password_hash, registration_enabled }
    }

    pub fn data_dir(&self) -> (r: &str)
        ensures
            r@ == self.data_dir_view(),
    {
        self.data_dir.as_str()
    }

    /// Whether an administrator password is set.
    pub fn has_admin(&self) -> (r: bool)
        ensures
            r == self.has_admin_view(),
            r == self.password_hash_view() is Some,
    {
        self.admin_password_hash.is_some()
    }

    /// Sets the administrator password, allowed while no administrator
    /// exists; gives back the new hash, which the caller persists.
    pub fn register(&mut self, password: &str) -> (r: Result<String, AuthError>)
        ensures
            final(self).secret_view() == old(self).secret_view(),
            final(self).registration_view() == old(self).registration_view(),
            final(self).data_dir_view() == old(self).data_dir_view(),
            old(self).has_admin_view() && !old(self).registration_view() ==> r == Err::<String, AuthError>(
                AuthError::RegistrationDisabled,
            ),
            old(self).has_admin_view() && old(self).registration_view() ==> r == Err::<String, AuthError>(
                AuthError::UserAlreadyExists,
            ),
            !old(self).has_admin_view() ==> (r is Ok || r == Err::<String, AuthError>(AuthError::Hash)),
            r matches Ok(h) ==> final(self).password_hash_view() == Some(h@) && argon2_verdict(
                password@,
                h@,
            ) == Some(true),
            r is Err ==> final(self).password_hash_view() == old(self).password_hash_view(),
    {
        if !self.registration_enabled && self.has_admin() {
            return Err(AuthError::RegistrationDisabled);
        }
        if self.has_admin() {
            return Err(AuthError::UserAlreadyExists);
        }
        match hash_with_fresh_salt(password) {
            None => Err(AuthError::Hash),
            Some(h) => {
                self.admin_password_hash = Some(h.clone());
                Ok(h)
            },
        }
    }

    fn issue(&self, sub: &String, now: i64) -> (r: Result<TokenResponse, AuthError>)
        ensures
            answers(r, issued_pair(self.secret_view(), sub@, now)),
    {
        if now > i64::MAX - REFRESH_TOKEN_SECONDS {
            return Err(AuthError::Jwt);
        }
        let access_token = self.token(sub, "access", now, ACCESS_TOKEN_SECONDS)?;
        let refresh_token = self.token(sub, "refresh", now, REFRESH_TOKEN_SECONDS)?;
        Ok(TokenResponse {
            access_token,
            refresh_token,
            token_type: String::from_str("Bearer"),
            expires_in: ACCESS_TOKEN_SECONDS,
        })
    }

    /// Tokens for the administrator at time `now`, if `password` is theirs.
    pub fn login_at(&self, password: &str, now: i64) -> (r: Result<TokenResponse, AuthError>)
        ensures
            answers(r, login_outcome(self.secret_view(), self.password_hash_view(), password@, now)),
    {
        let stored = match &self.admin_password_hash {
            None => return Err(AuthError::InvalidCredentials),
            Some(h) => h,
        };
        match check_password(password, stored.as_str()) {
            None => Err(AuthError::Hash),
            Some(false) => Err(AuthError::InvalidCredentials),
            Some(true) => self.issue(&String::from_str("admin"), now),
        }
    }

    /// Tokens for the administrator, issued now, if `password` is theirs.
    pub fn login(&self, password: &str) -> (r: Result<TokenResponse, AuthError>)
        ensures
            self.password_hash_view() is None ==> r == Err::<TokenResponse, AuthError>(
                AuthError::InvalidCredentials,
            ),
            self.password_hash_view() matches Some(h) && argon2_verdict(password@, h) == Some(false)
                ==> r == Err::<TokenResponse, AuthError>(AuthError::InvalidCredentials),
            self.password_hash_view() matches Some(h) && argon2_verdict(password@, h) is None ==> r
                == Err::<TokenResponse, AuthError>(AuthError::Hash),
            r matches Ok(t) ==> t.token_type@ == "Bearer"@ && t.expires_in == ACCESS_TOKEN_SECONDS,
    {
        self.login_at(password, now_seconds())
    }

    /// Authentication is always on; registration is open when enabled or
    /// while no administrator exists.
    pub fn status(&self) -> (r: AuthStatus)
        ensures
            r == (AuthStatus {
                auth_enabled: true,
                has_admin: self.has_admin_view(),
                registration_enabled: self.registration_view() || !self.has_admin_view(),
            }),
    {
        let has_admin = self.has_admin();
        AuthStatus {
            auth_enabled: true,
            has_admin,
            registration_enabled: self.registration_enabled || !has_admin,
        }
    }

    fn token(&self, subject: &String, token_type: &str, now: i64, lifetime: i64) -> (r: Result<String, AuthError>)
        requires
            0 < lifetime,
            now as int + lifetime <= i64::MAX,
        ensures
            r matches Ok(t) ==> hs256_token(subject@, now as int, now + lifetime, token_type@, self.secret_view()) == Some(t@),
            r is Err ==> r == Err::<String, AuthError>(AuthError::Jwt) && hs256_token(subject@, now as int, now + lifetime, token_type@, self.secret_view()) is None,
    {
        let claims = Claims {
            sub: subject.clone(),
            iat: now,
            exp: now + lifetime,
            token_type: String::from_str(token_type),
        };
        match encode_token(&claims, self.jwt_secret.as_slice()) {
            Some(t) => Ok(t),
            None => Err(AuthError::Jwt),
        }
    }

    /// New tokens for the holder of `claims` at time `now`: both given the
    /// claims of a refresh token, `InvalidToken` otherwise.
    pub fn refresh_with(&self, claims: Option<Claims>, now: i64) -> (r: Result<TokenResponse, AuthError>)
        ensures
            answers(r, refresh_outcome(self.secret_view(), claims_view(claims), now)),
    {
        let claims = match claims {
            None => return Err(AuthError::InvalidToken),
            Some(c) => c,
        };
        if claims.token_type != String::from_str("refresh") {
            return Err(AuthError::InvalidToken);
        }
        self.issue(&claims.sub, now)
    }

    /// Admits a request to `path` with the `Authorization` header `header`:
    /// `None` for a public route, the token's claims otherwise.
    pub fn authorize(&self, path: &str, header: Option<&str>) -> (r: Result<Option<Claims>, AuthError>)
        ensures
            public_route(path.spec_bytes()) ==> r matches Ok(None),
            !public_route(path.spec_bytes()) ==> match header {
                None => r == Err::<Option<Claims>, AuthError>(AuthError::MissingAuthHeader),
                Some(h) => !has_prefix(h.spec_bytes(), "Bearer ".spec_bytes()) ==> r == Err::<
                    Option<Claims>,
                    AuthError,
                >(AuthError::InvalidAuthHeaderFormat),
            },
            !public_route(path.spec_bytes()) ==> !(r matches Ok(None)),
    {
        if is_public_route(path) {
            return Ok(None);
        }
        let token = bearer_token(header)?;
        match decode_token(token.as_slice(), self.jwt_secret.as_slice()) {
            Some(c) => Ok(Some(c)),
            None => Err(AuthError::InvalidToken),
        }
    }

    /// The claims of `token` if it is valid and unexpired now.
    pub fn validate_token(&self, token: &str) -> (r: Result<Claims, AuthError>)
        ensures
            r is Err ==> r == Err::<Claims, AuthError>(AuthError::InvalidToken),
    {
        match decode_token(token.as_bytes(), self.jwt_secret.as_slice()) {
            Some(c) => Ok(c),
            None => Err(AuthError::InvalidToken),
        }
    }

    /// New tokens in exchange for a valid refresh token, issued now.
    pub fn refresh(&self, refresh_token: &str) -> (r: Result<TokenResponse, AuthError>)
        ensures
            r matches Ok(t) ==> t.token_type@ == "Bearer"@ && t.expires_in == ACCESS_TOKEN_SECONDS,
    {
        let claims = decode_token(refresh_token.as_bytes(), self.jwt_secret.as_slice());
        self.refresh_with(claims, now_seconds())
    }
}

/// Routes served without a token: the health check and the auth endpoints.
pub open spec fn public_route(path: Seq<u8>) -> bool {
    path == "/health".spec_bytes() || has_prefix(path, "/auth/login".spec_bytes()) || has_prefix(
        path,
        "/auth/register".spec_bytes(),
    ) || has_prefix(path, "/auth/status".spec_bytes())
}

/// Whether a request to `path` is served without a token.
pub fn is_public_route(path: &str) -> (r: bool)
    ensures
        r == public_route(path.spec_bytes()),
{
    let b = path.as_bytes();
    let health = "/health".as_bytes();
    let is_health = starts_with(b, health) && b.len() == health.len();
    proof {
        if is_health {
            assert(b@ =~= b@.subrange(0, health@.len() as int));
        }
        if b@ == health@ {
            assert(b@.subrange(0, health@.len() as int) =~= health@);
        }
    }
    is_health || starts_with(b, "/auth/login".as_bytes()) || starts_with(b, "/auth/register".as_bytes())
        || starts_with(b, "/auth/status".as_bytes())
}

/// The token of an `Authorization` header of the form `Bearer <token>`.
pub fn bearer_token(header: Option<&str>) -> (r: Result<Vec<u8>, AuthError>)
    ensures
        match header {
            None => r == Err::<Vec<u8>, AuthError>(AuthError::MissingAuthHeader),
            Some(h) => if has_prefix(h.spec_bytes(), "Bearer ".spec_bytes()) {
                (r matches Ok(t) && t@ == h.spec_bytes().subrange(
                    "Bearer ".spec_bytes().len() as int,
                    h.spec_bytes().len() as int,
                ))
            } else {
                r == Err::<Vec<u8>, AuthError>(AuthError::InvalidAuthHeaderFormat)
            },
        },
{
    match header {
        None => Err(AuthError::MissingAuthHeader),
        Some(h) => {
            let b = h.as_bytes();
            let prefix = "Bearer ".as_bytes();
            if starts_with(b, prefix) {
                Ok(copy_range(b, prefix.len(), b.len()))
            } else {
                Err(AuthError::InvalidAuthHeaderFormat)
            }
        },
    }
}

/// The length of the first `&`-separated segment of `q`.
pub open spec fn segment_len(q: Seq<u8>) -> nat
    decreases q.len(),
{
    if q.len() == 0 || q[0] == 38u8 {
        0
    } else {
        1 + segment_len(q.drop_first())
    }
}

/// The value of the first `token=` parameter of the query string `q`.
pub open spec fn query_token(q: Seq<u8>) -> Option<Seq<u8>>
    decreases q.len(),
{
    let end = segment_len(q);
    if end <= q.len() && has_prefix(q.subrange(0, end as int), "token=".spec_bytes()) {
        Some(q.subrange("token=".spec_bytes().len() as int, end as int))
    } else if end >= q.len() {
        None
    } else {
        query_token(q.subrange(end as int + 1, q.len() as int))
    }
}

proof fn lemma_segment_len(q: Seq<u8>, i: int)
    requires
        0 <= i <= q.len(),
        forall|j: int| 0 <= j < i ==> q[j] != 38u8,
        i == q.len() || q[i] == 38u8,
    ensures
        segment_len(q) == i,
    decreases i,
{
    if i > 0 {
        lemma_segment_len(q.drop_first(), i - 1);
    }
}

/// The value of the first `token=` parameter of `query`.
pub fn query_token_of(query: &str) -> (r: Option<Vec<u8>>)
    ensures
        r matches Some(t) ==> query_token(query.spec_bytes()) == Some(t@),
        r is None ==> query_token(query.spec_bytes()) is None,
{
    let q = query.as_bytes();
    let n = q.len();
    let prefix = "token=".as_bytes();
    let mut start: usize = 0;
    assert(q@.subrange(0, n as int) =~= q@);
    loop
        invariant
            q@ == query.spec_bytes(),
            n == q@.len(),
            prefix@ == "token=".spec_bytes(),
            start <= n,
            query_token(q@.subrange(start as int, n as int)) == query_token(q@),
        decreases n + 1 - start,
    {
        let ghost rest = q@.subrange(start as int, n as int);
        let mut end: usize = start;
        while end < n && q[end] != 38u8
            invariant
                n == q@.len(),
                start <= end <= n,
                forall|j: int| start <= j < end ==> q@[j] != 38u8,
            decreases n - end,
        {
            end = end + 1;
        }
        proof {
            lemma_segment_len(rest, end - start);
            assert(rest.subrange(0, (end - start) as int) =~= q@.subrange(start as int, end as int));
        }
        let mut is_token = end - start >= prefix.len();
        if is_token {
            let mut k: usize = 0;
            while k < prefix.len()
                invariant
                    n == q@.len(),
                    start + prefix@.len() <= end <= n,
                    k <= prefix@.len(),
                    is_token == forall|j: int| 0 <= j < k ==> q@[start + j] == prefix@[j],
                decreases prefix@.len() - k,
            {
                if q[start + k] != prefix[k] {
                    is_token = false;
                }
                k = k + 1;
            }
            proof {
                let seg = q@.subrange(start as int, end as int);
                if is_token {
                    assert(seg.subrange(0, prefix@.len() as int) =~= prefix@);
                } else {
                    let j = choose|j: int| 0 <= j < prefix@.len() && q@[start + j] != prefix@[j];
                    assert(seg.subrange(0, prefix@.len() as int)[j] != prefix@[j]);
                }
            }
        }
        if is_token {
            proof {
                assert(rest.subrange(prefix@.len() as int, (end - start) as int) =~= q@.subrange(
                    (start + prefix@.len()) as int,
                    end as int,
                ));
            }
            return Some(copy_range(q, start + prefix.len(), end));
        }
        if end >= n {
            return None;
        }
        proof {
            assert(rest.subrange((end - start) + 1, rest.len() as int) =~= q@.subrange(end + 1, n as int));
        }
        start = end + 1;
    }
}

/// The claims of the WebSocket token passed as `token=` in `query_params`,
/// if there is one and it is valid now.
pub fn validate_ws_token(auth: &AuthManager, query_params: &str) -> (r: Option<Claims>)
    ensures
        query_token(query_params.spec_bytes()) is None ==> r is None,
{
    match query_token_of(query_params) {
        None => None,
        Some(token) => decode_token(token.as_slice(), auth.jwt_secret.as_slice()),
    }
}

} // verus!
