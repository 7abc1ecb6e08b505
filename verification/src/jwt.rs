use vstd::prelude::*;

use crate::response::AuthResponse;
use crate::text::owned;

verus! {

/// The HMAC secret every token is signed and checked with.
pub const JWT_SECRET: &'static str = "SUPER_SECRET_KEY_CHANGE_ME";

/// Seconds an access token stays valid: five minutes.
pub const ACCESS_TOKEN_LIFETIME: i64 = 300;

/// Seconds a refresh token stays valid: seven days.
pub const REFRESH_TOKEN_LIFETIME: i64 = 604800;

/// The earliest Unix timestamp the clock can report (the start of year -9999).
pub const MIN_UNIX_TIMESTAMP: i64 = -377705116800;

/// The latest Unix timestamp the clock can report (the end of year 9999).
pub const MAX_UNIX_TIMESTAMP: i64 = 253402300799;

/// The claims carried by every token: the user it names, the user's role,
/// the expiry as a Unix timestamp, and the token's kind (`access` or `refresh`).
pub struct Claims {
    pub sub: String,
    pub role: String,
    pub exp: usize,
    pub typ: String,
}

/// Why a token was refused: it expired, or it is not a valid token of this service.
#[derive(Debug, PartialEq, Eq, Structural)]
pub enum TokenError {
    Expired,
    Invalid,
}

/// The compact JWT that jsonwebtoken's `encode` produces with the default
/// header (HS256) for the claims `{"sub", "role", "exp", "typ"}`, in that
/// field order, signed with `secret`.
pub uninterp spec fn hs256_jwt(
    sub: Seq<char>,
    role: Seq<char>,
    exp: usize,
    typ: Seq<char>,
    secret: Seq<char>,
) -> Seq<char>;

/// The verdict of the signature stage of jsonwebtoken's `decode` with the
/// default validation: the header names HS256 and the last segment of the
/// token is the base64url HMAC-SHA256 under `secret` of everything before
/// its last dot.
pub uninterp spec fn hs256_signature_valid(token: Seq<char>, secret: Seq<char>) -> bool;

/// How many dots a text holds.
pub open spec fn dot_count(s: Seq<char>) -> nat
    decreases s.len(),
{
    if s.len() == 0 {
        0
    } else {
        (if s[0] == '.' {
            1nat
        } else {
            0nat
        }) + dot_count(s.drop_first())
    }
}

/// A decimal digit.
pub open spec fn digit_char(d: nat) -> char {
    (48 + d) as char
}

/// A lower-case hexadecimal digit.
pub open spec fn hex_char(d: nat) -> char {
    if d < 10 {
        (48 + d) as char
    } else {
        (87 + d) as char
    }
}

/// The decimal notation of a natural number, without leading zeros.
pub open spec fn decimal(n: nat) -> Seq<char>
    decreases n,
{
    if n < 10 {
        seq![digit_char(n)]
    } else {
        decimal(n / 10) + seq![digit_char(n % 10)]
    }
}

/// How one character is written inside a JSON string: quote and backslash
/// are escaped, control characters get their short escape or `\u00xx`.
pub open spec fn json_escape_char(c: char) -> Seq<char> {
    if c == '"' {
        seq!['\\', '"']
    } else if c == '\\' {
        seq!['\\', '\\']
    } else if c == '\u{8}' {
        seq!['\\', 'b']
    } else if c == '\t' {
        seq!['\\', 't']
    } else if c == '\n' {
        seq!['\\', 'n']
    } else if c == '\u{c}' {
        seq!['\\', 'f']
    } else if c == '\r' {
        seq!['\\', 'r']
    } else if (c as nat) < 32 {
        seq!['\\', 'u', '0', '0', hex_char((c as nat) / 16), hex_char((c as nat) % 16)]
    } else {
        seq![c]
    }
}

/// The escaped body of a JSON string.
pub open spec fn json_escape(s: Seq<char>) -> Seq<char>
    decreases s.len(),
{
    if s.len() == 0 {
        Seq::empty()
    } else {
        json_escape_char(s[0]) + json_escape(s.drop_first())
    }
}

/// A JSON string literal.
pub open spec fn json_string(s: Seq<char>) -> Seq<char> {
    seq!['"'] + json_escape(s) + seq!['"']
}

/// The compact JSON text of a set of claims, fields in declaration order.
pub open spec fn claims_json(sub: Seq<char>, role: Seq<char>, exp: usize, typ: Seq<char>) -> Seq<
    char,
> {
    seq!['{', '"', 's', 'u', 'b', '"', ':'] + json_string(sub) + seq![
        ',',
        '"',
        'r',
        'o',
        'l',
        'e',
        '"',
        ':',
    ] + json_string(role) + seq![',', '"', 'e', 'x', 'p', '"', ':'] + decimal(exp as nat) + seq![
        ',',
        '"',
        't',
        'y',
        'p',
        '"',
        ':',
    ] + json_string(typ) + seq!['}']
}

/// Signs `claims` with `secret` through jsonwebtoken's `encode`, with the
/// default header. The claims are handed over as a JSON object holding the
/// four fields in declaration order (serde_json's map keeps insertion order
/// with its `preserve_order` feature, which this crate turns on).
/// Claimed: the token is `hs256_jwt` of the fields and the secret, and no
/// other fields give the same token under this secret (the middle segment
/// is the base64url of the claims' JSON, and both encodings are one-to-one).
/// `encode` cannot fail here: the key is an HMAC
/// key as the header's algorithm asks, the claims are strings and a number,
/// and HMAC signing has no error case.
#[verifier::external_body]
fn encode_claims(claims: &Claims, secret: &str) -> (token: String)
    ensures
        token@ == hs256_jwt(claims.sub@, claims.role@, claims.exp, claims.typ@, secret@),
        forall|sub: Seq<char>, role: Seq<char>, exp: usize, typ: Seq<char>|
            #[trigger] hs256_jwt(sub, role, exp, typ, secret@) == token@ ==> sub == claims.sub@
                && role == claims.role@ && exp == claims.exp && typ == claims.typ@,
{
    let mut map = serde_json::Map::new();
    map.insert("sub".to_string(), serde_json::Value::String(claims.sub.clone()));
    map.insert("role".to_string(), serde_json::Value::String(claims.role.clone()));
    map.insert("exp".to_string(), serde_json::Value::from(claims.exp));
    map.insert("typ".to_string(), serde_json::Value::String(claims.typ.clone()));
    let key = jsonwebtoken::EncodingKey::from_secret(secret.as_bytes());
    jsonwebtoken::encode(&jsonwebtoken::Header::default(), &map, &key).unwrap()
}

/// Checks `token` through jsonwebtoken's `decode` with the default
/// validation (HS256 only, `exp` required, expiry checked against the clock
/// with 60 seconds of leeway) and hands back the claims as raw JSON text.
/// An expired signature is told apart from every other refusal. Claimed:
/// a token that `encode_claims` made with this secret is either accepted,
/// giving back the JSON text of its claims, or refused as expired; a text
/// with fewer than two dots is refused as invalid (`decode` splits the token
/// at its last two dots before anything else); and a token is accepted only
/// when its signature check under `secret` passes. What is returned for any
/// other token, and when exactly a token counts as expired, depends on the
/// clock and is left unsaid.
#[verifier::external_body]
fn decode_claims(token: &str, secret: &str) -> (res: Result<String, TokenError>)
    ensures
        forall|sub: Seq<char>, role: Seq<char>, exp: usize, typ: Seq<char>|
            #![trigger hs256_jwt(sub, role, exp, typ, secret@)]
            token@ == hs256_jwt(sub, role, exp, typ, secret@) ==> match res {
                Ok(payload) => payload@ == claims_json(sub, role, exp, typ),
                Err(e) => e == TokenError::Expired,
            },
        dot_count(token@) >= 2 || (res is Err && res->Err_0 == TokenError::Invalid),
        res is Ok ==> hs256_signature_valid(token@, secret@),
{
    let key = jsonwebtoken::DecodingKey::from_secret(secret.as_bytes());
    let validation = jsonwebtoken::Validation::default();
    match jsonwebtoken::decode::<Box<serde_json::value::RawValue>>(token, &key, &validation) {
        Ok(data) => Ok(data.claims.get().to_string()),
        Err(e) => match e.kind() {
            jsonwebtoken::errors::ErrorKind::ExpiredSignature => Err(TokenError::Expired),
            _ => Err(TokenError::Invalid),
        },
    }
}

/// The current time as a Unix timestamp, from time's `OffsetDateTime::now_utc`.
/// Claimed: it lies in the range of dates that type can hold. Which instant it
/// is depends on the clock.
#[verifier::external_body]
fn now_unix_timestamp() -> (t: i64)
    ensures
        MIN_UNIX_TIMESTAMP <= t <= MAX_UNIX_TIMESTAMP,
{
    time::OffsetDateTime::now_utc().unix_timestamp()
}

/// The expiry of a token issued at `now` for `lifetime` seconds, as the
/// unsigned timestamp the claims carry.
pub open spec fn expiry(now: i64, lifetime: i64) -> usize {
    (now + lifetime) as usize
}

/// The claims of a token for `user_id` with `role`, of kind `typ`,
/// issued at `now` and valid for `lifetime` seconds.
pub fn claims_at(user_id: &str, role: &str, typ: &str, now: i64, lifetime: i64) -> (c: Claims)
    requires
        i64::MIN <= now + lifetime <= i64::MAX,
    ensures
        c.sub@ == user_id@,
        c.role@ == role@,
        c.typ@ == typ@,
        c.exp == expiry(now, lifetime),
{
    let exp_ts: i64 = now + lifetime;
    Claims { sub: owned(user_id), role: owned(role), exp: exp_ts as usize, typ: owned(typ) }
}

/// `token` is the token of these claims and of no others: any claims the
/// service's secret signs into `token` are these.
pub open spec fn names_only(
    token: Seq<char>,
    sub: Seq<char>,
    role: Seq<char>,
    exp: usize,
    typ: Seq<char>,
) -> bool {
    forall|s2: Seq<char>, r2: Seq<char>, e2: usize, t2: Seq<char>|
        #[trigger] hs256_jwt(s2, r2, e2, t2, JWT_SECRET@) == token ==> s2 == sub && r2 == role
            && e2 == exp && t2 == typ
}

/// The access token for `user_id` with `role`, issued at `now`.
pub fn access_token_at(user_id: &str, role: &str, now: i64) -> (token: String)
    requires
        now <= i64::MAX - ACCESS_TOKEN_LIFETIME,
    ensures
        token@ == hs256_jwt(
            user_id@,
            role@,
            expiry(now, ACCESS_TOKEN_LIFETIME),
            "access"@,
            JWT_SECRET@,
        ),
        names_only(token@, user_id@, role@, expiry(now, ACCESS_TOKEN_LIFETIME), "access"@),
{
    let claims = claims_at(user_id, role, "access", now, ACCESS_TOKEN_LIFETIME);
    encode_claims(&claims, JWT_SECRET)
}

/// The refresh token for `user_id` with `role`, issued at `now`.
pub fn refresh_token_at(user_id: &str, role: &str, now: i64) -> (token: String)
    requires
        now <= i64::MAX - REFRESH_TOKEN_LIFETIME,
    ensures
        token@ == hs256_jwt(
            user_id@,
            role@,
            expiry(now, REFRESH_TOKEN_LIFETIME),
            "refresh"@,
            JWT_SECRET@,
        ),
        names_only(token@, user_id@, role@, expiry(now, REFRESH_TOKEN_LIFETIME), "refresh"@),
{
    let claims = claims_at(user_id, role, "refresh", now, REFRESH_TOKEN_LIFETIME);
    encode_claims(&claims, JWT_SECRET)
}

/// A five-minute access token for `user_id` with `role`, issued now.
pub fn generate_access_token(user_id: &str, role: &str) -> (token: String)
    ensures
        issued_access(token@, user_id@, role@),
{
    let now = now_unix_timestamp();
    access_token_at(user_id, role, now)
}

/// A seven-day refresh token for `user_id` with `role`, issued now.
pub fn generate_refresh_token(user_id: &str, role: &str) -> (token: String)
    ensures
        issued_refresh(token@, user_id@, role@),
{
    let now = now_unix_timestamp();
    refresh_token_at(user_id, role, now)
}

/// `token` is an access token this service issued for `user_id` with `role`
/// at some moment the clock can report; no other claims give that token.
pub open spec fn issued_access(token: Seq<char>, user_id: Seq<char>, role: Seq<char>) -> bool {
    exists|now: i64|
        MIN_UNIX_TIMESTAMP <= now <= MAX_UNIX_TIMESTAMP && token == hs256_jwt(
            user_id,
            role,
            expiry(now, ACCESS_TOKEN_LIFETIME),
            "access"@,
            JWT_SECRET@,
        ) && names_only(token, user_id, role, expiry(now, ACCESS_TOKEN_LIFETIME), "access"@)
}

/// `token` is a refresh token this service issued for `user_id` with `role`
/// at some moment the clock can report; no other claims give that token.
pub open spec fn issued_refresh(token: Seq<char>, user_id: Seq<char>, role: Seq<char>) -> bool {
    exists|now: i64|
        MIN_UNIX_TIMESTAMP <= now <= MAX_UNIX_TIMESTAMP && token == hs256_jwt(
            user_id,
            role,
            expiry(now, REFRESH_TOKEN_LIFETIME),
            "refresh"@,
            JWT_SECRET@,
        ) && names_only(token, user_id, role, expiry(now, REFRESH_TOKEN_LIFETIME), "refresh"@)
}

/// An (access, refresh) pair this service issued for `user_id` with `role`.
pub open spec fn issued_pair(tokens: (Seq<char>, Seq<char>), user_id: Seq<char>, role: Seq<char>) -> bool {
    issued_access(tokens.0, user_id, role) && issued_refresh(tokens.1, user_id, role)
}

/// An access token and a refresh token for `user_id` with `role`, issued now.
pub fn issue_tokens(user_id: &str, role: &str) -> (tokens: AuthResponse)
    ensures
        issued_pair(tokens@, user_id@, role@),
{
    let access_token = generate_access_token(user_id, role);
    let refresh_token = generate_refresh_token(user_id, role);
    AuthResponse { access_token, refresh_token }
}

/// A pair of tokens together with the user and role they were issued for.
/// Only [`IssuedTokens::issue`] makes one, so every value holds a pair this
/// service issued for its user and role.
pub struct IssuedTokens {
    user_id: String,
    role: String,
    tokens: AuthResponse,
}

/// The mathematical content of an [`IssuedTokens`].
pub struct IssuedView {
    pub user_id: Seq<char>,
    pub role: Seq<char>,
    pub tokens: (Seq<char>, Seq<char>),
}

impl View for IssuedTokens {
    type V = IssuedView;

    closed spec fn view(&self) -> IssuedView {
        IssuedView { user_id: self.user_id@, role: self.role@, tokens: self.tokens@ }
    }
}

impl IssuedTokens {
    #[verifier::type_invariant]
    spec fn issued_for_its_user(self) -> bool {
        issued_pair(self.tokens@, self.user_id@, self.role@)
    }

    /// Issues an access and a refresh token for `user_id` with `role`, now.
    pub fn issue(user_id: &str, role: &str) -> (res: IssuedTokens)
        ensures
            res@.user_id == user_id@,
            res@.role == role@,
            issued_pair(res@.tokens, user_id@, role@),
    {
        let tokens = issue_tokens(user_id, role);
        IssuedTokens { user_id: owned(user_id), role: owned(role), tokens }
    }

    /// The user the tokens name.
    pub fn user_id(&self) -> (res: &str)
        ensures
            res@ == self@.user_id,
    {
        self.user_id.as_str()
    }

    /// The refresh token.
    pub fn refresh_token(&self) -> (res: &str)
        ensures
            res@ == self@.tokens.1,
    {
        self.tokens.refresh_token.as_str()
    }

    /// The pair, as handed to the client.
    pub fn into_tokens(self) -> (res: AuthResponse)
        ensures
            res@ == self@.tokens,
            issued_pair(res@, self@.user_id, self@.role),
    {
        proof {
            use_type_invariant(&self);
        }
        self.tokens
    }
}

/// What holds of every answer of [`verify_token`] for `token`, whatever the
/// clock says: an issued token comes back as the JSON of its claims or is
/// refused as expired; a text with fewer than two dots is refused as
/// invalid; nothing is accepted whose signature check under the service's
/// secret fails.
pub open spec fn verify_token_post(token: Seq<char>, res: Result<String, TokenError>) -> bool {
    &&& forall|sub: Seq<char>, role: Seq<char>, exp: usize, typ: Seq<char>|
        #![trigger hs256_jwt(sub, role, exp, typ, JWT_SECRET@)]
        token == hs256_jwt(sub, role, exp, typ, JWT_SECRET@) ==> match res {
            Ok(payload) => payload@ == claims_json(sub, role, exp, typ),
            Err(e) => e == TokenError::Expired,
        }
    &&& dot_count(token) >= 2 || (res is Err && res->Err_0 == TokenError::Invalid)
    &&& res is Ok ==> hs256_signature_valid(token, JWT_SECRET@)
}

/// Checks a token against the service's secret and the clock, and gives back
/// the JSON text of its claims. A token this service issued comes back as the
/// JSON of the claims it was issued with, unless it has expired.
pub fn verify_token(token: &str) -> (res: Result<String, TokenError>)
    ensures
        verify_token_post(token@, res),
{
    decode_claims(token, JWT_SECRET)
}

} // verus!
