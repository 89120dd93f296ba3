//! Token bookkeeping: what an issued token claims, when a presented token
//! is accepted, revocation on logout, and password checks.
//!
//! Encoding and decoding tokens (which serialise the claims) is done by the
//! caller; this module decides everything around it.

use vstd::prelude::*;
use crate::utils::table::{TextTable, entries_above};
use crate::utils::text::join2;

verus! {

/// Kind of a token.
#[derive(Debug, Clone, Copy, PartialEq, Eq, Structural)]
pub enum TokenType {
    Access,
    Refresh,
}

/// What a token asserts.
#[derive(Debug)]
pub struct Claims {
    /// User id.
    pub sub: String,
    /// Expiry, seconds since the epoch.
    pub exp: i64,
    /// Issue time, seconds since the epoch.
    pub iat: i64,
    pub token_type: TokenType,
    /// Session id: the access and refresh tokens of one login, and the
    /// access tokens refreshed from it, share it; revoking it on logout
    /// revokes them all.
    pub jti: Option<String>,
}

/// The authenticated caller of a protected route.
#[derive(Debug)]
pub struct AuthUser {
    pub user_id: String,
}

/// Refusal of an authentication step: an HTTP status and a message.
#[derive(Debug)]
pub struct Rejection {
    pub status: u16,
    pub message: String,
}

/// Whether a rejection carries the given status and message.
pub open spec fn rejects_with(r: Rejection, status: u16, message: Seq<char>) -> bool {
    r.status == status && r.message@ == message
}

/// Whether a claim check's result is the given outcome.
pub open spec fn claims_outcome(r: Result<Claims, Rejection>, s: Result<Claims, (u16, Seq<char>)>) -> bool {
    match s {
        Ok(c) => r matches Ok(x) && x == c,
        Err((status, message)) => r matches Err(e) && rejects_with(e, status, message),
    }
}

/// Whether a refresh's result is the given outcome (the new claims with
/// their expiry, or the refusal).
pub open spec fn refresh_outcome(r: Result<(Claims, i64), Rejection>, s: Result<Claims, (u16, Seq<char>)>) -> bool {
    match s {
        Ok(c) => r matches Ok((x, exp)) && x == c && exp == c.exp,
        Err((status, message)) => r matches Err(e) && rejects_with(e, status, message),
    }
}

/// The expiry of a token issued at `now` that lives `lifetime` seconds;
/// an expiry beyond the range of `i64` is the largest `i64`.
pub open spec fn expiry_after(now: i64, lifetime: i64) -> i64 {
    if now > i64::MAX - lifetime {
        i64::MAX
    } else {
        (now + lifetime) as i64
    }
}

fn expiry_after_exec(now: i64, lifetime: i64) -> (e: i64)
    requires
        lifetime >= 0,
    ensures
        e == expiry_after(now, lifetime),
{
    if now > i64::MAX - lifetime {
        i64::MAX
    } else {
        now + lifetime
    }
}

#[verifier::external_type_specification]
#[verifier::external_body]
pub struct ExEncodingKey(jsonwebtoken::EncodingKey);

#[verifier::external_type_specification]
#[verifier::external_body]
pub struct ExDecodingKey(jsonwebtoken::DecodingKey);

#[verifier::external_type_specification]
#[verifier::external_body]
pub struct ExSystemTime(std::time::SystemTime);

#[verifier::external_type_specification]
#[verifier::external_body]
pub struct ExSystemTimeError(std::time::SystemTimeError);

/// The HMAC signing key `jsonwebtoken::EncodingKey::from_secret` builds
/// from a secret (it holds a copy of the secret's bytes).
pub uninterp spec fn hmac_encoding_key(secret: Seq<u8>) -> jsonwebtoken::EncodingKey;

/// The HMAC verification key `jsonwebtoken::DecodingKey::from_secret`
/// builds from a secret (it holds a copy of the secret's bytes).
pub uninterp spec fn hmac_decoding_key(secret: Seq<u8>) -> jsonwebtoken::DecodingKey;

/// Calls `jsonwebtoken::EncodingKey::from_secret`, which builds the key from
/// the secret's bytes alone; its result is named by `hmac_encoding_key`.
#[verifier::external_body]
fn encoding_key_from_secret(secret: &[u8]) -> (k: jsonwebtoken::EncodingKey)
    ensures
        k == hmac_encoding_key(secret@),
{
    jsonwebtoken::EncodingKey::from_secret(secret)
}

/// Calls `jsonwebtoken::DecodingKey::from_secret`, which builds the key from
/// the secret's bytes alone; its result is named by `hmac_decoding_key`.
#[verifier::external_body]
fn decoding_key_from_secret(secret: &[u8]) -> (k: jsonwebtoken::DecodingKey)
    ensures
        k == hmac_decoding_key(secret@),
{
    jsonwebtoken::DecodingKey::from_secret(secret)
}

/// Calls `std::time::SystemTime::now`: the system clock's reading. It
/// depends on the clock, so nothing is claimed of it.
#[verifier::external_body]
fn system_time_now() -> std::time::SystemTime {
    std::time::SystemTime::now()
}

/// Calls `std::time::SystemTime::duration_since` with `UNIX_EPOCH`: the
/// time elapsed since the epoch, or an error when the reading is earlier.
/// The reading is opaque here, so nothing is claimed of either.
#[verifier::external_body]
fn elapsed_since_epoch(reading: &std::time::SystemTime) -> Result<std::time::Duration, std::time::SystemTimeError> {
    reading.duration_since(std::time::UNIX_EPOCH)
}

/// Calls `std::time::Duration::as_secs`: the whole seconds of a duration
/// (opaque here, so nothing is claimed of the number).
#[verifier::external_body]
fn whole_seconds(d: &std::time::Duration) -> u64 {
    d.as_secs()
}

/// The latest time, in seconds since the epoch, that a
/// `chrono::DateTime<Utc>` can hold (the end of the year 262142).
pub open spec fn max_timestamp() -> int {
    8_210_266_876_799
}

/// The refusal when the system clock reads before the epoch or beyond
/// `max_timestamp` (where reading the current time as a date fails).
pub open spec fn clock_refused(e: Rejection) -> bool {
    rejects_with(e, 500, "System clock is outside the supported range"@)
}

fn clock_rejection() -> (e: Rejection)
    ensures
        clock_refused(e),
{
    Rejection { status: 500, message: "System clock is outside the supported range".to_owned() }
}

/// The timestamp of a clock reading `secs` whole seconds after the epoch;
/// `None` beyond `max_timestamp`.
pub open spec fn spec_timestamp_from_secs(secs: u64) -> Option<i64> {
    if secs <= max_timestamp() {
        Some(secs as i64)
    } else {
        None
    }
}

/// The timestamp of a clock reading `secs` whole seconds after the epoch;
/// `None` beyond `max_timestamp`.
pub fn timestamp_from_secs(secs: u64) -> (t: Option<i64>)
    ensures
        t == spec_timestamp_from_secs(secs),
{
    if secs > 8_210_266_876_799u64 {
        None
    } else {
        Some(secs as i64)
    }
}

/// The current time in whole seconds since the epoch, read from the
/// system clock: the seconds elapsed since the epoch taken by
/// `timestamp_from_secs`; `None` when the reading is before the epoch.
fn unix_now() -> (t: Option<i64>)
    ensures
        t is None || exists|secs: u64| t == spec_timestamp_from_secs(secs),
        t matches Some(now) ==> 0 <= now <= max_timestamp(),
{
    let reading = system_time_now();
    match elapsed_since_epoch(&reading) {
        Ok(d) => timestamp_from_secs(whole_seconds(&d)),
        Err(_) => None,
    }
}

/// A lowercase hexadecimal digit.
pub open spec fn hex_digit(n: int) -> char {
    seq!['0', '1', '2', '3', '4', '5', '6', '7', '8', '9', 'a', 'b', 'c', 'd', 'e', 'f'][n]
}

/// Bytes in lowercase hexadecimal, two digits per byte.
pub open spec fn hex_text(b: Seq<u8>) -> Seq<char> {
    Seq::new(2 * b.len(), |i: int| if i % 2 == 0 { hex_digit(b[i / 2] as int / 16) } else { hex_digit(b[i / 2] as int % 16) })
}

/// Sixteen random bytes marked as a version-4 uuid of the RFC 4122
/// variant: the high nibble of byte 6 becomes 4, the two high bits of
/// byte 8 become `10`.
pub open spec fn v4_bytes(b: Seq<u8>) -> Seq<u8> {
    b.update(6, (b[6] & 0x0f) | 0x40).update(8, (b[8] & 0x3f) | 0x80)
}

/// The hyphenated text of the version-4 uuid made from sixteen random
/// bytes: 32 lowercase hex digits in groups of 8, 4, 4, 4 and 12.
pub open spec fn v4_uuid_text(bytes: Seq<u8>) -> Seq<char> {
    let h = hex_text(v4_bytes(bytes));
    h.subrange(0, 8) + seq!['-'] + h.subrange(8, 12) + seq!['-'] + h.subrange(12, 16) + seq!['-']
        + h.subrange(16, 20) + seq!['-'] + h.subrange(20, 32)
}

/// Calls `rand::RngCore::try_fill_bytes` on `rand::rngs::OsRng` for sixteen
/// bytes: random bytes from the operating system, or the error's text when
/// that source fails. Which bytes, and when it fails, is left unsaid.
#[verifier::external_body]
fn random_id_bytes() -> Result<[u8; 16], String> {
    let mut bytes: [u8; 16] = [0u8; 16];
    match rand::RngCore::try_fill_bytes(&mut rand::rngs::OsRng, &mut bytes) {
        Ok(()) => Ok(bytes),
        Err(e) => Err(e.to_string()),
    }
}

/// Calls `uuid::Builder::from_random_bytes(bytes).into_uuid()` and formats
/// the id with `Display`: the version and variant bits are set and the
/// bytes written as hyphenated lowercase hex, as `v4_uuid_text` states.
#[verifier::external_body]
fn uuid_v4_text(bytes: [u8; 16]) -> (s: String)
    ensures
        s@ == v4_uuid_text(bytes@),
{
    uuid::Builder::from_random_bytes(bytes).into_uuid().to_string()
}

/// A new random session id (a version-4 uuid in hyphenated form); a failing
/// random source is answered with status 500.
fn new_token_id() -> (r: Result<String, Rejection>)
    ensures
        match r {
            Ok(s) => s@.len() == 36 && exists|b: Seq<u8>| b.len() == 16 && s@ == v4_uuid_text(b),
            Err(e) => e.status == 500 && exists|m: Seq<char>| e.message@ == "Failed to generate token id: "@ + m,
        },
{
    match random_id_bytes() {
        Ok(bytes) => {
            let s = uuid_v4_text(bytes);
            proof {
                assert(bytes@.len() == 16);
                assert(hex_text(v4_bytes(bytes@)).len() == 32);
            }
            Ok(s)
        },
        Err(m) => Err(Rejection { status: 500, message: join2("Failed to generate token id: ", m.as_str()) }),
    }
}

/// The check applied to the claims of a decoded token: a revoked session
/// or an expiry before `now` refuses it, with status 401.
pub open spec fn spec_check_claims(revoked: Map<Seq<char>, i64>, claims: Claims, now: i64) -> Result<Claims, (u16, Seq<char>)> {
    if claims.jti matches Some(j) && revoked.contains_key(j@) {
        Err((401, "Token has been revoked"@))
    } else if claims.exp < now {
        Err((401, "Token has expired"@))
    } else {
        Ok(claims)
    }
}

/// The access and refresh claims of one login of `user` at `now`, in
/// session `session`.
pub open spec fn issued_pair(
    access_lifetime: i64,
    refresh_lifetime: i64,
    user: Seq<char>,
    now: i64,
    session: Seq<char>,
    access: Claims,
    refresh: Claims,
) -> bool {
    &&& access.sub@ == user && refresh.sub@ == user
    &&& access.iat == now && refresh.iat == now
    &&& access.exp == expiry_after(now, access_lifetime)
    &&& refresh.exp == expiry_after(now, refresh_lifetime)
    &&& access.token_type == TokenType::Access && refresh.token_type == TokenType::Refresh
    &&& access.jti matches Some(j) && j@ == session
    &&& refresh.jti matches Some(j) && j@ == session
}

/// Refreshing at `now`: the claims of a refresh token give the claims of a
/// new access token in the same session; an access token is refused with
/// status 400.
pub open spec fn spec_refresh(verified: Claims, now: i64, lifetime: i64) -> Result<Claims, (u16, Seq<char>)> {
    match verified.token_type {
        TokenType::Refresh => Ok(
            Claims {
                sub: verified.sub,
                exp: expiry_after(now, lifetime),
                iat: now,
                token_type: TokenType::Access,
                jti: verified.jti,
            },
        ),
        TokenType::Access => Err((400, "Invalid token type"@)),
    }
}

/// Until when a revoked session must stay revoked: the presented token's
/// expiry, or the latest expiry a refresh token of its session can have.
pub open spec fn session_end(claims: Claims, refresh_lifetime: i64) -> i64 {
    let r = expiry_after(claims.iat, refresh_lifetime);
    if claims.exp >= r {
        claims.exp
    } else {
        r
    }
}

/// Signing keys, token lifetimes and revoked sessions.
pub struct JwtAuth {
    encoding_key: jsonwebtoken::EncodingKey,
    decoding_key: jsonwebtoken::DecodingKey,
    blacklist: TextTable<i64>,
    access_token_duration: i64,
    refresh_token_duration: i64,
}

impl JwtAuth {
    /// Revoked session ids, each with the time until which it must stay
    /// revoked.
    pub closed spec fn revoked(&self) -> Map<Seq<char>, i64> {
        self.blacklist@
    }

    /// The key tokens are signed with.
    pub closed spec fn signing_key(&self) -> jsonwebtoken::EncodingKey {
        self.encoding_key
    }

    /// The key token signatures are checked with.
    pub closed spec fn verifying_key(&self) -> jsonwebtoken::DecodingKey {
        self.decoding_key
    }

    /// Lifetime of access tokens, in seconds.
    pub closed spec fn access_lifetime(&self) -> i64 {
        self.access_token_duration
    }

    /// Lifetime of refresh tokens, in seconds.
    pub closed spec fn refresh_lifetime(&self) -> i64 {
        self.refresh_token_duration
    }

    /// Well-formedness of the revocation list, and the lifetimes in use.
    pub closed spec fn wf(&self) -> bool {
        &&& self.blacklist.wf()
        &&& self.access_token_duration == 3600
        &&& self.refresh_token_duration == 604800
    }

    /// The same keys and lifetimes as `other`.
    pub open spec fn same_settings(&self, other: &JwtAuth) -> bool {
        &&& self.signing_key() == other.signing_key()
        &&& self.verifying_key() == other.verifying_key()
        &&& self.access_lifetime() == other.access_lifetime()
        &&& self.refresh_lifetime() == other.refresh_lifetime()
    }

    /// Keys derived from `secret`; access tokens live an hour, refresh
    /// tokens a week; nothing is revoked.
    pub fn new(secret: &[u8]) -> (a: JwtAuth)
        ensures
            a.wf(),
            a.revoked() == Map::<Seq<char>, i64>::empty(),
            a.signing_key() == hmac_encoding_key(secret@),
            a.verifying_key() == hmac_decoding_key(secret@),
            a.access_lifetime() == 3600,
            a.refresh_lifetime() == 604800,
    {
        JwtAuth {
            encoding_key: encoding_key_from_secret(secret),
            decoding_key: decoding_key_from_secret(secret),
            blacklist: TextTable::new(),
            access_token_duration: 3600,
            refresh_token_duration: 604800,
        }
    }

    /// The key tokens are signed with.
    pub fn encoding_key(&self) -> (k: &jsonwebtoken::EncodingKey)
        ensures
            *k == self.signing_key(),
    {
        &self.encoding_key
    }

    /// The key token signatures are checked with.
    pub fn decoding_key(&self) -> (k: &jsonwebtoken::DecodingKey)
        ensures
            *k == self.verifying_key(),
    {
        &self.decoding_key
    }

    /// Whether a session has been revoked.
    pub fn is_revoked(&self, jti: &str) -> (r: bool)
        requires
            self.wf(),
        ensures
            r == self.revoked().contains_key(jti@),
    {
        self.blacklist.contains_key(jti)
    }

    /// The claims of a fresh access/refresh pair for `user_id` issued at
    /// `now` in session `session`, and the access token's expiry.
    pub fn token_pair(&self, user_id: &str, now: i64, session: String) -> (r: (Claims, Claims, i64))
        requires
            self.wf(),
        ensures
            issued_pair(self.access_lifetime(), self.refresh_lifetime(), user_id@, now, session@, r.0, r.1),
            r.0.jti == Some(session),
            r.2 == r.0.exp,
    {
        let access_exp = expiry_after_exec(now, self.access_token_duration);
        let refresh_exp = expiry_after_exec(now, self.refresh_token_duration);
        let refresh_session = session.clone();
        let access = Claims {
            sub: user_id.to_owned(),
            exp: access_exp,
            iat: now,
            token_type: TokenType::Access,
            jti: Some(session),
        };
        let refresh = Claims {
            sub: user_id.to_owned(),
            exp: refresh_exp,
            iat: now,
            token_type: TokenType::Refresh,
            jti: Some(refresh_session),
        };
        (access, refresh, access_exp)
    }

    /// Accepts the claims of a token whose signature checked out, unless
    /// its session was revoked or it expired before `now`.
    pub fn check_claims(&self, claims: Claims, now: i64) -> (r: Result<Claims, Rejection>)
        requires
            self.wf(),
        ensures
            claims_outcome(r, spec_check_claims(self.revoked(), claims, now)),
    {
        let revoked = match &claims.jti {
            Some(j) => self.blacklist.contains_key(j.as_str()),
            None => false,
        };
        if revoked {
            return Err(Rejection { status: 401, message: "Token has been revoked".to_owned() });
        }
        if claims.exp < now {
            return Err(Rejection { status: 401, message: "Token has expired".to_owned() });
        }
        Ok(claims)
    }

    /// From the verified claims of a refresh token, the claims of a new
    /// access token issued at `now` in the same session, and its expiry; an
    /// access token is refused with status 400.
    pub fn refresh_claims(&self, verified: Claims, now: i64) -> (r: Result<(Claims, i64), Rejection>)
        requires
            self.wf(),
        ensures
            refresh_outcome(r, spec_refresh(verified, now, self.access_lifetime())),
    {
        match verified.token_type {
            TokenType::Refresh => {
                let exp = expiry_after_exec(now, self.access_token_duration);
                let claims = Claims {
                    sub: verified.sub,
                    exp,
                    iat: now,
                    token_type: TokenType::Access,
                    jti: verified.jti,
                };
                Ok((claims, exp))
            },
            TokenType::Access => Err(Rejection { status: 400, message: "Invalid token type".to_owned() }),
        }
    }

    /// Revokes the session of the token with the given verified claims
    /// (logout), so that every token of that session is refused, until the
    /// latest expiry any of them can have; a token without a session id
    /// cannot be revoked and is refused with status 400.
    pub fn blacklist_token(&mut self, verified: &Claims) -> (r: Result<(), Rejection>)
        requires
            old(self).wf(),
        ensures
            final(self).wf(),
            final(self).same_settings(old(self)),
            match verified.jti {
                Some(j) => r is Ok && final(self).revoked() == old(self).revoked().insert(
                    j@,
                    session_end(*verified, old(self).refresh_lifetime()),
                ),
                None => r matches Err(e) && rejects_with(e, 400, "Token does not support blacklisting"@)
                    && final(self).revoked() == old(self).revoked(),
            },
    {
        match &verified.jti {
            Some(j) => {
                let latest_refresh = expiry_after_exec(verified.iat, self.refresh_token_duration);
                let until = if verified.exp >= latest_refresh {
                    verified.exp
                } else {
                    latest_refresh
                };
                self.blacklist.insert(j.as_str(), until);
                Ok(())
            },
            None => Err(Rejection { status: 400, message: "Token does not support blacklisting".to_owned() }),
        }
    }

    /// The claims of a fresh token pair for `user_id`, issued now in a new
    /// random session, and the access token's expiry; a clock outside the
    /// supported range, or a failing random source, is answered with status
    /// 500.
    pub fn issue_tokens(&self, user_id: &str) -> (r: Result<(Claims, Claims, i64), Rejection>)
        requires
            self.wf(),
        ensures
            match r {
                Ok((access, refresh, exp)) => 0 <= access.iat <= max_timestamp() && exp == access.exp
                    && (access.jti matches Some(j) && j@.len() == 36
                    && issued_pair(self.access_lifetime(), self.refresh_lifetime(), user_id@, access.iat, j@, access, refresh)),
                Err(e) => clock_refused(e) || (e.status == 500
                    && exists|m: Seq<char>| e.message@ == "Failed to generate token id: "@ + m),
            },
    {
        let now = match unix_now() {
            Some(t) => t,
            None => {
                return Err(clock_rejection());
            },
        };
        match new_token_id() {
            Ok(session) => Ok(self.token_pair(user_id, now, session)),
            Err(e) => Err(e),
        }
    }

    /// Checks the claims of a token whose signature checked out against the
    /// current time: a token of a revoked session, or one already expired,
    /// is refused; a clock outside the supported range is answered with
    /// status 500.
    pub fn verify_claims(&self, claims: Claims) -> (r: Result<Claims, Rejection>)
        requires
            self.wf(),
        ensures
            (r matches Err(e) && clock_refused(e)) || exists|now: i64| 0 <= now <= max_timestamp()
                && claims_outcome(r, #[trigger] spec_check_claims(self.revoked(), claims, now)),
    {
        let ghost presented = claims;
        let now = match unix_now() {
            Some(t) => t,
            None => {
                return Err(clock_rejection());
            },
        };
        let r = self.check_claims(claims, now);
        assert(claims_outcome(r, spec_check_claims(self.revoked(), presented, now)));
        r
    }

    /// From the verified claims of a refresh token, the claims of a new
    /// access token issued now in the same session, and its expiry; an
    /// access token is refused with status 400, and for a refresh token a
    /// clock outside the supported range with status 500.
    pub fn refresh_access_claims(&self, verified: Claims) -> (r: Result<(Claims, i64), Rejection>)
        requires
            self.wf(),
        ensures
            match verified.token_type {
                TokenType::Refresh => (r matches Err(e) && clock_refused(e)) || exists|now: i64| 0 <= now <= max_timestamp()
                    && refresh_outcome(r, #[trigger] spec_refresh(verified, now, self.access_lifetime())),
                TokenType::Access => r matches Err(e) && rejects_with(e, 400, "Invalid token type"@),
            },
    {
        let ghost presented = verified;
        match verified.token_type {
            TokenType::Access => Err(Rejection { status: 400, message: "Invalid token type".to_owned() }),
            TokenType::Refresh => {
                let now = match unix_now() {
                    Some(t) => t,
                    None => {
                        return Err(clock_rejection());
                    },
                };
                let r = self.refresh_claims(verified, now);
                assert(spec_refresh(presented, now, self.access_lifetime()) is Ok);
                r
            },
        }
    }

    /// Forgets revoked sessions whose tokens have all expired by the
    /// current time; with a clock outside the supported range nothing is
    /// forgotten and the failure is answered with status 500.
    pub fn purge_expired_now(&mut self) -> (r: Result<(), Rejection>)
        requires
            old(self).wf(),
        ensures
            final(self).wf(),
            final(self).same_settings(old(self)),
            match r {
                Ok(()) => exists|now: i64| 0 <= now <= max_timestamp()
                    && final(self).revoked() == #[trigger] entries_above(old(self).revoked(), now),
                Err(e) => clock_refused(e) && final(self).revoked() == old(self).revoked(),
            },
    {
        match unix_now() {
            Some(now) => {
                self.purge_expired(now);
                Ok(())
            },
            None => Err(clock_rejection()),
        }
    }

    /// Forgets revoked sessions whose tokens have all expired by `now`.
    pub fn purge_expired(&mut self, now: i64)
        requires
            old(self).wf(),
        ensures
            final(self).wf(),
            final(self).same_settings(old(self)),
            final(self).revoked() == entries_above(old(self).revoked(), now),
    {
        self.blacklist.retain_above(now);
    }
}

/// The caller named by the verified claims of an access token; a refresh
/// token cannot authenticate a request (status 401).
pub fn authenticate(verified: Claims) -> (r: Result<AuthUser, Rejection>)
    ensures
        match verified.token_type {
            TokenType::Access => r matches Ok(u) && u.user_id == verified.sub,
            TokenType::Refresh => r matches Err(e)
                && rejects_with(e, 401, "Cannot use refresh token for authentication"@),
        },
{
    match verified.token_type {
        TokenType::Access => Ok(AuthUser { user_id: verified.sub }),
        TokenType::Refresh => Err(
            Rejection { status: 401, message: "Cannot use refresh token for authentication".to_owned() },
        ),
    }
}

/// After a session is revoked, the claims of any of its tokens are refused
/// at every later check.
pub proof fn revoked_token_is_refused(revoked: Map<Seq<char>, i64>, jti: Seq<char>, claims: Claims, now: i64)
    requires
        revoked.contains_key(jti),
        claims.jti matches Some(j) && j@ == jti,
    ensures
        spec_check_claims(revoked, claims, now) == Err::<Claims, (u16, Seq<char>)>((401u16, "Token has been revoked"@)),
{
}

/// Purging expired revocations never lets a revoked token back in: a token
/// whose session was revoked until at least its expiry, before a purge at
/// `purged_at`, is refused at any later time.
pub proof fn purge_keeps_revoked_tokens_out(
    revoked: Map<Seq<char>, i64>,
    claims: Claims,
    purged_at: i64,
    now: i64,
)
    requires
        claims.jti matches Some(j) && revoked.contains_key(j@) && revoked[j@] >= claims.exp,
        purged_at < now,
    ensures
        spec_check_claims(entries_above(revoked, purged_at), claims, now) is Err,
{
}

/// Logging out with either token of a login revokes both: after the
/// revocation `blacklist_token` records, the access and the refresh token of
/// the pair are refused at any time, and purges at earlier times never let
/// either back in.
pub proof fn logout_revokes_the_pair(
    auth: &JwtAuth,
    revoked: Map<Seq<char>, i64>,
    user: Seq<char>,
    issued_at: i64,
    session: Seq<char>,
    access: Claims,
    refresh: Claims,
    presented: Claims,
    purged_at: i64,
    now: i64,
)
    requires
        auth.wf(),
        issued_pair(auth.access_lifetime(), auth.refresh_lifetime(), user, issued_at, session, access, refresh),
        presented == access || presented == refresh,
        revoked == auth.revoked().insert(session, session_end(presented, auth.refresh_lifetime())),
        purged_at < now,
    ensures
        spec_check_claims(revoked, access, now) is Err,
        spec_check_claims(revoked, refresh, now) is Err,
        spec_check_claims(entries_above(revoked, purged_at), access, now) is Err,
        spec_check_claims(entries_above(revoked, purged_at), refresh, now) is Err,
{
    assert(revoked[session] >= refresh.exp);
    assert(refresh.exp >= access.exp);
}

/// A login's tokens work until they expire: while its session is not
/// revoked, the access token is accepted up to its expiry and the refresh
/// token up to its own; refreshing with the refresh token at such a time
/// gives an access token of the same user and session, accepted up to its
/// expiry; the access token cannot be used to refresh.
pub proof fn issued_tokens_work_until_expiry(
    auth: &JwtAuth,
    user: Seq<char>,
    issued_at: i64,
    session: Seq<char>,
    access: Claims,
    refresh: Claims,
    t: i64,
    later: i64,
)
    requires
        auth.wf(),
        issued_pair(auth.access_lifetime(), auth.refresh_lifetime(), user, issued_at, session, access, refresh),
        !auth.revoked().contains_key(session),
        t <= refresh.exp,
    ensures
        t <= access.exp ==> spec_check_claims(auth.revoked(), access, t) == Ok::<Claims, (u16, Seq<char>)>(access),
        spec_check_claims(auth.revoked(), refresh, t) == Ok::<Claims, (u16, Seq<char>)>(refresh),
        spec_refresh(access, t, auth.access_lifetime()) == Err::<Claims, (u16, Seq<char>)>((400u16, "Invalid token type"@)),
        spec_refresh(refresh, t, auth.access_lifetime()) matches Ok(c) && {
            &&& c.sub@ == user && c.token_type == TokenType::Access && c.iat == t
            &&& c.jti matches Some(j) && j@ == session
            &&& (later <= c.exp ==> spec_check_claims(auth.revoked(), c, later) == Ok::<Claims, (u16, Seq<char>)>(c))
        },
{
}

/// The textual result of `bcrypt::verify` on a password and a stored hash:
/// whether they match, or the error's text.
pub uninterp spec fn bcrypt_verdict(password: Seq<char>, hash: Seq<char>) -> Result<bool, Seq<char>>;

/// Calls `bcrypt::verify` on the password's bytes and the stored hash; its
/// result (the error taken by its text) is named by `bcrypt_verdict`.
#[verifier::external_body]
fn bcrypt_verify(password: &str, hash: &str) -> (r: Result<bool, String>)
    ensures
        match r {
            Ok(b) => bcrypt_verdict(password@, hash@) == Ok::<bool, Seq<char>>(b),
            Err(e) => bcrypt_verdict(password@, hash@) == Err::<bool, Seq<char>>(e@),
        },
{
    bcrypt::verify(password.as_bytes(), hash).map_err(|e| e.to_string())
}

/// Whether a text has the form of a bcrypt hash of version `2b` and cost
/// 12: 60 characters beginning with `$2b$12$` (22 characters of salt and 31
/// of hash follow).
pub open spec fn is_bcrypt_2b_12(h: Seq<char>) -> bool {
    h.len() == 60 && h.subrange(0, 7) == "$2b$12$"@
}

/// Calls `bcrypt::hash` with `bcrypt::DEFAULT_COST` (12) and a random
/// salt. Any hash it returns has the `$2b$12$` form and verifies against the
/// same password; which hash (the salt) is left unsaid, and so is when the
/// random source fails (the only error at this cost).
#[verifier::external_body]
fn bcrypt_hash(password: &str) -> (r: Result<String, String>)
    ensures
        match r {
            Ok(h) => is_bcrypt_2b_12(h@) && bcrypt_verdict(password@, h@) == Ok::<bool, Seq<char>>(true),
            Err(_) => true,
        },
{
    bcrypt::hash(password.as_bytes(), bcrypt::DEFAULT_COST).map_err(|e| e.to_string())
}

/// Hashes a password for storage; a failure is answered with status 500.
pub fn hash_password(password: &str) -> (r: Result<String, Rejection>)
    ensures
        match r {
            Ok(h) => is_bcrypt_2b_12(h@) && bcrypt_verdict(password@, h@) == Ok::<bool, Seq<char>>(true),
            Err(e) => e.status == 500 && exists|m: Seq<char>| e.message@ == "Failed to hash password: "@ + m,
        },
{
    match bcrypt_hash(password) {
        Ok(h) => Ok(h),
        Err(e) => Err(Rejection { status: 500, message: join2("Failed to hash password: ", e.as_str()) }),
    }
}

/// The outcome of checking a password against a stored hash.
pub open spec fn spec_check_password(password: Seq<char>, hash: Seq<char>) -> Result<(), (u16, Seq<char>)> {
    match bcrypt_verdict(password, hash) {
        Ok(true) => Ok(()),
        Ok(false) => Err((401, "Invalid password"@)),
        Err(m) => Err((500, "Failed to verify password: "@ + m)),
    }
}

/// Checks a login password against the user's stored hash: a mismatch is
/// refused with status 401, a malformed hash with status 500.
pub fn check_password(password: &str, stored_hash: &str) -> (r: Result<(), Rejection>)
    ensures
        match spec_check_password(password@, stored_hash@) {
            Ok(()) => r is Ok,
            Err((status, message)) => r matches Err(e) && rejects_with(e, status, message),
        },
{
    match bcrypt_verify(password, stored_hash) {
        Ok(true) => Ok(()),
        Ok(false) => Err(Rejection { status: 401, message: "Invalid password".to_owned() }),
        Err(e) => Err(Rejection { status: 500, message: join2("Failed to verify password: ", e.as_str()) }),
    }
}

/// The login check: an unknown user is refused with status 404, otherwise
/// the password is checked against the user's stored hash.
pub fn check_login(stored_hash: Option<&str>, password: &str) -> (r: Result<(), Rejection>)
    ensures
        match stored_hash {
            None => r matches Err(e) && rejects_with(e, 404, "User not found"@),
            Some(h) => match spec_check_password(password@, h@) {
                Ok(()) => r is Ok,
                Err((status, message)) => r matches Err(e) && rejects_with(e, status, message),
            },
        },
{
    match stored_hash {
        None => Err(Rejection { status: 404, message: "User not found".to_owned() }),
        Some(h) => check_password(password, h),
    }
}

/// The registration check: a taken username is refused with status 409,
/// otherwise the password is hashed for storage.
pub fn check_registration(username_taken: bool, password: &str) -> (r: Result<String, Rejection>)
    ensures
        username_taken ==> (r matches Err(e) && rejects_with(e, 409, "Username already exists"@)),
        !username_taken ==> match r {
            Ok(h) => is_bcrypt_2b_12(h@) && bcrypt_verdict(password@, h@) == Ok::<bool, Seq<char>>(true),
            Err(e) => e.status == 500,
        },
{
    if username_taken {
        return Err(Rejection { status: 409, message: "Username already exists".to_owned() });
    }
    hash_password(password)
}

/// A password checks out against the hash stored for it at registration.
pub proof fn registered_password_checks_out(password: Seq<char>, hash: Seq<char>)
    requires
        bcrypt_verdict(password, hash) == Ok::<bool, Seq<char>>(true),
    ensures
        spec_check_password(password, hash) == Ok::<(), (u16, Seq<char>)>(()),
{
}

} // verus!
