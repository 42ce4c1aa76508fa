use crate::error::AppError;
use vstd::prelude::*;

verus! {

/// For how many seconds a token is valid after it was issued: thirty days.
pub const TOKEN_VALIDITY_SECONDS: i64 = 2_592_000;

#[verifier::external_type_specification]
#[verifier::external_body]
pub struct ExJwtError(jsonwebtoken::errors::Error);

/// The character of one hexadecimal digit, in lower case.
pub open spec fn hex_char(d: int) -> char {
    if d == 0 {
        '0'
    } else if d == 1 {
        '1'
    } else if d == 2 {
        '2'
    } else if d == 3 {
        '3'
    } else if d == 4 {
        '4'
    } else if d == 5 {
        '5'
    } else if d == 6 {
        '6'
    } else if d == 7 {
        '7'
    } else if d == 8 {
        '8'
    } else if d == 9 {
        '9'
    } else if d == 10 {
        'a'
    } else if d == 11 {
        'b'
    } else if d == 12 {
        'c'
    } else if d == 13 {
        'd'
    } else if d == 14 {
        'e'
    } else {
        'f'
    }
}

/// The hexadecimal digit of `id` at place `d`, counted from the most
/// significant of its thirty-two.
pub open spec fn hex_digit(id: u128, d: int) -> int {
    (id as int / vstd::arithmetic::power::pow(16, (31 - d) as nat)) % 16
}

/// The canonical text of the UUID whose 128-bit value is `id`: thirty-two
/// hexadecimal digits in lower case, most significant first, in groups of
/// eight, four, four, four and twelve with a hyphen between them.
pub open spec fn uuid_hyphenated(id: u128) -> Seq<char> {
    Seq::new(
        36,
        |p: int|
            if p == 8 || p == 13 || p == 18 || p == 23 {
                '-'
            } else if p < 8 {
                hex_char(hex_digit(id, p))
            } else if p < 13 {
                hex_char(hex_digit(id, p - 1))
            } else if p < 18 {
                hex_char(hex_digit(id, p - 2))
            } else if p < 23 {
                hex_char(hex_digit(id, p - 3))
            } else {
                hex_char(hex_digit(id, p - 4))
            },
    )
}

/// The 128-bit value of the UUID that `text` spells, if it spells one.
pub uninterp spec fn uuid_parsed(text: Seq<char>) -> Option<u128>;

/// The signed token with the claims `sub`, `exp` and `iat` under the default
/// header and the symmetric key `secret`; `None` where encoding fails.
pub uninterp spec fn jwt_encoded(sub: Seq<char>, exp: int, iat: int, secret: Seq<char>) -> Option<
    Seq<char>,
>;

/// The claims `(sub, exp, iat)` of `token`, where it is well formed, carries
/// all three and its signature is the one that `secret` gives. The expiry is
/// not looked at.
pub uninterp spec fn jwt_decoded(token: Seq<char>, secret: Seq<char>) -> Option<
    (Seq<char>, int, int),
>;

/// `Uuid::from_u128` and the `Display` of the uuid crate. The text is the
/// hyphenated form, which `Uuid::parse_str` reads back to the same value.
#[verifier::external_body]
fn uuid_text(id: u128) -> (text: String)
    ensures
        text@ == uuid_hyphenated(id),
        uuid_parsed(text@) == Some(id),
{
    uuid::Uuid::from_u128(id).to_string()
}

/// `Uuid::parse_str` and `Uuid::as_u128` of the uuid crate.
#[verifier::external_body]
fn uuid_value(text: &str) -> (id: Option<u128>)
    ensures
        id == uuid_parsed(text@),
{
    match uuid::Uuid::parse_str(text) {
        Ok(u) => Some(u.as_u128()),
        Err(_) => None,
    }
}

/// `Utc::now().timestamp()` of chrono: the seconds since the epoch on this
/// machine's clock. Nothing is claimed of the value.
#[verifier::external_body]
fn current_timestamp() -> i64 {
    chrono::Utc::now().timestamp()
}

/// `encode` of jsonwebtoken with `Header::default()` (HS256) and
/// `EncodingKey::from_secret`, on a JSON object with the three claims. A
/// token that comes back decodes under the same secret to the same claims,
/// as long as its expiry is not negative: the decoder reads the expiry as an
/// unsigned number.
#[verifier::external_body]
fn encode_claims(sub: &str, exp: i64, iat: i64, secret: &str) -> (r: Result<
    String,
    jsonwebtoken::errors::Error,
>)
    ensures
        match r {
            Ok(token) => jwt_encoded(sub@, exp as int, iat as int, secret@) == Some(token@) && (exp
                >= 0 ==> jwt_decoded(token@, secret@) == Some((sub@, exp as int, iat as int))),
            Err(_) => jwt_encoded(sub@, exp as int, iat as int, secret@) is None,
        },
{
    let mut claims = serde_json::Map::new();
    claims.insert("sub".to_string(), serde_json::Value::from(sub));
    claims.insert("exp".to_string(), serde_json::Value::from(exp));
    claims.insert("iat".to_string(), serde_json::Value::from(iat));
    let key = jsonwebtoken::EncodingKey::from_secret(secret.as_bytes());
    jsonwebtoken::encode(&jsonwebtoken::Header::default(), &claims, &key)
}

/// `decode` of jsonwebtoken with `DecodingKey::from_secret` and
/// `Validation::default()` with the expiry check switched off: the format,
/// the algorithm and the signature are checked there, the expiry by the
/// caller against a time of its own.
#[verifier::external_body]
fn decode_claims(token: &str, secret: &str) -> (r: Option<(String, i64, i64)>)
    ensures
        match r {
            Some((sub, exp, iat)) => jwt_decoded(token@, secret@) == Some(
                (sub@, exp as int, iat as int),
            ),
            None => jwt_decoded(token@, secret@) is None,
        },
{
    let key = jsonwebtoken::DecodingKey::from_secret(secret.as_bytes());
    let mut validation = jsonwebtoken::Validation::default();
    validation.validate_exp = false;
    let claims = jsonwebtoken::decode::<serde_json::Value>(token, &key, &validation).ok()?.claims;
    let sub = claims.get("sub")?.as_str()?.to_string();
    Some((sub, claims.get("exp")?.as_i64()?, claims.get("iat")?.as_i64()?))
}

/// The signed payload of a token.
#[derive(Debug, Clone)]
pub struct Claims {
    pub sub: String,
    pub exp: i64,
    pub iat: i64,
}

/// Issues and verifies identity tokens under one symmetric secret.
#[derive(Clone)]
pub struct JwtGenerator {
    secret: String,
}

impl JwtGenerator {
    pub closed spec fn secret(&self) -> Seq<char> {
        self.secret@
    }

    /// The token for `user_id` issued at `now`, where signing succeeds.
    pub open spec fn token_at(&self, user_id: u128, now: int) -> Option<Seq<char>> {
        jwt_encoded(uuid_hyphenated(user_id), now + TOKEN_VALIDITY_SECONDS, now, self.secret())
    }

    /// The claims that `token` yields at `now`: those that it carries, where
    /// its signature is ours and it has not expired.
    pub open spec fn claims_at(&self, token: Seq<char>, now: int) -> Option<(Seq<char>, int, int)> {
        match jwt_decoded(token, self.secret()) {
            Some((sub, exp, iat)) => if exp >= now {
                Some((sub, exp, iat))
            } else {
                None
            },
            None => None,
        }
    }

    /// Whether `token` carries the claims of a token issued for `user_id` at
    /// `now`, under our secret, with a subject that spells the id.
    pub open spec fn stands_for(&self, token: Seq<char>, user_id: u128, now: int) -> bool {
        &&& jwt_decoded(token, self.secret()) == Some(
            (uuid_hyphenated(user_id), now + TOKEN_VALIDITY_SECONDS, now),
        )
        &&& uuid_parsed(uuid_hyphenated(user_id)) == Some(user_id)
    }

    /// Whether `r` is what issuing a token for `user_id` at `now` returns. A
    /// token that is issued stands for the user, unless its expiry is before
    /// the epoch.
    pub open spec fn issued(&self, user_id: u128, now: int, r: Result<String, AppError>) -> bool {
        match self.token_at(user_id, now) {
            Some(token) => r matches Ok(t) && t@ == token && (now + TOKEN_VALIDITY_SECONDS >= 0
                ==> self.stands_for(token, user_id, now)),
            None => r matches Err(AppError::Other(m)) && m@ == "Failed to generate JWT Token"@,
        }
    }

    /// Whether `r` is what verifying `token` at `now` returns.
    pub open spec fn verified(&self, token: Seq<char>, now: int, r: Result<Claims, AppError>) -> bool {
        match self.claims_at(token, now) {
            Some((sub, exp, iat)) => r matches Ok(c) && c.sub@ == sub && c.exp == exp && c.iat
                == iat,
            None => r matches Err(AppError::Unauthorized),
        }
    }

    /// Whether a token can be issued at `now` at all: its expiry has to be a
    /// time that the claims can hold.
    pub open spec fn can_issue_at(now: int) -> bool {
        now + TOKEN_VALIDITY_SECONDS <= i64::MAX
    }

    pub fn new(secret: String) -> (g: JwtGenerator)
        ensures
            g.secret() == secret@,
    {
        JwtGenerator { secret }
    }

    /// Issues a token for `user_id` at the time `now`: subject the id's text,
    /// issued at `now`, expiring thirty days later.
    pub fn issue(&self, user_id: u128, now: i64) -> (r: Result<String, AppError>)
        requires
            Self::can_issue_at(now as int),
        ensures
            self.issued(user_id, now as int, r),
    {
        let sub = uuid_text(user_id);
        let exp: i64 = now + TOKEN_VALIDITY_SECONDS;
        match encode_claims(sub.as_str(), exp, now, self.secret.as_str()) {
            Ok(token) => Ok(token),
            Err(_) => Err(AppError::Other("Failed to generate JWT Token".to_owned())),
        }
    }

    /// Whether `r` is what a request for a token for `user_id` returns when
    /// the clock shows `now`: what [`JwtGenerator::issue`] gives at that time,
    /// and an internal error at a time too late for any expiry.
    pub open spec fn generated(&self, user_id: u128, now: i64, r: Result<String, AppError>) -> bool {
        if Self::can_issue_at(now as int) {
            self.issued(user_id, now as int, r)
        } else {
            r matches Err(AppError::Other(m)) && m@ == "Failed to generate JWT Token"@
        }
    }

    /// Issues a token for `user_id` at the machine's present time, whatever
    /// that time is.
    pub fn generate_token(&self, user_id: u128) -> (r: Result<String, AppError>)
        ensures
            exists|now: i64| #[trigger] self.generated(user_id, now, r),
    {
        let now: i64 = current_timestamp();
        let r = if now <= i64::MAX - TOKEN_VALIDITY_SECONDS {
            self.issue(user_id, now)
        } else {
            Err(AppError::Other("Failed to generate JWT Token".to_owned()))
        };
        assert(self.generated(user_id, now, r));
        r
    }

    /// Verifies `token` at the time `now`: it succeeds exactly where the token
    /// decodes under our secret and `now` is not past its expiry, and then
    /// returns the claims; every failure is `Unauthorized`.
    pub fn verify_at(&self, token: &str, now: i64) -> (r: Result<Claims, AppError>)
        ensures
            self.verified(token@, now as int, r),
            r is Ok <==> (jwt_decoded(token@, self.secret()) matches Some((_, exp, _)) && now
                <= exp),
    {
        match decode_claims(token, self.secret.as_str()) {
            Some((sub, exp, iat)) => {
                if exp >= now {
                    Ok(Claims { sub, exp, iat })
                } else {
                    Err(AppError::Unauthorized)
                }
            },
            None => Err(AppError::Unauthorized),
        }
    }

    /// Whether `r` is what verifying `token` returns when the clock shows
    /// `now`.
    pub open spec fn verified_by_clock(&self, token: Seq<char>, now: i64, r: Result<Claims, AppError>) -> bool {
        self.verified(token, now as int, r)
    }

    /// Verifies `token` at the machine's present time, whatever that time is.
    pub fn verify_token(&self, token: &str) -> (r: Result<Claims, AppError>)
        ensures
            exists|now: i64| #[trigger] self.verified_by_clock(token@, now, r),
    {
        let now: i64 = current_timestamp();
        let r = self.verify_at(token, now);
        assert(self.verified_by_clock(token@, now, r));
        r
    }

    /// Whether `r` is what authenticating `token` returns when the clock
    /// shows `now`: the id that its subject spells, where it verifies.
    pub open spec fn authenticated(&self, token: Seq<char>, now: i64, r: Result<u128, AppError>) -> bool {
        match self.claims_at(token, now as int) {
            Some((sub, _, _)) => match uuid_parsed(sub) {
                Some(id) => r == Ok::<u128, AppError>(id),
                None => r matches Err(AppError::BadRequest(m)) && m@ == "Invalid user ID in token"@,
            },
            None => r == Err::<u128, AppError>(AppError::Unauthorized),
        }
    }

    /// The id of the user that `token` stands for at the time `now`.
    pub fn authenticate_at(&self, token: &str, now: i64) -> (r: Result<u128, AppError>)
        ensures
            self.authenticated(token@, now, r),
    {
        match self.verify_at(token, now) {
            Ok(claims) => Self::subject_id(&claims),
            Err(_) => Err(AppError::Unauthorized),
        }
    }

    /// The id of the user that `token` stands for at the machine's present
    /// time, whatever that time is.
    pub fn authenticate(&self, token: &str) -> (r: Result<u128, AppError>)
        ensures
            exists|now: i64| #[trigger] self.authenticated(token@, now, r),
    {
        let now: i64 = current_timestamp();
        let r = self.authenticate_at(token, now);
        assert(self.authenticated(token@, now, r));
        r
    }

    /// What the subject of verified claims yields: the id that it spells, or
    /// a bad request where it spells none.
    pub fn subject_id(claims: &Claims) -> (r: Result<u128, AppError>)
        ensures
            match uuid_parsed(claims.sub@) {
                Some(id) => r == Ok::<u128, AppError>(id),
                None => r matches Err(AppError::BadRequest(m)) && m@ == "Invalid user ID in token"@,
            },
    {
        match uuid_value(claims.sub.as_str()) {
            Some(id) => Ok(id),
            None => Err(AppError::BadRequest("Invalid user ID in token".to_owned())),
        }
    }
}

/// A token is valid up to its expiry and no longer: it verifies at a time
/// exactly where it decodes under the secret and that time is not past its
/// expiry, so one that verifies at some time verifies, with the same claims,
/// at every earlier time, and one that has expired stays expired.
pub proof fn validity_ends_at_expiry(jwt: JwtGenerator, token: Seq<char>, now: int, other: int)
    ensures
        jwt.claims_at(token, now) is Some <==> (jwt_decoded(token, jwt.secret()) matches Some(
            (_, exp, _),
        ) && now <= exp),
        jwt.claims_at(token, now) is Some && other <= now ==> jwt.claims_at(token, other)
            == jwt.claims_at(token, now),
        jwt.claims_at(token, now) is None && now <= other ==> jwt.claims_at(token, other) is None,
{
}

/// A token that stands for a user verifies from its issue up to its expiry
/// and at no later time, and what it authenticates is that user's id.
pub proof fn issued_token_stands_until_expiry(
    jwt: JwtGenerator,
    token: Seq<char>,
    user_id: u128,
    now: int,
    at: i64,
    claims: Result<Claims, AppError>,
    id: Result<u128, AppError>,
)
    requires
        jwt.stands_for(token, user_id, now),
        jwt.verified(token, at as int, claims),
        jwt.authenticated(token, at, id),
    ensures
        at <= now + TOKEN_VALIDITY_SECONDS ==> id == Ok::<u128, AppError>(user_id) && (
        claims matches Ok(c) && c.sub@ == uuid_hyphenated(user_id) && c.iat == now && c.exp == now
            + TOKEN_VALIDITY_SECONDS),
        at > now + TOKEN_VALIDITY_SECONDS ==> id == Err::<u128, AppError>(AppError::Unauthorized)
            && claims matches Err(AppError::Unauthorized),
{
}

} // verus!
