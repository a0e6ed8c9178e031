//! The token issuer: a signed, time-bounded claim set for one subject.

use vstd::prelude::*;
use crate::clock::unix_now;
use crate::error::ServiceError;

verus! {

/// `jsonwebtoken::errors::Error`, carried through unread.
#[verifier::external_type_specification]
#[verifier::external_body]
pub struct ExSigningFailure(jsonwebtoken::errors::Error);

/// Seconds in a minute.
pub const SECONDS_PER_MINUTE: u64 = 60;

/// How long an issued token stays valid, in minutes.
pub const TOKEN_LIFETIME_MINUTES: usize = 60;

/// The class of caller a token is issued to.
#[derive(Clone, Copy, Debug, PartialEq, Eq, Structural)]
pub enum Audience {
    User,
    Admin,
}

impl Audience {
    /// The audience as it stands in a token.
    pub open spec fn name(self) -> Seq<char> {
        match self {
            Audience::User => "User"@,
            Audience::Admin => "Admin"@,
        }
    }

    /// The audience as it stands in a token.
    pub fn to_string(self) -> (text: String)
        ensures
            text@ == self.name(),
    {
        match self {
            Audience::User => "User".to_owned(),
            Audience::Admin => "Admin".to_owned(),
        }
    }
}

/// The claim set of a token. All times are seconds since the epoch.
#[derive(Debug, PartialEq, Eq)]
pub struct Claims {
    pub aud: String,
    pub exp: u64,
    pub iat: u64,
    pub iss: String,
    pub nbf: u64,
    pub sub: String,
}

/// The mathematical view of `Claims`.
#[verifier::ext_equal]
pub struct ClaimsView {
    pub aud: Seq<char>,
    pub exp: u64,
    pub iat: u64,
    pub iss: Seq<char>,
    pub nbf: u64,
    pub sub: Seq<char>,
}

impl View for Claims {
    type V = ClaimsView;

    open spec fn view(&self) -> ClaimsView {
        ClaimsView {
            aud: self.aud@,
            exp: self.exp,
            iat: self.iat,
            iss: self.iss@,
            nbf: self.nbf,
            sub: self.sub@,
        }
    }
}

/// When a token issued at `now` for `minutes` minutes expires.
pub open spec fn expiry(now: u64, minutes: usize) -> int {
    now + minutes * SECONDS_PER_MINUTE
}

/// The claims issued at `now`: valid from that moment, for `minutes`
/// minutes, in the name of this system.
pub open spec fn claims_at(audience: Audience, minutes: usize, subject: Seq<char>, now: u64) -> ClaimsView {
    ClaimsView {
        aud: audience.name(),
        exp: expiry(now, minutes) as u64,
        iat: now,
        iss: "system"@,
        nbf: now,
        sub: subject,
    }
}

impl ClaimsView {
    /// The token is not valid before it is issued, nor issued after it
    /// expires.
    pub open spec fn ordered(self) -> bool {
        self.nbf <= self.iat <= self.exp
    }
}

impl Claims {
    /// The claims for `user_id`, issued at `now` and valid for `exp_as_min`
    /// minutes.
    pub fn new(audience: Audience, exp_as_min: usize, user_id: String, now: u64) -> (claims: Claims)
        requires
            expiry(now, exp_as_min) <= u64::MAX,
        ensures
            claims@ == claims_at(audience, exp_as_min, user_id@, now),
            claims@.ordered(),
            exp_as_min > 0 ==> claims.exp > claims.iat,
    {
        let lifetime: u64 = exp_as_min as u64 * SECONDS_PER_MINUTE;
        Claims {
            aud: audience.to_string(),
            exp: now + lifetime,
            iat: now,
            iss: "system".to_owned(),
            nbf: now,
            sub: user_id,
        }
    }
}

/// The token that `jsonwebtoken::encode` makes of a claim set and a secret,
/// or `None` where it reports an error.
pub uninterp spec fn signed_token(claims: ClaimsView, secret: Seq<char>) -> Option<Seq<char>>;

/// Signs the claims with `jsonwebtoken::encode`, under the default header
/// (HS256) and the secret's bytes as the key. The claims are handed over as
/// a JSON object of their six fields. Whether a token comes back, and which,
/// depends on the claims and the secret alone and goes by the name
/// `signed_token`; the contract does not say on which of them signing
/// succeeds.
#[verifier::external_body]
fn sign_claims(claims: &Claims, secret: &str) -> (signed: Result<String, jsonwebtoken::errors::Error>)
    ensures
        match signed {
            Ok(token) => signed_token(claims@, secret@) == Some(token@),
            Err(_) => signed_token(claims@, secret@) is None,
        },
{
    let mut payload = serde_json::Map::new();
    payload.insert("aud".to_string(), claims.aud.clone().into());
    payload.insert("exp".to_string(), claims.exp.into());
    payload.insert("iat".to_string(), claims.iat.into());
    payload.insert("iss".to_string(), claims.iss.clone().into());
    payload.insert("nbf".to_string(), claims.nbf.into());
    payload.insert("sub".to_string(), claims.sub.clone().into());
    let key = jsonwebtoken::EncodingKey::from_secret(secret.as_bytes());
    jsonwebtoken::encode(&jsonwebtoken::Header::default(), &payload, &key)
}

/// What a signing outcome means to a caller.
pub fn token_from_signing(signed: Result<String, jsonwebtoken::errors::Error>) -> (token: Result<
    String,
    ServiceError,
>)
    ensures
        match signed {
            Ok(t) => token matches Ok(got) && got@ == t@,
            Err(_) => token matches Err(e) && e == ServiceError::SigningError,
        },
{
    match signed {
        Ok(t) => Ok(t),
        Err(_) => Err(ServiceError::SigningError),
    }
}

/// What issuing at `now` comes to, given what signing the claims gave: the
/// token, unless the expiry does not fit the clock's range or the signing
/// reported an error.
pub open spec fn issued(now: u64, signed: Option<Seq<char>>) -> Result<Seq<char>, ServiceError> {
    if expiry(now, TOKEN_LIFETIME_MINUTES) > u64::MAX {
        Err(ServiceError::SigningError)
    } else {
        match signed {
            Some(token) => Ok(token),
            None => Err(ServiceError::SigningError),
        }
    }
}

/// The outcome of issuing, with the token by its text.
pub open spec fn token_text(token: Result<String, ServiceError>) -> Result<Seq<char>, ServiceError> {
    match token {
        Ok(t) => Ok(t@),
        Err(e) => Err(e),
    }
}

/// The issuer, holding the signing secret it was configured with.
pub struct JwtUtil {
    secret: String,
}

impl JwtUtil {
    /// The signing secret.
    pub closed spec fn secret(&self) -> Seq<char> {
        self.secret@
    }

    /// An issuer for the configured secret. An absent secret is a
    /// configuration error, to be met once, at startup.
    pub fn new(secret: Option<String>) -> (issuer: Result<JwtUtil, ServiceError>)
        ensures
            match secret {
                Some(s) => issuer matches Ok(j) && j.secret() == s@,
                None => issuer matches Err(e) && e == ServiceError::ConfigurationError,
            },
    {
        match secret {
            Some(s) => Ok(JwtUtil { secret: s }),
            None => Err(ServiceError::ConfigurationError),
        }
    }

    /// Issues a token for `user_id` at the time `now`: the signed claims of
    /// `claims_at`, valid for `TOKEN_LIFETIME_MINUTES`. It fails exactly
    /// where the expiry is not representable or the signing reports an
    /// error, and succeeds with the signed token everywhere else.
    pub fn issue_at(&self, user_id: String, audience: Audience, now: u64) -> (token: Result<
        String,
        ServiceError,
    >)
        ensures
            token_text(token) == issued(
                now,
                signed_token(
                    claims_at(audience, TOKEN_LIFETIME_MINUTES, user_id@, now),
                    self.secret(),
                ),
            ),
    {
        if now > u64::MAX - TOKEN_LIFETIME_MINUTES as u64 * SECONDS_PER_MINUTE {
            return Err(ServiceError::SigningError);
        }
        let claims = Claims::new(audience, TOKEN_LIFETIME_MINUTES, user_id, now);
        token_from_signing(sign_claims(&claims, self.secret.as_str()))
    }

    /// Issues a token for `user_id` at the current time: what `issue_at`
    /// gives for the time the clock reads.
    pub fn issue_new(&self, user_id: String, audience: Audience) -> (token: Result<
        String,
        ServiceError,
    >)
        ensures
            exists|now: u64|
                token_text(token) == issued(
                    now,
                    signed_token(
                        #[trigger] claims_at(audience, TOKEN_LIFETIME_MINUTES, user_id@, now),
                        self.secret(),
                    ),
                ),
    {
        let now: u64 = unix_now();
        self.issue_at(user_id, audience, now)
    }
}

} // verus!
