//! The credential: a signed, time-bounded token that names a user.
//!
//! Tokens are JSON Web Tokens signed with HMAC-SHA-256. The custom claims
//! are `id`, the user's id as a hyphenated UUID, and `username`.

use jwt_simple::prelude::{Claims, Duration, HS256Key, MACLike};
use jwt_simple::reexports::serde_json::Value;
use vstd::prelude::*;

verus! {

/// The least length of a signing key, in bytes.
pub const MIN_KEY_BYTES: usize = 12;

/// The longest life a token may be given, in seconds: two to the
/// thirtieth, some thirty-four years. Expiry is the time of issue plus the
/// life, held as seconds since 1970 in thirty-two bits; under this bound
/// the sum fits until the year 2072.
pub const MAX_TOKEN_LIFETIME_SECS: u64 = 1_073_741_824;

/// The name of the claim that carries the user's id.
pub const CLAIM_ID: &'static str = "id";

/// The name of the claim that carries the user's name.
pub const CLAIM_USERNAME: &'static str = "username";

/// The life of an access token, in seconds: ten minutes.
pub const ACCESS_TOKEN_SECS: u64 = 600;

/// The life of a refresh token, in seconds: three days.
pub const REFRESH_TOKEN_SECS: u64 = 259_200;

/// What a token asserts once its signature and its dates have been
/// checked: the id and the name of a user.
#[derive(Debug)]
pub struct JwtPayload {
    pub id: u128,
    pub username: String,
}

impl Clone for JwtPayload {
    fn clone(&self) -> (copy: Self)
        ensures
            copy == *self,
    {
        JwtPayload { id: self.id, username: self.username.clone() }
    }
}

/// Why a token was not issued or not accepted.
#[derive(Debug, Clone, Copy, PartialEq, Eq, Structural)]
pub enum TokenError {
    /// The signing key is shorter than `MIN_KEY_BYTES`.
    WeakKey,
    /// The life asked for is longer than `MAX_TOKEN_LIFETIME_SECS`.
    LifetimeTooLong,
    /// The token could not be built or signed.
    SigningFailed,
    /// The token is malformed, wrongly signed, not yet valid or expired.
    Rejected,
    /// The token is genuine but does not name a user.
    MalformedClaims,
}

/// The signing key, handed over once when the codec is made.
pub struct CredentialCodec {
    key: Vec<u8>,
}

impl CredentialCodec {
    /// The bytes of the signing key.
    pub closed spec fn key_bytes(&self) -> Seq<u8> {
        self.key@
    }

    /// A codec that signs and checks with this key.
    pub fn new(key: Vec<u8>) -> (codec: CredentialCodec)
        ensures
            codec.key_bytes() == key@,
    {
        CredentialCodec { key }
    }

    /// Whether the key is long enough to sign with.
    pub fn is_strong(&self) -> (strong: bool)
        ensures
            strong == (self.key_bytes().len() >= MIN_KEY_BYTES),
    {
        self.key.len() >= MIN_KEY_BYTES
    }
}

/// What a token is asked for: the user it is to name and the seconds it
/// is to live.
#[derive(Debug)]
pub struct TokenOrder {
    pub user_id: u128,
    pub username: String,
    pub lifetime_secs: u64,
}

/// What the signer is handed: the two custom claims and the life.
#[derive(Debug)]
pub struct TokenClaims {
    /// The user's id as a hyphenated UUID.
    pub id: String,
    pub username: String,
    pub lifetime_secs: u64,
}

impl TokenClaims {
    /// The custom claims as they come out of a token that carries them.
    pub open spec fn read_back(self) -> RawClaims {
        RawClaims { id: Some(self.id), username: Some(self.username) }
    }
}

/// The custom claims of a token as they came out of it, before anything
/// is made of them.
#[derive(Debug)]
pub struct RawClaims {
    /// The claim `id`, where the token has it as a string.
    pub id: Option<String>,
    /// The claim `username`, where the token has it as a string.
    pub username: Option<String>,
}

/// `jwt_simple::Error`: why the crate issued or accepted no token. Nothing
/// is read from it.
#[verifier::external_type_specification]
#[verifier::external_body]
pub struct ExTokenFailure(jwt_simple::Error);

/// `uuid::Error`: why a text does not read as a UUID. Nothing is read from
/// it.
#[verifier::external_type_specification]
#[verifier::external_body]
pub struct ExUuidFailure(uuid::Error);

/// The hyphenated text of a UUID: what `uuid::Uuid::from_u128` followed by
/// `to_string` gives for the id.
pub uninterp spec fn uuid_text(id: u128) -> Seq<char>;

/// The id that a text stands for as a UUID, in any of the forms that
/// `uuid::Uuid::parse_str` reads; `None` where it reads none.
pub uninterp spec fn uuid_parsed(text: Seq<char>) -> Option<u128>;

/// `uuid::Uuid::from_u128` and the `Display` of the UUID: the id written
/// in the hyphenated form, which depends on the id alone. The hyphenated
/// form is one of those that `uuid::Uuid::parse_str` reads, and it reads
/// the same id out of it.
#[verifier::external_body]
fn format_uuid(id: u128) -> (text: String)
    ensures
        text@ == uuid_text(id),
        uuid_parsed(text@) == Some(id),
{
    uuid::Uuid::from_u128(id).to_string()
}

/// `uuid::Uuid::parse_str` and `as_u128`: the id that the text stands
/// for, or the crate's error where it stands for none. The outcome depends
/// on the text alone.
#[verifier::external_body]
fn parse_uuid(text: &str) -> (id: Result<u128, uuid::Error>)
    ensures
        match id {
            Ok(id) => uuid_parsed(text@) == Some(id),
            Err(_) => uuid_parsed(text@) is None,
        },
{
    uuid::Uuid::parse_str(text).map(|parsed| parsed.as_u128())
}

/// `authenticate` of `jwt_simple`'s `HS256Key`, on claims made by
/// `Claims::with_custom_claims` with two custom claims under the names
/// given: a token that is valid from now on for the life that the claims
/// name. The token depends on the clock, so nothing is said of it but that
/// a key shorter than twelve bytes gets none. Lives over
/// `MAX_TOKEN_LIFETIME_SECS` are kept out because the crate adds the life
/// to the time in 64 bits of which 32 hold the seconds.
#[verifier::external_body]
fn sign(key: &Vec<u8>, id_claim: &str, username_claim: &str, claims: &TokenClaims) -> (token:
    Result<String, jwt_simple::Error>)
    requires
        claims.lifetime_secs <= MAX_TOKEN_LIFETIME_SECS,
    ensures
        key@.len() < MIN_KEY_BYTES ==> token is Err,
{
    let mut custom = jwt_simple::reexports::serde_json::Map::new();
    custom.insert(id_claim.to_string(), Value::String(claims.id.clone()));
    custom.insert(username_claim.to_string(), Value::String(claims.username.clone()));
    let life = Duration::from_secs(claims.lifetime_secs);
    let claims = Claims::with_custom_claims(Value::Object(custom), life);
    HS256Key::from_bytes(key).authenticate(claims)
}

/// `verify_token` of `jwt_simple`'s `HS256Key` with the default options:
/// the two custom claims under the names given, of a token whose signature
/// and dates are in order, or the crate's error. The outcome depends on
/// the clock, so nothing is said of it but that a key shorter than twelve
/// bytes accepts no token.
#[verifier::external_body]
fn verify(key: &Vec<u8>, token: &str, id_claim: &str, username_claim: &str) -> (claims: Result<
    RawClaims,
    jwt_simple::Error,
>)
    ensures
        key@.len() < MIN_KEY_BYTES ==> claims is Err,
{
    let claims = HS256Key::from_bytes(key).verify_token::<Value>(token, None)?;
    Ok(RawClaims {
        id: claims.custom.get(id_claim).and_then(|v| v.as_str()).map(|s| s.to_string()),
        username: claims.custom.get(username_claim).and_then(|v| v.as_str()).map(|s| s.to_string()),
    })
}

/// What the signer is handed for an order: the id written as a
/// hyphenated UUID, the name and the life as they are. Read back, the
/// claims name the user of the order.
pub fn claims_for(order: TokenOrder) -> (claims: TokenClaims)
    ensures
        claims.id@ == uuid_text(order.user_id),
        claims.username == order.username,
        claims.lifetime_secs == order.lifetime_secs,
        payload_of(claims.read_back()) == Ok::<JwtPayload, TokenError>(
            JwtPayload { id: order.user_id, username: order.username },
        ),
{
    TokenClaims {
        id: format_uuid(order.user_id),
        username: order.username,
        lifetime_secs: order.lifetime_secs,
    }
}

/// Issues the token that an order asks for. A weak key and an overlong
/// life are refused before anything is signed; past that, the signer is
/// handed the claims of the order, and signing decides.
pub fn create_jwt_token(codec: &CredentialCodec, order: TokenOrder) -> (token: Result<
    String,
    TokenError,
>)
    ensures
        !(codec.key_bytes().len() >= MIN_KEY_BYTES) ==> token == Err::<String, TokenError>(
            TokenError::WeakKey,
        ),
        codec.key_bytes().len() >= MIN_KEY_BYTES && order.lifetime_secs
            > MAX_TOKEN_LIFETIME_SECS ==> token == Err::<String, TokenError>(
            TokenError::LifetimeTooLong,
        ),
        codec.key_bytes().len() >= MIN_KEY_BYTES && order.lifetime_secs
            <= MAX_TOKEN_LIFETIME_SECS ==> token is Ok || token == Err::<String, TokenError>(
            TokenError::SigningFailed,
        ),
{
    if !codec.is_strong() {
        return Err(TokenError::WeakKey);
    }
    if order.lifetime_secs > MAX_TOKEN_LIFETIME_SECS {
        return Err(TokenError::LifetimeTooLong);
    }
    signed(sign(&codec.key, CLAIM_ID, CLAIM_USERNAME, &claims_for(order)))
}

/// What is made of the outcome of signing.
pub open spec fn signed_spec(outcome: Result<String, jwt_simple::Error>) -> Result<
    String,
    TokenError,
> {
    match outcome {
        Ok(token) => Ok(token),
        Err(_) => Err(TokenError::SigningFailed),
    }
}

/// Maps the outcome of signing.
pub fn signed(outcome: Result<String, jwt_simple::Error>) -> (token: Result<String, TokenError>)
    ensures
        token == signed_spec(outcome),
{
    match outcome {
        Ok(token) => Ok(token),
        Err(_) => Err(TokenError::SigningFailed),
    }
}

/// The user that genuine claims name: both claims must be there and the
/// id must read as a UUID.
pub open spec fn payload_of(raw: RawClaims) -> Result<JwtPayload, TokenError> {
    match (raw.id, raw.username) {
        (Some(id), Some(username)) => match uuid_parsed(id@) {
            Some(id) => Ok(JwtPayload { id, username }),
            None => Err(TokenError::MalformedClaims),
        },
        _ => Err(TokenError::MalformedClaims),
    }
}

/// Makes a payload of the claims that came out of a genuine token.
pub fn payload_from(raw: RawClaims) -> (payload: Result<JwtPayload, TokenError>)
    ensures
        payload == payload_of(raw),
{
    match (raw.id, raw.username) {
        (Some(id), Some(username)) => match parse_uuid(id.as_str()) {
            Ok(id) => Ok(JwtPayload { id, username }),
            Err(_) => Err(TokenError::MalformedClaims),
        },
        _ => Err(TokenError::MalformedClaims),
    }
}

/// What is made of the outcome of verifying a token.
pub open spec fn decoded_spec(outcome: Result<RawClaims, jwt_simple::Error>) -> Result<
    JwtPayload,
    TokenError,
> {
    match outcome {
        Ok(raw) => payload_of(raw),
        Err(_) => Err(TokenError::Rejected),
    }
}

/// Maps the outcome of verifying a token.
pub fn decoded(outcome: Result<RawClaims, jwt_simple::Error>) -> (payload: Result<
    JwtPayload,
    TokenError,
>)
    ensures
        payload == decoded_spec(outcome),
{
    match outcome {
        Ok(raw) => payload_from(raw),
        Err(_) => Err(TokenError::Rejected),
    }
}

/// Checks a token and returns the user it names. Untrusted input never
/// makes this panic: whatever is wrong with the token comes back as an
/// error.
pub fn decode_jwt_payload(codec: &CredentialCodec, token: &str) -> (payload: Result<
    JwtPayload,
    TokenError,
>)
    ensures
        !(codec.key_bytes().len() >= MIN_KEY_BYTES) ==> payload == Err::<JwtPayload, TokenError>(
            TokenError::WeakKey,
        ),
        codec.key_bytes().len() >= MIN_KEY_BYTES ==> payload is Ok || payload == Err::<
            JwtPayload,
            TokenError,
        >(TokenError::Rejected) || payload == Err::<JwtPayload, TokenError>(
            TokenError::MalformedClaims,
        ),
{
    if !codec.is_strong() {
        return Err(TokenError::WeakKey);
    }
    decoded(verify(&codec.key, token, CLAIM_ID, CLAIM_USERNAME))
}

} // verus!
