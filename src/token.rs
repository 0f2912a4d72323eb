//! Validation of identity tokens against the provider's signing keys.

use vstd::prelude::*;
use crate::schemas::IdTokenClaims;
use jsonwebtoken::jwk::{Jwk, JwkSet};
use jsonwebtoken::{Algorithm, DecodingKey, Validation};

verus! {

#[verifier::external_type_specification]
#[verifier::external_body]
pub struct ExJwkSet(JwkSet);

#[verifier::external_type_specification]
#[verifier::external_body]
pub struct ExJwk(Jwk);

#[verifier::external_type_specification]
#[verifier::external_body]
pub struct ExDecodingKey(DecodingKey);

#[verifier::external_type_specification]
#[verifier::external_body]
pub struct ExJwtError(jsonwebtoken::errors::Error);

#[verifier::external_type_specification]
#[verifier::external_body]
pub struct ExJsonValue(serde_json::Value);

/// The number of `.` separators in a token.
pub open spec fn separator_count(token: Seq<char>) -> nat {
    token.filter(|c: char| c == '.').len()
}

/// The key id in a token's header: `None` when the header cannot be read, `Some(None)`
/// when it names no key id.
pub uninterp spec fn header_kid_of(token: Seq<char>) -> Option<Option<Seq<char>>>;

/// The key ids of the keys that a key set holds.
pub uninterp spec fn jwks_key_ids(jwks: JwkSet) -> Set<Seq<char>>;

/// The members of a JSON object whose values are strings (none when it is no object).
pub uninterp spec fn json_strings(v: serde_json::Value) -> Map<Seq<char>, Seq<char>>;

/// The members of a JSON object whose values are integers that fit in a `u64`.
pub uninterp spec fn json_integers(v: serde_json::Value) -> Map<Seq<char>, u64>;

/// The string members of a token's payload.
pub uninterp spec fn payload_strings(token: Seq<char>) -> Map<Seq<char>, Seq<char>>;

/// The members of a token's payload whose values are integers that fit in a `u64`.
pub uninterp spec fn payload_integers(token: Seq<char>) -> Map<Seq<char>, u64>;

/// An optional string, as characters.
pub open spec fn opt_view(k: Option<String>) -> Option<Seq<char>> {
    match k {
        Some(s) => Some(s@),
        None => None,
    }
}

/// Relies on `jsonwebtoken::decode_header`: reads the token's header without checking
/// its signature; the result depends on the token alone, and a token with fewer than
/// three dot-separated parts fails.
#[verifier::external_body]
fn header_key_id(token: &str) -> (r: Result<Option<String>, jsonwebtoken::errors::Error>)
    ensures
        r is Err <==> header_kid_of(token@) is None,
        r matches Ok(k) ==> header_kid_of(token@) == Some(opt_view(k)),
        separator_count(token@) < 2 ==> r is Err,
{
    jsonwebtoken::decode_header(token).map(|h| h.kid)
}

/// Relies on `JwkSet::find`: the key of the set whose key id is `kid`, if any.
#[verifier::external_body]
fn find_key<'a>(jwks: &'a JwkSet, kid: &str) -> (r: Option<&'a Jwk>)
    ensures
        r is Some <==> jwks_key_ids(*jwks).contains(kid@),
{
    jwks.find(kid)
}

/// Relies on `DecodingKey::from_jwk`: a verification key from a key of the set.
#[verifier::external_body]
fn decoding_key_from(jwk: &Jwk) -> (r: Result<DecodingKey, jsonwebtoken::errors::Error>) {
    DecodingKey::from_jwk(jwk)
}

/// The signature algorithms that identity tokens are checked with.
#[derive(Debug, Clone, Copy, PartialEq, Eq)]
pub enum SigningAlgorithm {
    RS256,
}

/// Relies on `jsonwebtoken::decode`, under a `Validation::new(algorithm)` whose audience
/// is set to `audience` with `Validation::set_audience`: the token's payload, once its
/// signature, its expiry, and its `aud` claim when it is a string, have been checked.
/// Whether it succeeds depends on the clock.
#[verifier::external_body]
fn decode_claims(
    token: &str,
    key: &DecodingKey,
    algorithm: SigningAlgorithm,
    audience: &str,
) -> (r: Result<serde_json::Value, jsonwebtoken::errors::Error>)
    ensures
        separator_count(token@) < 2 ==> r is Err,
        r matches Ok(v) ==> json_strings(v) == payload_strings(token@),
        r matches Ok(v) ==> json_integers(v) == payload_integers(token@),
        r matches Ok(v) ==> (json_strings(v).contains_key("aud"@) ==> json_strings(v)["aud"@]
            == audience@),
{
    let alg = match algorithm {
        SigningAlgorithm::RS256 => Algorithm::RS256,
    };
    let mut validation = Validation::new(alg);
    validation.set_audience(&[audience]);
    jsonwebtoken::decode::<serde_json::Value>(token, key, &validation).map(|data| data.claims)
}

/// Relies on `serde_json::Value::get` and `Value::as_str`: the member `name` of an
/// object, when it is a string.
#[verifier::external_body]
fn json_string_member(v: &serde_json::Value, name: &str) -> (r: Option<String>)
    ensures
        r is Some <==> json_strings(*v).contains_key(name@),
        r matches Some(s) ==> s@ == json_strings(*v)[name@],
{
    v.get(name).and_then(serde_json::Value::as_str).map(str::to_string)
}

/// Relies on `serde_json::Value::get` and `Value::as_u64`: the member `name` of an
/// object, when it is an integer that fits in a `u64`.
#[verifier::external_body]
fn json_u64_member(v: &serde_json::Value, name: &str) -> (r: Option<u64>)
    ensures
        r is Some <==> json_integers(*v).contains_key(name@),
        r matches Some(n) ==> n == json_integers(*v)[name@],
{
    v.get(name).and_then(serde_json::Value::as_u64)
}

/// Why an identity token was not accepted. Each one means the token is invalid.
#[derive(Debug, Clone, Copy, PartialEq, Eq)]
pub enum ValidationError {
    /// The header could not be read.
    MalformedHeader,
    /// The header names no key id.
    MissingKeyId,
    /// The key id is not in the provider's key set.
    UnknownKeyId,
    /// The key material could not be turned into a verification key.
    MalformedKey,
    /// Signature, expiry or audience check failed, or a required claim is missing.
    Rejected,
}

/// The claims hold what the handshake needs: `sub`, `iss` and `aud` as strings, `exp` as
/// an integer that fits in a `usize`, and the audience is `client_id`.
pub open spec fn claims_present(
    strings: Map<Seq<char>, Seq<char>>,
    integers: Map<Seq<char>, u64>,
    client_id: Seq<char>,
) -> bool {
    &&& strings.contains_key("sub"@)
    &&& strings.contains_key("iss"@)
    &&& strings.contains_key("aud"@)
    &&& integers.contains_key("exp"@)
    &&& integers["exp"@] <= usize::MAX
    &&& strings["aud"@] == client_id
}

/// `c` carries exactly the members of the claims: `sub`, `iss`, `aud`, `exp`, and
/// `email` when it is present as a string.
pub open spec fn claims_read_from(
    c: IdTokenClaims,
    strings: Map<Seq<char>, Seq<char>>,
    integers: Map<Seq<char>, u64>,
) -> bool {
    &&& c.sub@ == strings["sub"@]
    &&& c.iss@ == strings["iss"@]
    &&& c.aud@ == strings["aud"@]
    &&& c.exp == integers["exp"@]
    &&& opt_view(c.email) == (if strings.contains_key("email"@) {
        Some(strings["email"@])
    } else {
        None
    })
}

/// What reading the claims yields: the claims exactly when they are present, else
/// `Rejected`.
pub open spec fn reads_claims(
    r: Result<IdTokenClaims, ValidationError>,
    strings: Map<Seq<char>, Seq<char>>,
    integers: Map<Seq<char>, u64>,
    client_id: Seq<char>,
) -> bool {
    &&& r is Ok <==> claims_present(strings, integers, client_id)
    &&& r matches Ok(c) ==> claims_read_from(c, strings, integers)
    &&& r matches Err(e) ==> e == ValidationError::Rejected
}

/// Reads the claims that the handshake needs: `sub`, `iss`, `aud` and `exp` are required,
/// `email` is optional. The audience must be `client_id`.
pub fn claims_from_json(claims: &serde_json::Value, client_id: &str) -> (r: Result<
    IdTokenClaims,
    ValidationError,
>)
    ensures
        reads_claims(r, json_strings(*claims), json_integers(*claims), client_id@),
{
    let sub = match json_string_member(claims, "sub") {
        Some(s) => s,
        None => return Err(ValidationError::Rejected),
    };
    let iss = match json_string_member(claims, "iss") {
        Some(s) => s,
        None => return Err(ValidationError::Rejected),
    };
    let aud = match json_string_member(claims, "aud") {
        Some(s) => s,
        None => return Err(ValidationError::Rejected),
    };
    let exp = match json_u64_member(claims, "exp") {
        Some(e) => e,
        None => return Err(ValidationError::Rejected),
    };
    if exp > usize::MAX as u64 {
        return Err(ValidationError::Rejected);
    }
    let expected = String::from_str(client_id);
    if aud != expected {
        return Err(ValidationError::Rejected);
    }
    let email = json_string_member(claims, "email");
    Ok(IdTokenClaims { sub, email, iss, aud, exp: exp as usize })
}

/// Ends a validation once the signature and claim checks have run (`decoded` is what
/// they gave): a failed check rejects the token, else the claims are read.
pub fn claims_from_decoded(
    decoded: Result<serde_json::Value, jsonwebtoken::errors::Error>,
    client_id: &str,
) -> (r: Result<IdTokenClaims, ValidationError>)
    ensures
        decoded is Err ==> r == Err::<IdTokenClaims, ValidationError>(ValidationError::Rejected),
        decoded matches Ok(v) ==> reads_claims(r, json_strings(v), json_integers(v), client_id@),
{
    match decoded {
        Ok(claims) => claims_from_json(&claims, client_id),
        Err(_) => Err(ValidationError::Rejected),
    }
}

/// The token's header names a key id that the key set holds.
pub open spec fn kid_known(token: Seq<char>, jwks: JwkSet) -> bool {
    header_kid_of(token) matches Some(Some(k)) && jwks_key_ids(jwks).contains(k)
}

/// What validating `token` against `jwks` for `client_id` yields: each error of the
/// header and key lookup exactly when it applies; past them, either a failure of the key
/// or of the checks, or the claims read from the token's payload.
pub open spec fn validates(
    r: Result<IdTokenClaims, ValidationError>,
    token: Seq<char>,
    jwks: JwkSet,
    client_id: Seq<char>,
) -> bool {
    &&& (r == Err::<IdTokenClaims, ValidationError>(ValidationError::MalformedHeader))
        <==> header_kid_of(token) is None
    &&& (r == Err::<IdTokenClaims, ValidationError>(ValidationError::MissingKeyId))
        <==> header_kid_of(token) == Some(None::<Seq<char>>)
    &&& (r == Err::<IdTokenClaims, ValidationError>(ValidationError::UnknownKeyId)) <==> (
    header_kid_of(token) matches Some(Some(k)) && !jwks_key_ids(jwks).contains(k))
    &&& (r is Ok || r == Err::<IdTokenClaims, ValidationError>(ValidationError::MalformedKey)
        || r == Err::<IdTokenClaims, ValidationError>(ValidationError::Rejected)) ==> kid_known(
        token,
        jwks,
    )
    &&& r matches Ok(c) ==> claims_present(payload_strings(token), payload_integers(token), client_id)
        && claims_read_from(c, payload_strings(token), payload_integers(token))
}

/// Validates an identity token: its header names a key of `jwks`, its signature checks
/// with that key under RS256, it has not expired, and its audience is `client_id`.
pub fn validate_id_token(token: &str, jwks: &JwkSet, client_id: &str) -> (r: Result<
    IdTokenClaims,
    ValidationError,
>)
    ensures
        validates(r, token@, *jwks, client_id@),
        separator_count(token@) < 2 ==> r == Err::<IdTokenClaims, ValidationError>(
            ValidationError::MalformedHeader,
        ),
        r matches Ok(c) ==> c.aud@ == client_id@,
{
    let kid = match header_key_id(token) {
        Ok(Some(k)) => k,
        Ok(None) => return Err(ValidationError::MissingKeyId),
        Err(_) => return Err(ValidationError::MalformedHeader),
    };
    let jwk = match find_key(jwks, kid.as_str()) {
        Some(j) => j,
        None => return Err(ValidationError::UnknownKeyId),
    };
    let key = match decoding_key_from(jwk) {
        Ok(k) => k,
        Err(_) => return Err(ValidationError::MalformedKey),
    };
    let decoded = decode_claims(token, &key, SigningAlgorithm::RS256, client_id);
    claims_from_decoded(decoded, client_id)
}

} // verus!
