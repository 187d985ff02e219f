//! Trusted interface to `jsonwebtoken_aws_lc`: token validation settings,
//! signing and verification keys, and the crate's error type.

use vstd::prelude::*;
use core::time::Duration;
use jsonwebtoken_aws_lc::errors::Error as JwtError;
use jsonwebtoken_aws_lc::jwk::Jwk;
use jsonwebtoken_aws_lc::{DecodingKey, EncodingKey, Validation};
use jsonwebtoken_aws_lc::Algorithm as JwtAlgorithm;
use crate::auth::algorithm::Algorithm;
use crate::workload::string_views;

verus! {

#[verifier::external_type_specification]
#[verifier::external_body]
pub struct ExValidation(Validation);

#[verifier::external_type_specification]
#[verifier::external_body]
pub struct ExEncodingKey(EncodingKey);

#[verifier::external_type_specification]
#[verifier::external_body]
pub struct ExDecodingKey(DecodingKey);

#[verifier::external_type_specification]
#[verifier::external_body]
pub struct ExJwtError(JwtError);

#[verifier::external_type_specification]
#[verifier::external_body]
pub struct ExJwk(Jwk);

/// The claims that a `Validation` requires to be present in a token.
pub uninterp spec fn validation_required_claims(v: Validation) -> Set<Seq<char>>;

/// The accepted audiences of a `Validation`, when it checks the audience.
pub uninterp spec fn validation_audience(v: Validation) -> Option<Set<Seq<char>>>;

/// The accepted issuers of a `Validation`, when it checks the issuer.
pub uninterp spec fn validation_issuer(v: Validation) -> Option<Set<Seq<char>>>;

/// The signature algorithms that a `Validation` accepts.
pub uninterp spec fn validation_algorithms(v: Validation) -> Seq<Algorithm>;

/// The remaining settings of a `Validation`: the leeway, the minimum
/// remaining lifetime, which time and audience checks run, the expected
/// subject, and whether signatures are checked.
pub struct ValidationFlags {
    pub leeway: u64,
    pub reject_tokens_expiring_in_less_than: u64,
    pub validate_exp: bool,
    pub validate_nbf: bool,
    pub validate_aud: bool,
    pub sub: Option<Seq<char>>,
    pub validate_signature: bool,
}

/// The remaining settings of a `Validation`.
pub uninterp spec fn validation_flags(v: Validation) -> ValidationFlags;

/// The remaining settings that `Validation::new` gives: a leeway of 60
/// seconds, no minimum lifetime, expiry and audience checked, not-before not
/// checked, no expected subject, signatures checked.
pub open spec fn default_validation_flags() -> ValidationFlags {
    ValidationFlags {
        leeway: 60,
        reject_tokens_expiring_in_less_than: 0,
        validate_exp: true,
        validate_nbf: false,
        validate_aud: true,
        sub: None,
        validate_signature: true,
    }
}

/// Calls `Validation::new`: the validation accepts `alg` alone, requires
/// the `exp` claim, checks neither audience nor issuer, and has the default
/// remaining settings.
#[verifier::external_body]
pub(crate) fn validation_new(alg: Algorithm) -> (v: Validation)
    ensures
        validation_algorithms(v) == seq![alg],
        validation_required_claims(v) == set!["exp"@],
        validation_audience(v) == None::<Set<Seq<char>>>,
        validation_issuer(v) == None::<Set<Seq<char>>>,
        validation_flags(v) == default_validation_flags(),
{
    let a = match alg {
        Algorithm::HS256 => JwtAlgorithm::HS256, Algorithm::HS384 => JwtAlgorithm::HS384,
        Algorithm::HS512 => JwtAlgorithm::HS512, Algorithm::ES256 => JwtAlgorithm::ES256,
        Algorithm::ES384 => JwtAlgorithm::ES384, Algorithm::RS256 => JwtAlgorithm::RS256,
        Algorithm::RS384 => JwtAlgorithm::RS384, Algorithm::RS512 => JwtAlgorithm::RS512,
        Algorithm::PS256 => JwtAlgorithm::PS256, Algorithm::PS384 => JwtAlgorithm::PS384,
        Algorithm::PS512 => JwtAlgorithm::PS512, Algorithm::EdDSA => JwtAlgorithm::EdDSA,
    };
    Validation::new(a)
}

/// Calls `Validation::set_audience` with the single audience `aud`.
#[verifier::external_body]
pub(crate) fn validation_set_audience(v: &mut Validation, aud: &String)
    ensures
        validation_audience(*final(v)) == Some(set![aud@]),
        validation_issuer(*final(v)) == validation_issuer(*old(v)),
        validation_required_claims(*final(v)) == validation_required_claims(*old(v)),
        validation_algorithms(*final(v)) == validation_algorithms(*old(v)),
        validation_flags(*final(v)) == validation_flags(*old(v)),
{
    v.set_audience(&[aud])
}

/// Calls `Validation::set_issuer` with the single issuer `iss`.
#[verifier::external_body]
pub(crate) fn validation_set_issuer(v: &mut Validation, iss: &String)
    ensures
        validation_issuer(*final(v)) == Some(set![iss@]),
        validation_audience(*final(v)) == validation_audience(*old(v)),
        validation_required_claims(*final(v)) == validation_required_claims(*old(v)),
        validation_algorithms(*final(v)) == validation_algorithms(*old(v)),
        validation_flags(*final(v)) == validation_flags(*old(v)),
{
    v.set_issuer(&[iss])
}

/// Calls `Validation::set_required_spec_claims`, which replaces the required
/// claims by the given names.
#[verifier::external_body]
pub(crate) fn validation_set_required_claims(v: &mut Validation, claims: &Vec<String>)
    ensures
        validation_required_claims(*final(v)) == string_views(claims@).to_set(),
        validation_audience(*final(v)) == validation_audience(*old(v)),
        validation_issuer(*final(v)) == validation_issuer(*old(v)),
        validation_algorithms(*final(v)) == validation_algorithms(*old(v)),
        validation_flags(*final(v)) == validation_flags(*old(v)),
{
    v.set_required_spec_claims(claims.as_slice())
}

/// What `EncodingKey::from_secret` returns for a secret.
pub uninterp spec fn hmac_encoding_key(secret: Seq<u8>) -> EncodingKey;

/// What `EncodingKey::from_rsa_pem` returns for a PEM text.
pub uninterp spec fn rsa_encoding_key(pem: Seq<u8>) -> Result<EncodingKey, JwtError>;

/// What `EncodingKey::from_ec_pem` returns for a PEM text.
pub uninterp spec fn ec_encoding_key(pem: Seq<u8>) -> Result<EncodingKey, JwtError>;

/// What `EncodingKey::from_ed_pem` returns for a PEM text.
pub uninterp spec fn ed_encoding_key(pem: Seq<u8>) -> Result<EncodingKey, JwtError>;

/// What `DecodingKey::from_secret` returns for a secret.
pub uninterp spec fn hmac_decoding_key(secret: Seq<u8>) -> DecodingKey;

/// What `DecodingKey::from_rsa_pem` returns for a PEM text.
pub uninterp spec fn rsa_decoding_key(pem: Seq<u8>) -> Result<DecodingKey, JwtError>;

/// What `DecodingKey::from_ec_pem` returns for a PEM text.
pub uninterp spec fn ec_decoding_key(pem: Seq<u8>) -> Result<DecodingKey, JwtError>;

/// What `DecodingKey::from_ed_pem` returns for a PEM text.
pub uninterp spec fn ed_decoding_key(pem: Seq<u8>) -> Result<DecodingKey, JwtError>;

/// Calls `EncodingKey::from_secret`.
#[verifier::external_body]
pub(crate) fn encoding_key_from_secret(secret: &[u8]) -> (k: EncodingKey)
    ensures
        k == hmac_encoding_key(secret@),
{
    EncodingKey::from_secret(secret)
}

/// Calls `EncodingKey::from_rsa_pem`.
#[verifier::external_body]
pub(crate) fn encoding_key_from_rsa_pem(pem: &[u8]) -> (r: Result<EncodingKey, JwtError>)
    ensures
        r == rsa_encoding_key(pem@),
{
    EncodingKey::from_rsa_pem(pem)
}

/// Calls `EncodingKey::from_ec_pem`.
#[verifier::external_body]
pub(crate) fn encoding_key_from_ec_pem(pem: &[u8]) -> (r: Result<EncodingKey, JwtError>)
    ensures
        r == ec_encoding_key(pem@),
{
    EncodingKey::from_ec_pem(pem)
}

/// Calls `EncodingKey::from_ed_pem`.
#[verifier::external_body]
pub(crate) fn encoding_key_from_ed_pem(pem: &[u8]) -> (r: Result<EncodingKey, JwtError>)
    ensures
        r == ed_encoding_key(pem@),
{
    EncodingKey::from_ed_pem(pem)
}

/// Calls `DecodingKey::from_secret`.
#[verifier::external_body]
pub(crate) fn decoding_key_from_secret(secret: &[u8]) -> (k: DecodingKey)
    ensures
        k == hmac_decoding_key(secret@),
{
    DecodingKey::from_secret(secret)
}

/// Calls `DecodingKey::from_rsa_pem`.
#[verifier::external_body]
pub(crate) fn decoding_key_from_rsa_pem(pem: &[u8]) -> (r: Result<DecodingKey, JwtError>)
    ensures
        r == rsa_decoding_key(pem@),
{
    DecodingKey::from_rsa_pem(pem)
}

/// Calls `DecodingKey::from_ec_pem`.
#[verifier::external_body]
pub(crate) fn decoding_key_from_ec_pem(pem: &[u8]) -> (r: Result<DecodingKey, JwtError>)
    ensures
        r == ec_decoding_key(pem@),
{
    DecodingKey::from_ec_pem(pem)
}

/// Calls `DecodingKey::from_ed_pem`.
#[verifier::external_body]
pub(crate) fn decoding_key_from_ed_pem(pem: &[u8]) -> (r: Result<DecodingKey, JwtError>)
    ensures
        r == ed_decoding_key(pem@),
{
    DecodingKey::from_ed_pem(pem)
}

/// What `DecodingKey::from_jwk` returns for a key.
pub uninterp spec fn jwk_decoding_key(jwk: Jwk) -> Result<DecodingKey, JwtError>;

/// Calls `DecodingKey::from_jwk`.
#[verifier::external_body]
pub(crate) fn decoding_key_from_jwk(jwk: &Jwk) -> (r: Result<DecodingKey, JwtError>)
    ensures
        r == jwk_decoding_key(*jwk),
{
    DecodingKey::from_jwk(jwk)
}

/// The text that the `Display` of the crate's `Error` writes for an error.
pub uninterp spec fn jwt_error_text(e: JwtError) -> Seq<char>;

/// Formats `what` followed by the text of `e`.
#[verifier::external_body]
pub(crate) fn describe_key_error(what: &str, e: &JwtError) -> (m: String)
    ensures
        m@ == what@ + jwt_error_text(*e),
{
    format!("{}{}", what, e)
}

/// What `Duration::from_secs` returns for a number of seconds.
pub uninterp spec fn seconds(secs: u64) -> Duration;

/// Calls `Duration::from_secs`.
#[verifier::external_body]
pub(crate) fn duration_from_secs(secs: u64) -> (d: Duration)
    ensures
        d == seconds(secs),
{
    Duration::from_secs(secs)
}

} // verus!
