//! Builder for JWT signers and verifiers.
//!
//! The builder's type parameter records the configuration step: from
//! `Initial`, setting a private key leads to `WithPrivateKey` (a signer is
//! built), and setting a public key or enabling key resolution leads to
//! `WithPublicKey` (a verifier is built).

use vstd::prelude::*;
use vstd::utf8::encode_utf8;
use core::marker::PhantomData;
use core::time::Duration;
use jsonwebtoken_aws_lc::{DecodingKey, EncodingKey, Validation};
use crate::auth::algorithm::{family, family_of, Algorithm, KeyFamily};
use crate::auth::errors::{AuthError, AuthErrorView};
use crate::auth::jwt_keys::{
    decoding_key_from_ec_pem, decoding_key_from_ed_pem, decoding_key_from_rsa_pem,
    decoding_key_from_secret, describe_key_error, jwt_error_text, duration_from_secs, ec_decoding_key,
    ec_encoding_key, ed_decoding_key, ed_encoding_key, encoding_key_from_ec_pem,
    encoding_key_from_ed_pem, encoding_key_from_rsa_pem, encoding_key_from_secret,
    hmac_decoding_key, hmac_encoding_key, rsa_decoding_key, rsa_encoding_key, seconds,
    default_validation_flags, validation_algorithms, validation_audience, validation_flags, validation_issuer, validation_new,
    validation_required_claims, validation_set_audience, validation_set_issuer,
    validation_set_required_claims,
};
use crate::auth::state;
use crate::workload::string_views;

verus! {

/// Token lifetime of a fresh builder, in seconds (one hour).
pub const DEFAULT_TOKEN_SECONDS: u64 = 3600;

/// Builder for JWT authentication configuration.
pub struct JwtBuilder<S = state::Initial> {
    issuer: Option<String>,
    audience: Option<String>,
    subject: Option<String>,
    private_key: Option<String>,
    public_key: Option<String>,
    algorithm: Algorithm,
    token_duration: Duration,
    auto_resolve_keys: bool,
    required_claims: Vec<String>,
    _state: PhantomData<S>,
}

/// The mathematical form of a builder's configuration.
pub struct BuilderView {
    pub issuer: Option<Seq<char>>,
    pub audience: Option<Seq<char>>,
    pub subject: Option<Seq<char>>,
    pub private_key: Option<Seq<char>>,
    pub public_key: Option<Seq<char>>,
    pub algorithm: Algorithm,
    pub token_duration: Duration,
    pub auto_resolve_keys: bool,
    pub required_claims: Seq<Seq<char>>,
}

/// The character view of an optional string.
pub open spec fn opt_view(o: Option<String>) -> Option<Seq<char>> {
    match o {
        Some(s) => Some(s@),
        None => None,
    }
}

impl<S> View for JwtBuilder<S> {
    type V = BuilderView;

    closed spec fn view(&self) -> BuilderView {
        BuilderView {
            issuer: opt_view(self.issuer),
            audience: opt_view(self.audience),
            subject: opt_view(self.subject),
            private_key: opt_view(self.private_key),
            public_key: opt_view(self.public_key),
            algorithm: self.algorithm,
            token_duration: self.token_duration,
            auto_resolve_keys: self.auto_resolve_keys,
            required_claims: string_views(self.required_claims@),
        }
    }
}

/// The configuration of a fresh builder: HS256, a one-hour token lifetime,
/// no key, no claim requirements.
pub open spec fn initial_view() -> BuilderView {
    BuilderView {
        issuer: None,
        audience: None,
        subject: None,
        private_key: None,
        public_key: None,
        algorithm: Algorithm::HS256,
        token_duration: seconds(DEFAULT_TOKEN_SECONDS),
        auto_resolve_keys: false,
        required_claims: Seq::empty(),
    }
}

/// The configured JWT component that `build` returns: a signer when it
/// holds an encoding key, a verifier when it holds a decoding key or
/// resolves its keys from the issuer.
pub struct Jwt {
    pub issuer: Option<String>,
    pub audience: Option<String>,
    pub subject: Option<String>,
    pub token_duration: Duration,
    pub validation: Validation,
    pub encoding_key: Option<EncodingKey>,
    pub decoding_key: Option<DecodingKey>,
    /// whether verification keys are fetched from the issuer
    pub resolve_keys: bool,
}

/// The validation settings a builder configures: its algorithm, its audience
/// and issuer when set, and its required claims when there are any (else the
/// `exp` claim); every other setting is the default of `Validation::new`.
pub open spec fn validation_matches(v: Validation, b: BuilderView) -> bool {
    &&& validation_flags(v) == default_validation_flags()
    &&& validation_algorithms(v) == seq![b.algorithm]
    &&& validation_audience(v) == match b.audience {
        Some(a) => Some(set![a]),
        None => None::<Set<Seq<char>>>,
    }
    &&& validation_issuer(v) == match b.issuer {
        Some(i) => Some(set![i]),
        None => None::<Set<Seq<char>>>,
    }
    &&& validation_required_claims(v) == if b.required_claims.len() == 0 {
        set!["exp"@]
    } else {
        b.required_claims.to_set()
    }
}

/// The parts of a built component that come straight from the builder.
pub open spec fn carries(j: Jwt, b: BuilderView) -> bool {
    &&& opt_view(j.issuer) == b.issuer
    &&& opt_view(j.audience) == b.audience
    &&& opt_view(j.subject) == b.subject
    &&& j.token_duration == b.token_duration
    &&& validation_matches(j.validation, b)
}

/// The key bytes of a key given as text.
pub open spec fn key_bytes(k: Seq<char>) -> Seq<u8> {
    encode_utf8(k)
}

/// The encoding key, or the error text, for a private key.
pub open spec fn signer_key(a: Algorithm, key: Seq<char>) -> Result<EncodingKey, Seq<char>> {
    match family_of(a) {
        KeyFamily::Hmac => Ok(hmac_encoding_key(key_bytes(key))),
        KeyFamily::Rsa => match rsa_encoding_key(key_bytes(key)) {
            Ok(k) => Ok(k),
            Err(e) => Err("Invalid RSA private key: "@ + jwt_error_text(e)),
        },
        KeyFamily::Ec => match ec_encoding_key(key_bytes(key)) {
            Ok(k) => Ok(k),
            Err(e) => Err("Invalid EC private key: "@ + jwt_error_text(e)),
        },
        KeyFamily::Ed => match ed_encoding_key(key_bytes(key)) {
            Ok(k) => Ok(k),
            Err(e) => Err("Invalid EdDSA private key: "@ + jwt_error_text(e)),
        },
    }
}

/// The decoding key, or the error text, for a public key.
pub open spec fn verifier_key(a: Algorithm, key: Seq<char>) -> Result<DecodingKey, Seq<char>> {
    match family_of(a) {
        KeyFamily::Hmac => Ok(hmac_decoding_key(key_bytes(key))),
        KeyFamily::Rsa => match rsa_decoding_key(key_bytes(key)) {
            Ok(k) => Ok(k),
            Err(e) => Err("Invalid RSA public key: "@ + jwt_error_text(e)),
        },
        KeyFamily::Ec => match ec_decoding_key(key_bytes(key)) {
            Ok(k) => Ok(k),
            Err(e) => Err("Invalid EC public key: "@ + jwt_error_text(e)),
        },
        KeyFamily::Ed => match ed_decoding_key(key_bytes(key)) {
            Ok(k) => Ok(k),
            Err(e) => Err("Invalid EdDSA public key: "@ + jwt_error_text(e)),
        },
    }
}

impl Default for JwtBuilder<state::Initial> {
    fn default() -> (b: Self)
        ensures
            b@ == initial_view(),
    {
        let b = JwtBuilder {
            issuer: None,
            audience: None,
            subject: None,
            private_key: None,
            public_key: None,
            algorithm: Algorithm::HS256,
            token_duration: duration_from_secs(DEFAULT_TOKEN_SECONDS),
            auto_resolve_keys: false,
            required_claims: Vec::new(),
            _state: PhantomData,
        };
        proof {
            assert(b@.required_claims =~= Seq::<Seq<char>>::empty());
        }
        b
    }
}

impl<S> JwtBuilder<S> {
    /// The validation settings of this configuration.
    fn build_validation(&self) -> (v: Validation)
        ensures
            validation_matches(v, self@),
    {
        let mut validation = validation_new(self.algorithm);
        if let Some(audience) = &self.audience {
            validation_set_audience(&mut validation, audience);
        }
        if let Some(issuer) = &self.issuer {
            validation_set_issuer(&mut validation, issuer);
        }
        if self.required_claims.len() != 0 {
            validation_set_required_claims(&mut validation, &self.required_claims);
        }
        validation
    }
}

impl JwtBuilder<state::Initial> {
    /// Creates a builder with the default configuration.
    pub fn new() -> (b: Self)
        ensures
            b@ == initial_view(),
    {
        Self::default()
    }

    /// Sets the issuer of the tokens.
    pub fn issuer(self, issuer: &str) -> (b: Self)
        ensures
            b@ == (BuilderView { issuer: Some(issuer@), ..self@ }),
    {
        JwtBuilder { issuer: Some(String::from_str(issuer)), ..self }
    }

    /// Sets the audience of the tokens.
    pub fn audience(self, audience: &str) -> (b: Self)
        ensures
            b@ == (BuilderView { audience: Some(audience@), ..self@ }),
    {
        JwtBuilder { audience: Some(String::from_str(audience)), ..self }
    }

    /// Sets the subject of the tokens.
    pub fn subject(self, subject: &str) -> (b: Self)
        ensures
            b@ == (BuilderView { subject: Some(subject@), ..self@ }),
    {
        JwtBuilder { subject: Some(String::from_str(subject)), ..self }
    }

    /// Adds `claim` to the required claims.
    fn require_claim(self, claim: &str) -> (b: Self)
        ensures
            b@ == (BuilderView { required_claims: self@.required_claims.push(claim@), ..self@ }),
    {
        let mut required_claims = self.required_claims;
        required_claims.push(String::from_str(claim));
        let b = JwtBuilder { required_claims, ..self };
        proof {
            assert(b@.required_claims =~= self@.required_claims.push(claim@));
        }
        b
    }

    /// Requires the `exp` (expiration) claim.
    pub fn require_exp(self) -> (b: Self)
        ensures
            b@ == (BuilderView { required_claims: self@.required_claims.push("exp"@), ..self@ }),
    {
        self.require_claim("exp")
    }

    /// Requires the `nbf` (not before) claim.
    pub fn require_nbf(self) -> (b: Self)
        ensures
            b@ == (BuilderView { required_claims: self@.required_claims.push("nbf"@), ..self@ }),
    {
        self.require_claim("nbf")
    }

    /// Requires the `aud` (audience) claim.
    pub fn require_aud(self) -> (b: Self)
        ensures
            b@ == (BuilderView { required_claims: self@.required_claims.push("aud"@), ..self@ }),
    {
        self.require_claim("aud")
    }

    /// Requires the `iss` (issuer) claim.
    pub fn require_iss(self) -> (b: Self)
        ensures
            b@ == (BuilderView { required_claims: self@.required_claims.push("iss"@), ..self@ }),
    {
        self.require_claim("iss")
    }

    /// Requires the `sub` (subject) claim.
    pub fn require_sub(self) -> (b: Self)
        ensures
            b@ == (BuilderView { required_claims: self@.required_claims.push("sub"@), ..self@ }),
    {
        self.require_claim("sub")
    }

    /// Sets the signing algorithm and private key; the builder then builds a
    /// signer.
    pub fn private_key(self, algorithm: Algorithm, private_key: &str) -> (b: JwtBuilder<state::WithPrivateKey>)
        ensures
            b@ == (BuilderView {
                private_key: Some(private_key@),
                public_key: None,
                algorithm,
                ..self@
            }),
    {
        JwtBuilder {
            issuer: self.issuer,
            audience: self.audience,
            subject: self.subject,
            private_key: Some(String::from_str(private_key)),
            public_key: None,
            algorithm,
            token_duration: self.token_duration,
            auto_resolve_keys: self.auto_resolve_keys,
            required_claims: self.required_claims,
            _state: PhantomData,
        }
    }

    /// Sets the signature algorithm and public key; the builder then builds
    /// a verifier.
    pub fn public_key(self, algorithm: Algorithm, public_key: &str) -> (b: JwtBuilder<state::WithPublicKey>)
        ensures
            b@ == (BuilderView {
                private_key: None,
                public_key: Some(public_key@),
                algorithm,
                ..self@
            }),
    {
        JwtBuilder {
            issuer: self.issuer,
            audience: self.audience,
            subject: self.subject,
            private_key: None,
            public_key: Some(String::from_str(public_key)),
            algorithm,
            token_duration: self.token_duration,
            auto_resolve_keys: self.auto_resolve_keys,
            required_claims: self.required_claims,
            _state: PhantomData,
        }
    }

    /// Enables or disables fetching the verification keys from the issuer;
    /// the builder then builds a verifier.
    pub fn auto_resolve_keys(self, enable: bool) -> (b: JwtBuilder<state::WithPublicKey>)
        ensures
            b@ == (BuilderView {
                private_key: None,
                public_key: None,
                auto_resolve_keys: enable,
                ..self@
            }),
    {
        JwtBuilder {
            issuer: self.issuer,
            audience: self.audience,
            subject: self.subject,
            private_key: None,
            public_key: None,
            algorithm: self.algorithm,
            token_duration: self.token_duration,
            auto_resolve_keys: enable,
            required_claims: self.required_claims,
            _state: PhantomData,
        }
    }
}

impl JwtBuilder<state::WithPrivateKey> {
    /// Sets the lifetime of the signed tokens.
    pub fn token_duration(self, duration: Duration) -> (b: Self)
        ensures
            b@ == (BuilderView { token_duration: duration, ..self@ }),
    {
        JwtBuilder { token_duration: duration, ..self }
    }

    /// Builds the signer: the private key is read according to the family of
    /// the algorithm (a shared secret, or an RSA, EC or EdDSA key in PEM form).
    /// Without a private key the configuration is refused.
    pub fn build(self) -> (r: Result<Jwt, AuthError>)
        ensures
            self@.private_key is None ==> (r matches Err(e)
                && e@ == AuthErrorView::ConfigError("Private key must be set in WithPrivateKey state"@)),
            self@.private_key is Some ==> match signer_key(self@.algorithm, self@.private_key->Some_0) {
                Ok(k) => r matches Ok(j) && {
                    &&& carries(j, self@)
                    &&& j.encoding_key == Some(k)
                    &&& j.decoding_key is None
                    &&& !j.resolve_keys
                },
                Err(text) => r matches Err(e) && e@ == AuthErrorView::ConfigError(text),
            },
    {
        let validation = self.build_validation();
        let encoding_key = match &self.private_key {
            Some(key) => {
                let bytes = key.as_str().as_bytes();
                match family(self.algorithm) {
                    KeyFamily::Hmac => encoding_key_from_secret(bytes),
                    KeyFamily::Rsa => match encoding_key_from_rsa_pem(bytes) {
                        Ok(k) => k,
                        Err(e) => {
                            return Err(AuthError::ConfigError(describe_key_error("Invalid RSA private key: ", &e)));
                        },
                    },
                    KeyFamily::Ec => match encoding_key_from_ec_pem(bytes) {
                        Ok(k) => k,
                        Err(e) => {
                            return Err(AuthError::ConfigError(describe_key_error("Invalid EC private key: ", &e)));
                        },
                    },
                    KeyFamily::Ed => match encoding_key_from_ed_pem(bytes) {
                        Ok(k) => k,
                        Err(e) => {
                            return Err(AuthError::ConfigError(describe_key_error("Invalid EdDSA private key: ", &e)));
                        },
                    },
                }
            },
            None => {
                return Err(AuthError::ConfigError(String::from_str("Private key must be set in WithPrivateKey state")));
            },
        };
        Ok(Jwt {
            issuer: self.issuer,
            audience: self.audience,
            subject: self.subject,
            token_duration: self.token_duration,
            validation,
            encoding_key: Some(encoding_key),
            decoding_key: None,
            resolve_keys: false,
        })
    }
}

impl JwtBuilder<state::WithPublicKey> {
    /// Builds the verifier: with key resolution enabled the keys come from
    /// the issuer; otherwise the public key is read according to the family
    /// of the algorithm. Without either the configuration is refused.
    pub fn build(self) -> (r: Result<Jwt, AuthError>)
        ensures
            !self@.auto_resolve_keys && self@.public_key is None ==> (r matches Err(e)
                && e@ == AuthErrorView::ConfigError("Public key must be set in WithPublicKey state"@)),
            self@.auto_resolve_keys ==> (r matches Ok(j) && {
                &&& carries(j, self@)
                &&& j.encoding_key is None
                &&& j.decoding_key is None
                &&& j.resolve_keys
            }),
            !self@.auto_resolve_keys && self@.public_key is Some ==> match verifier_key(self@.algorithm, self@.public_key->Some_0) {
                Ok(k) => r matches Ok(j) && {
                    &&& carries(j, self@)
                    &&& j.encoding_key is None
                    &&& j.decoding_key == Some(k)
                    &&& !j.resolve_keys
                },
                Err(text) => r matches Err(e) && e@ == AuthErrorView::ConfigError(text),
            },
    {
        let validation = self.build_validation();
        let (resolve_keys, decoding_key) = if self.auto_resolve_keys {
            (true, None)
        } else {
            let decoding_key = match &self.public_key {
                Some(key) => {
                    let bytes = key.as_str().as_bytes();
                    match family(self.algorithm) {
                        KeyFamily::Hmac => decoding_key_from_secret(bytes),
                        KeyFamily::Rsa => match decoding_key_from_rsa_pem(bytes) {
                            Ok(k) => k,
                            Err(e) => {
                                return Err(AuthError::ConfigError(describe_key_error("Invalid RSA public key: ", &e)));
                            },
                        },
                        KeyFamily::Ec => match decoding_key_from_ec_pem(bytes) {
                            Ok(k) => k,
                            Err(e) => {
                                return Err(AuthError::ConfigError(describe_key_error("Invalid EC public key: ", &e)));
                            },
                        },
                        KeyFamily::Ed => match decoding_key_from_ed_pem(bytes) {
                            Ok(k) => k,
                            Err(e) => {
                                return Err(AuthError::ConfigError(describe_key_error("Invalid EdDSA public key: ", &e)));
                            },
                        },
                    }
                },
                None => {
                    return Err(AuthError::ConfigError(String::from_str("Public key must be set in WithPublicKey state")));
                },
            };
            (false, Some(decoding_key))
        };
        Ok(Jwt {
            issuer: self.issuer,
            audience: self.audience,
            subject: self.subject,
            token_duration: self.token_duration,
            validation,
            encoding_key: None,
            decoding_key,
            resolve_keys,
        })
    }
}

} // verus!
