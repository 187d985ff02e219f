//! Key resolution from an issuer's JSON Web Key Set (JWKS): where the set
//! is published, and which of its keys verifies a token.
//!
//! Fetching and caching the set is network work done by the caller; this
//! module decides what is fetched and what is done with the answer.

use vstd::prelude::*;
use jsonwebtoken_aws_lc::jwk::{Jwk, JwkSet, KeyAlgorithm as JwkAlgorithm};
use jsonwebtoken_aws_lc::{Algorithm as JwtAlgorithm, DecodingKey, Header};
use url::{ParseError as UrlParseError, Url};
use serde_json::Value;
use crate::auth::algorithm::{
    algorithm_text, law_algorithm_names_distinct, signing_algorithm_of, Algorithm, KeyAlgorithm,
};
use crate::auth::errors::{AuthError, AuthErrorView};
use crate::auth::jwt_keys::{decoding_key_from_jwk, describe_key_error, jwk_decoding_key, jwt_error_text};

verus! {

#[verifier::external_type_specification]
#[verifier::external_body]
pub struct ExUrl(Url);

#[verifier::external_type_specification]
#[verifier::external_body]
pub struct ExJwkSet(JwkSet);

#[verifier::external_type_specification]
#[verifier::external_body]
pub struct ExHeader(Header);

#[verifier::external_type_specification]
#[verifier::external_body]
pub struct ExJsonValue(Value);

#[verifier::external_type_specification]
#[verifier::external_body]
pub struct ExJsonError(serde_json::Error);

#[verifier::external_type_specification]
#[verifier::external_body]
pub struct ExUrlParseError(UrlParseError);

/// What the resolver reads of a key of the set: its id and its declared
/// algorithm.
pub struct KeyInfo {
    pub key_id: Option<String>,
    pub key_algorithm: Option<KeyAlgorithm>,
}

/// The mathematical form of a `KeyInfo`.
pub struct KeyInfoView {
    pub key_id: Option<Seq<char>>,
    pub key_algorithm: Option<KeyAlgorithm>,
}

impl View for KeyInfo {
    type V = KeyInfoView;

    open spec fn view(&self) -> KeyInfoView {
        KeyInfoView {
            key_id: match self.key_id {
                Some(s) => Some(s@),
                None => None,
            },
            key_algorithm: self.key_algorithm,
        }
    }
}

/// The views of a sequence of key descriptions.
pub open spec fn key_views(keys: Seq<KeyInfo>) -> Seq<KeyInfoView> {
    keys.map_values(|k: KeyInfo| k@)
}

/// The text of the error for a key algorithm that signs nothing.
pub open spec fn unsupported_text(k: KeyAlgorithm) -> Seq<char> {
    match k {
        KeyAlgorithm::RSA1_5 => "Unsupported key algorithm: RSA1_5"@,
        KeyAlgorithm::RSA_OAEP => "Unsupported key algorithm: RSA_OAEP"@,
        KeyAlgorithm::RSA_OAEP_256 => "Unsupported key algorithm: RSA_OAEP_256"@,
        _ => Seq::empty(),
    }
}

/// The signature algorithm that a key algorithm names; the encryption
/// algorithms are refused.
pub fn key_alg_to_algorithm(alg: KeyAlgorithm) -> (r: Result<Algorithm, AuthError>)
    ensures
        match signing_algorithm_of(alg) {
            Some(a) => r == Ok::<Algorithm, AuthError>(a),
            None => r matches Err(e) && e@ == AuthErrorView::ConfigError(unsupported_text(alg)),
        },
{
    match alg {
        KeyAlgorithm::HS256 => Ok(Algorithm::HS256),
        KeyAlgorithm::HS384 => Ok(Algorithm::HS384),
        KeyAlgorithm::HS512 => Ok(Algorithm::HS512),
        KeyAlgorithm::ES256 => Ok(Algorithm::ES256),
        KeyAlgorithm::ES384 => Ok(Algorithm::ES384),
        KeyAlgorithm::RS256 => Ok(Algorithm::RS256),
        KeyAlgorithm::RS384 => Ok(Algorithm::RS384),
        KeyAlgorithm::RS512 => Ok(Algorithm::RS512),
        KeyAlgorithm::PS256 => Ok(Algorithm::PS256),
        KeyAlgorithm::PS384 => Ok(Algorithm::PS384),
        KeyAlgorithm::PS512 => Ok(Algorithm::PS512),
        KeyAlgorithm::EdDSA => Ok(Algorithm::EdDSA),
        KeyAlgorithm::RSA1_5 => Err(AuthError::ConfigError(String::from_str("Unsupported key algorithm: RSA1_5"))),
        KeyAlgorithm::RSA_OAEP => Err(AuthError::ConfigError(String::from_str("Unsupported key algorithm: RSA_OAEP"))),
        KeyAlgorithm::RSA_OAEP_256 => Err(AuthError::ConfigError(String::from_str("Unsupported key algorithm: RSA_OAEP_256"))),
    }
}

/// Key `k` carries the id `kid`.
pub open spec fn has_id(k: KeyInfoView, kid: Seq<char>) -> bool {
    k.key_id == Some(kid)
}

/// Key `k` declares an algorithm that names the signature algorithm `alg`.
pub open spec fn suits(k: KeyInfoView, alg: Algorithm) -> bool {
    match k.key_algorithm {
        Some(ka) => signing_algorithm_of(ka) == Some(alg),
        None => false,
    }
}

/// `c` is the first key of `keys` that carries the id `kid`.
pub open spec fn first_with_id(keys: Seq<KeyInfoView>, kid: Seq<char>, c: int) -> bool {
    &&& 0 <= c < keys.len()
    &&& has_id(keys[c], kid)
    &&& forall|j: int| 0 <= j < c ==> !has_id(#[trigger] keys[j], kid)
}

/// `c` is the first key of `keys` whose declared algorithm is `alg`.
pub open spec fn first_suiting(keys: Seq<KeyInfoView>, alg: Algorithm, c: int) -> bool {
    &&& 0 <= c < keys.len()
    &&& suits(keys[c], alg)
    &&& forall|j: int| 0 <= j < c ==> !suits(#[trigger] keys[j], alg)
}

/// The key that verifies a token whose header names the key id `kid` (if
/// any) and the algorithm `alg`: with a key id, the first key carrying that
/// id; without one, the first key whose declared algorithm is `alg`. The
/// result is the key's index, or the text of the error.
pub open spec fn selected_key(keys: Seq<KeyInfoView>, kid: Option<Seq<char>>, alg: Algorithm) -> Result<int, Seq<char>> {
    if keys.len() == 0 {
        Err("No keys found in JWKS"@)
    } else {
        match kid {
            Some(id) => if exists|i: int| 0 <= i < keys.len() && has_id(keys[i], id) {
                Ok(choose|c: int| first_with_id(keys, id, c))
            } else {
                Err("Key with ID "@ + id + " not found in JWKS"@)
            },
            None => if exists|i: int| 0 <= i < keys.len() && suits(keys[i], alg) {
                Ok(choose|c: int| first_suiting(keys, alg, c))
            } else {
                Err("No suitable key found in JWKS"@)
            },
        }
    }
}

/// When some key carries the id `kid`, a first such key exists.
proof fn lemma_first_with_id_exists(keys: Seq<KeyInfoView>, kid: Seq<char>, k: int)
    requires
        0 <= k < keys.len(),
        has_id(keys[k], kid),
    ensures
        exists|c: int| first_with_id(keys, kid, c),
    decreases k,
{
    if forall|j: int| 0 <= j < k ==> !has_id(#[trigger] keys[j], kid) {
        assert(first_with_id(keys, kid, k));
    } else {
        let j = choose|j: int| 0 <= j < k && has_id(#[trigger] keys[j], kid);
        lemma_first_with_id_exists(keys, kid, j);
    }
}

/// When some key declares the algorithm `alg`, a first such key exists.
proof fn lemma_first_suiting_exists(keys: Seq<KeyInfoView>, alg: Algorithm, k: int)
    requires
        0 <= k < keys.len(),
        suits(keys[k], alg),
    ensures
        exists|c: int| first_suiting(keys, alg, c),
    decreases k,
{
    if forall|j: int| 0 <= j < k ==> !suits(#[trigger] keys[j], alg) {
        assert(first_suiting(keys, alg, k));
    } else {
        let j = choose|j: int| 0 <= j < k && suits(#[trigger] keys[j], alg);
        lemma_first_suiting_exists(keys, alg, j);
    }
}

/// For a token that names a key id, the chosen key carries that id and no
/// earlier key of the set does; when no key carries it, the token is
/// refused.
pub proof fn law_selected_key_has_requested_id(keys: Seq<KeyInfoView>, kid: Seq<char>, alg: Algorithm)
    requires
        keys.len() > 0,
    ensures
        match selected_key(keys, Some(kid), alg) {
            Ok(i) => {
                &&& 0 <= i < keys.len()
                &&& keys[i].key_id == Some(kid)
                &&& forall|j: int| 0 <= j < i ==> (#[trigger] keys[j]).key_id != Some(kid)
            },
            Err(_) => forall|j: int| 0 <= j < keys.len() ==> (#[trigger] keys[j]).key_id != Some(kid),
        },
{
    if exists|i: int| 0 <= i < keys.len() && has_id(keys[i], kid) {
        let k = choose|i: int| 0 <= i < keys.len() && has_id(keys[i], kid);
        lemma_first_with_id_exists(keys, kid, k);
        let c = choose|c: int| first_with_id(keys, kid, c);
        assert forall|j: int| 0 <= j < c implies (#[trigger] keys[j]).key_id != Some(kid) by {
            assert(!has_id(keys[j], kid));
        }
    } else {
        assert forall|j: int| 0 <= j < keys.len() implies (#[trigger] keys[j]).key_id != Some(kid) by {
            assert(!has_id(keys[j], kid));
        }
    }
}

/// For a token that names no key id, the chosen key declares the token's
/// algorithm and no earlier key of the set does; when none declares it, the
/// token is refused.
pub proof fn law_selected_key_suits_algorithm(keys: Seq<KeyInfoView>, alg: Algorithm)
    requires
        keys.len() > 0,
    ensures
        match selected_key(keys, None, alg) {
            Ok(i) => {
                &&& 0 <= i < keys.len()
                &&& keys[i].key_algorithm matches Some(ka) && signing_algorithm_of(ka) == Some(alg)
                &&& forall|j: int| 0 <= j < i ==> !suits(#[trigger] keys[j], alg)
            },
            Err(_) => forall|j: int| 0 <= j < keys.len() ==> !suits(#[trigger] keys[j], alg),
        },
{
    if exists|i: int| 0 <= i < keys.len() && suits(keys[i], alg) {
        let k = choose|i: int| 0 <= i < keys.len() && suits(keys[i], alg);
        lemma_first_suiting_exists(keys, alg, k);
    }
}

/// A key algorithm that signs names the signature algorithm of the same
/// name; the key algorithms that sign nothing are the RSA encryption ones.
pub proof fn law_signing_algorithm_keeps_name(k: KeyAlgorithm)
    ensures
        match signing_algorithm_of(k) {
            Some(a) => algorithm_text(a) == key_algorithm_text(k),
            None => key_algorithm_text(k).take(3) == "RSA"@,
        },
{
    reveal_strlit("HS256");
    reveal_strlit("HS384");
    reveal_strlit("HS512");
    reveal_strlit("ES256");
    reveal_strlit("ES384");
    reveal_strlit("RS256");
    reveal_strlit("RS384");
    reveal_strlit("RS512");
    reveal_strlit("PS256");
    reveal_strlit("PS384");
    reveal_strlit("PS512");
    reveal_strlit("EdDSA");
    reveal_strlit("RSA1_5");
    reveal_strlit("RSA_OAEP");
    reveal_strlit("RSA_OAEP_256");
    reveal_strlit("RSA");
    if signing_algorithm_of(k) is None {
        let t = key_algorithm_text(k);
        assert(t.take(3) =~= seq![t[0], t[1], t[2]]);
        assert("RSA"@ =~= seq!['R', 'S', 'A']);
    }
}

/// A key that declares the token's algorithm by name suits the token.
pub proof fn law_key_named_like_token_suits(k: KeyInfoView, alg: Algorithm)
    requires
        k.key_algorithm matches Some(ka) && key_algorithm_text(ka) == algorithm_text(alg),
    ensures
        suits(k, alg),
{
    let ka = k.key_algorithm->Some_0;
    law_signing_algorithm_keeps_name(ka);
    match signing_algorithm_of(ka) {
        Some(a) => law_algorithm_names_distinct(a, alg),
        None => law_algorithm_names_distinct(alg, alg),
    }
}

/// For a token without a key id, a set whose first key declares the
/// token's algorithm by name gives that first key.
pub proof fn law_first_named_key_is_selected(keys: Seq<KeyInfoView>, alg: Algorithm)
    requires
        keys.len() > 0,
        keys[0].key_algorithm matches Some(ka) && key_algorithm_text(ka) == algorithm_text(alg),
    ensures
        selected_key(keys, None, alg) == Ok::<int, Seq<char>>(0),
{
    law_key_named_like_token_suits(keys[0], alg);
    assert(first_suiting(keys, alg, 0));
    let c = choose|c: int| first_suiting(keys, alg, c);
    if c > 0 {
        assert(!suits(keys[0], alg));
    }
}

/// Chooses the key of the set that verifies a token whose header names the
/// key id `kid` (if any) and the algorithm `alg`; returns its index.
pub fn select_key(keys: &Vec<KeyInfo>, kid: &Option<String>, alg: Algorithm) -> (r: Result<usize, AuthError>)
    ensures
        ({
            let ks = key_views(keys@);
            let id = match kid {
                Some(s) => Some(s@),
                None => None,
            };
            match r {
                Ok(i) => 0 <= i < keys.len() && selected_key(ks, id, alg) == Ok::<int, Seq<char>>(i as int),
                Err(e) => selected_key(ks, id, alg) matches Err(m) && e@ == AuthErrorView::ConfigError(m),
            }
        }),
{
    let ghost ks = key_views(keys@);
    if keys.len() == 0 {
        return Err(AuthError::ConfigError(String::from_str("No keys found in JWKS")));
    }
    match kid {
        Some(id) => {
            let mut i: usize = 0;
            while i < keys.len()
                invariant
                    ks == key_views(keys@),
                    i <= keys.len(),
                    forall|j: int| 0 <= j < i ==> !has_id(#[trigger] ks[j], id@),
                    *kid == Some(*id),
                    keys.len() > 0,
                decreases keys.len() - i,
            {
                let found = match &keys[i].key_id {
                    Some(k) => *k == *id,
                    None => false,
                };
                if found {
                    proof {
                        assert(has_id(ks[i as int], id@));
                        assert(first_with_id(ks, id@, i as int));
                        let c = choose|c: int| first_with_id(ks, id@, c);
                        if c < i {
                            assert(!has_id(ks[c], id@));
                        }
                        if c > i {
                            assert(!has_id(ks[i as int], id@));
                        }
                        assert(c == i);
                        assert(exists|k: int| 0 <= k < ks.len() && has_id(ks[k], id@));
                        assert(selected_key(ks, Some(id@), alg) == Ok::<int, Seq<char>>(i as int));
                    }
                    return Ok(i);
                }
                i += 1;
            }
            let mut m = String::from_str("Key with ID ");
            m.append(id.as_str());
            m.append(" not found in JWKS");
            Err(AuthError::ConfigError(m))
        },
        None => {
            let mut i: usize = 0;
            while i < keys.len()
                invariant
                    ks == key_views(keys@),
                    i <= keys.len(),
                    forall|j: int| 0 <= j < i ==> !suits(#[trigger] ks[j], alg),
                    *kid == None::<String>,
                    keys.len() > 0,
                decreases keys.len() - i,
            {
                let found = match keys[i].key_algorithm {
                    Some(ka) => match key_alg_to_algorithm(ka) {
                        Ok(a) => a == alg,
                        Err(_) => false,
                    },
                    None => false,
                };
                if found {
                    proof {
                        assert(suits(ks[i as int], alg));
                        assert(first_suiting(ks, alg, i as int));
                        let c = choose|c: int| first_suiting(ks, alg, c);
                        if c < i {
                            assert(!suits(ks[c], alg));
                        }
                        if c > i {
                            assert(!suits(ks[i as int], alg));
                        }
                        assert(c == i);
                        assert(exists|k: int| 0 <= k < ks.len() && suits(ks[k], alg));
                        assert(selected_key(ks, None, alg) == Ok::<int, Seq<char>>(i as int));
                    }
                    return Ok(i);
                }
                i += 1;
            }
            Err(AuthError::ConfigError(String::from_str("No suitable key found in JWKS")))
        },
    }
}

/// The id and algorithm that a JSON Web Key declares (its `common.key_id`
/// and `common.key_algorithm`).
pub uninterp spec fn jwk_key_info(jwk: Jwk) -> KeyInfoView;

/// Reads the declared id and algorithm of a JSON Web Key.
#[verifier::external_body]
fn key_info_of(jwk: &Jwk) -> (k: KeyInfo)
    ensures
        k@ == jwk_key_info(*jwk),
{
    let a = match jwk.common.key_algorithm {
        None => None,
        Some(a) => Some(match a {
            JwkAlgorithm::HS256 => KeyAlgorithm::HS256, JwkAlgorithm::HS384 => KeyAlgorithm::HS384, JwkAlgorithm::HS512 => KeyAlgorithm::HS512,
            JwkAlgorithm::ES256 => KeyAlgorithm::ES256, JwkAlgorithm::ES384 => KeyAlgorithm::ES384, JwkAlgorithm::RS256 => KeyAlgorithm::RS256,
            JwkAlgorithm::RS384 => KeyAlgorithm::RS384, JwkAlgorithm::RS512 => KeyAlgorithm::RS512, JwkAlgorithm::PS256 => KeyAlgorithm::PS256,
            JwkAlgorithm::PS384 => KeyAlgorithm::PS384, JwkAlgorithm::PS512 => KeyAlgorithm::PS512, JwkAlgorithm::EdDSA => KeyAlgorithm::EdDSA,
            JwkAlgorithm::RSA1_5 => KeyAlgorithm::RSA1_5, JwkAlgorithm::RSA_OAEP => KeyAlgorithm::RSA_OAEP, JwkAlgorithm::RSA_OAEP_256 => KeyAlgorithm::RSA_OAEP_256,
        }),
    };
    KeyInfo { key_id: jwk.common.key_id.clone(), key_algorithm: a }
}

/// The descriptions of a sequence of keys.
pub open spec fn jwk_infos(jwks: Seq<Jwk>) -> Seq<KeyInfoView> {
    jwks.map_values(|j: Jwk| jwk_key_info(j))
}

/// The name of a key algorithm, as its `Debug` text spells it.
pub open spec fn key_algorithm_text(k: KeyAlgorithm) -> Seq<char> {
    match k {
        KeyAlgorithm::HS256 => "HS256"@,
        KeyAlgorithm::HS384 => "HS384"@,
        KeyAlgorithm::HS512 => "HS512"@,
        KeyAlgorithm::ES256 => "ES256"@,
        KeyAlgorithm::ES384 => "ES384"@,
        KeyAlgorithm::RS256 => "RS256"@,
        KeyAlgorithm::RS384 => "RS384"@,
        KeyAlgorithm::RS512 => "RS512"@,
        KeyAlgorithm::PS256 => "PS256"@,
        KeyAlgorithm::PS384 => "PS384"@,
        KeyAlgorithm::PS512 => "PS512"@,
        KeyAlgorithm::EdDSA => "EdDSA"@,
        KeyAlgorithm::RSA1_5 => "RSA1_5"@,
        KeyAlgorithm::RSA_OAEP => "RSA_OAEP"@,
        KeyAlgorithm::RSA_OAEP_256 => "RSA_OAEP_256"@,
    }
}

/// The name of a key algorithm.
fn key_algorithm_name(k: KeyAlgorithm) -> (s: &'static str)
    ensures
        s@ == key_algorithm_text(k),
{
    match k {
        KeyAlgorithm::HS256 => "HS256",
        KeyAlgorithm::HS384 => "HS384",
        KeyAlgorithm::HS512 => "HS512",
        KeyAlgorithm::ES256 => "ES256",
        KeyAlgorithm::ES384 => "ES384",
        KeyAlgorithm::RS256 => "RS256",
        KeyAlgorithm::RS384 => "RS384",
        KeyAlgorithm::RS512 => "RS512",
        KeyAlgorithm::PS256 => "PS256",
        KeyAlgorithm::PS384 => "PS384",
        KeyAlgorithm::PS512 => "PS512",
        KeyAlgorithm::EdDSA => "EdDSA",
        KeyAlgorithm::RSA1_5 => "RSA1_5",
        KeyAlgorithm::RSA_OAEP => "RSA_OAEP",
        KeyAlgorithm::RSA_OAEP_256 => "RSA_OAEP_256",
    }
}

/// The beginning of the error text when a key with the declared algorithm
/// `a` cannot be turned into a verification key; the crate's error text
/// follows it.
pub open spec fn jwk_error_prefix(a: Option<KeyAlgorithm>) -> Seq<char> {
    "Failed to create "@ + match a {
        Some(k) => "Some("@ + key_algorithm_text(k) + ")"@,
        None => "None"@,
    } + " decoding key from JWK: "@
}

/// The beginning of the error text for a key with declared algorithm `a`.
fn jwk_error_text(a: Option<KeyAlgorithm>) -> (m: String)
    ensures
        m@ == jwk_error_prefix(a),
{
    let mut m = String::from_str("Failed to create ");
    match a {
        Some(k) => {
            m.append("Some(");
            m.append(key_algorithm_name(k));
            m.append(")");
        },
        None => {
            m.append("None");
        },
    }
    m.append(" decoding key from JWK: ");
    m
}

/// What turning `jwk` into a verification key gives: the crate's key, or a
/// configuration error whose text is `jwk_error_prefix` followed by the
/// crate's error text.
pub open spec fn decoding_outcome(jwk: Jwk, r: Result<DecodingKey, AuthError>) -> bool {
    match jwk_decoding_key(jwk) {
        Ok(k) => r matches Ok(k2) && k2 == k,
        Err(err) => r matches Err(e) && e@ == AuthErrorView::ConfigError(
            jwk_error_prefix(jwk_key_info(jwk).key_algorithm) + jwt_error_text(err),
        ),
    }
}

/// Builds the verification key of a JSON Web Key; a failure becomes a
/// configuration error whose text names the key's algorithm.
pub fn jwk_to_decoding_key(jwk: &Jwk) -> (r: Result<DecodingKey, AuthError>)
    ensures
        decoding_outcome(*jwk, r),
{
    match decoding_key_from_jwk(jwk) {
        Ok(k) => Ok(k),
        Err(e) => {
            let info = key_info_of(jwk);
            let prefix = jwk_error_text(info.key_algorithm);
            Err(AuthError::ConfigError(describe_key_error(prefix.as_str(), &e)))
        },
    }
}

/// The verification key for a token whose header names the key id `kid`
/// (if any) and the algorithm `alg`, taken from the keys `jwks` of a key
/// set: the selected key is turned into a verification key.
pub fn resolve_key_in(jwks: &Vec<Jwk>, kid: &Option<String>, alg: Algorithm) -> (r: Result<DecodingKey, AuthError>)
    ensures
        ({
            let id = match kid {
                Some(s) => Some(s@),
                None => None,
            };
            match selected_key(jwk_infos(jwks@), id, alg) {
                Err(m) => r matches Err(e) && e@ == AuthErrorView::ConfigError(m),
                Ok(i) => decoding_outcome(jwks@[i], r),
            }
        }),
{
    let mut keys: Vec<KeyInfo> = Vec::new();
    let mut j: usize = 0;
    while j < jwks.len()
        invariant
            j <= jwks.len(),
            key_views(keys@) == jwk_infos(jwks@.take(j as int)),
        decreases jwks.len() - j,
    {
        let ghost prev = keys@;
        let info = key_info_of(&jwks[j]);
        keys.push(info);
        proof {
            assert(info@ == jwk_key_info(jwks@[j as int]));
            assert(key_views(keys@) =~= key_views(prev).push(info@));
            assert(jwks@.take(j + 1) =~= jwks@.take(j as int).push(jwks@[j as int]));
            assert(jwk_infos(jwks@.take(j + 1)) =~= jwk_infos(jwks@.take(j as int)).push(jwk_key_info(jwks@[j as int])));
        }
        j += 1;
    }
    proof {
        assert(jwks@.take(j as int) =~= jwks@);
    }
    let i = match select_key(&keys, kid, alg) {
        Ok(i) => i,
        Err(e) => {
            return Err(e);
        },
    };
    jwk_to_decoding_key(&jwks[i])
}

/// The keys of a key set.
pub uninterp spec fn jwk_set_keys(set: JwkSet) -> Seq<Jwk>;

/// Reads the keys of a key set (its `keys` field).
#[verifier::external_body]
fn jwks_keys(set: &JwkSet) -> (r: &Vec<Jwk>)
    ensures
        r@ == jwk_set_keys(*set),
{
    &set.keys
}

/// The key id that a token header names (its `kid`).
pub uninterp spec fn header_key_id(h: Header) -> Option<Seq<char>>;

/// Reads the key id of a token header.
#[verifier::external_body]
fn header_kid(h: &Header) -> (r: Option<String>)
    ensures
        match r {
            Some(s) => header_key_id(*h) == Some(s@),
            None => header_key_id(*h) is None,
        },
{
    h.kid.clone()
}

/// The signature algorithm that a token header names (its `alg`).
pub uninterp spec fn header_algorithm(h: Header) -> Algorithm;

/// Reads the signature algorithm of a token header.
#[verifier::external_body]
fn header_alg(h: &Header) -> (a: Algorithm)
    ensures
        a == header_algorithm(*h),
{
    match h.alg {
        JwtAlgorithm::HS256 => Algorithm::HS256, JwtAlgorithm::HS384 => Algorithm::HS384, JwtAlgorithm::HS512 => Algorithm::HS512,
        JwtAlgorithm::ES256 => Algorithm::ES256, JwtAlgorithm::ES384 => Algorithm::ES384, JwtAlgorithm::RS256 => Algorithm::RS256,
        JwtAlgorithm::RS384 => Algorithm::RS384, JwtAlgorithm::RS512 => Algorithm::RS512, JwtAlgorithm::PS256 => Algorithm::PS256,
        JwtAlgorithm::PS384 => Algorithm::PS384, JwtAlgorithm::PS512 => Algorithm::PS512, JwtAlgorithm::EdDSA => Algorithm::EdDSA,
    }
}

/// Resolves the verification key of a token with header `token_header` from
/// the issuer's key set `jwks`: with a key id in the header, the first key
/// carrying that id; without one, the first key declaring the header's
/// algorithm.
pub fn resolve_key(jwks: &JwkSet, token_header: &Header) -> (r: Result<DecodingKey, AuthError>)
    ensures
        ({
            let keys = jwk_set_keys(*jwks);
            match selected_key(jwk_infos(keys), header_key_id(*token_header), header_algorithm(*token_header)) {
                Err(m) => r matches Err(e) && e@ == AuthErrorView::ConfigError(m),
                Ok(i) => decoding_outcome(keys[i], r),
            }
        }),
{
    let keys = jwks_keys(jwks);
    let kid = header_kid(token_header);
    let alg = header_alg(token_header);
    resolve_key_in(keys, &kid, alg)
}

/// What `serde_json::from_slice::<JwkSet>` returns for a body.
pub uninterp spec fn jwks_json(body: Seq<u8>) -> Result<JwkSet, serde_json::Error>;

/// Calls `serde_json::from_slice` to read a JSON Web Key Set.
#[verifier::external_body]
fn jwks_from_json(body: &[u8]) -> (r: Result<JwkSet, serde_json::Error>)
    ensures
        r == jwks_json(body@),
{
    serde_json::from_slice(body)
}

/// The text that the `Display` of `serde_json::Error` writes for an error.
pub uninterp spec fn json_error_text(e: serde_json::Error) -> Seq<char>;

/// Formats `what` followed by the text of `e`.
#[verifier::external_body]
fn describe_json_error(what: &str, e: &serde_json::Error) -> (m: String)
    ensures
        m@ == what@ + json_error_text(*e),
{
    format!("{}{}", what, e)
}

/// Reads the JSON Web Key Set in a response body.
pub fn parse_jwks(body: &[u8]) -> (r: Result<JwkSet, AuthError>)
    ensures
        match jwks_json(body@) {
            Ok(set) => r matches Ok(s) && s == set,
            Err(err) => r matches Err(e)
                && e@ == AuthErrorView::ConfigError("Failed to parse JWKS: "@ + json_error_text(err)),
        },
{
    match jwks_from_json(body) {
        Ok(set) => Ok(set),
        Err(e) => Err(AuthError::ConfigError(describe_json_error("Failed to parse JWKS: ", &e))),
    }
}

/// What `serde_json::from_slice::<Value>` returns for a body.
pub uninterp spec fn json_value(body: Seq<u8>) -> Result<Value, serde_json::Error>;

/// Calls `serde_json::from_slice` to read a JSON document.
#[verifier::external_body]
fn json_from_slice(body: &[u8]) -> (r: Result<Value, serde_json::Error>)
    ensures
        r == json_value(body@),
{
    serde_json::from_slice(body)
}

/// What `Value::get` returns for an object field name.
pub uninterp spec fn json_field(v: Value, key: Seq<char>) -> Option<Value>;

/// Calls `Value::get` with a field name (the field is copied out).
#[verifier::external_body]
fn json_get(v: &Value, key: &str) -> (r: Option<Value>)
    ensures
        r == json_field(*v, key@),
{
    v.get(key).cloned()
}

/// What `Value::as_str` returns: the text of a JSON string.
pub uninterp spec fn json_str(v: Value) -> Option<Seq<char>>;

/// Calls `Value::as_str` (the text is copied out).
#[verifier::external_body]
fn json_as_str(v: &Value) -> (r: Option<String>)
    ensures
        match r {
            Some(s) => json_str(*v) == Some(s@),
            None => json_str(*v) is None,
        },
{
    v.as_str().map(|s| s.to_owned())
}

/// The JWKS location that a discovery document announces: the text of its
/// `jwks_uri` field, when the body is JSON and the field is a string.
pub open spec fn announced_jwks_uri(body: Seq<u8>) -> Option<Seq<char>> {
    match json_value(body) {
        Ok(v) => match json_field(v, "jwks_uri"@) {
            Some(f) => json_str(f),
            None => None,
        },
        Err(_) => None,
    }
}

/// Reads the JWKS location from the body of a discovery document.
pub fn discovered_jwks_uri(body: &[u8]) -> (r: Option<String>)
    ensures
        match r {
            Some(s) => announced_jwks_uri(body@) == Some(s@),
            None => announced_jwks_uri(body@) is None,
        },
{
    let v = match json_from_slice(body) {
        Ok(v) => v,
        Err(_) => {
            return None;
        },
    };
    match json_get(&v, "jwks_uri") {
        Some(f) => json_as_str(&f),
        None => None,
    }
}

/// `path` without its trailing `/` characters.
pub open spec fn trim_trailing_slashes(path: Seq<char>) -> Seq<char>
    decreases path.len(),
{
    if path.len() > 0 && path.last() == '/' {
        trim_trailing_slashes(path.drop_last())
    } else {
        path
    }
}

/// `path` without its trailing `/` characters, followed by `suffix`.
pub fn well_known_path(path: &str, suffix: &str) -> (r: String)
    ensures
        r@ == trim_trailing_slashes(path@) + suffix@,
{
    let mut end = path.unicode_len();
    proof {
        assert(path@.take(end as int) =~= path@);
    }
    while end > 0 && path.get_char(end - 1) == '/'
        invariant
            end <= path@.len(),
            trim_trailing_slashes(path@) == trim_trailing_slashes(path@.take(end as int)),
        decreases end,
    {
        proof {
            assert(path@.take(end as int).drop_last() =~= path@.take(end - 1));
        }
        end -= 1;
    }
    proof {
        if end > 0 {
            assert(path@.take(end as int).last() == path@[end - 1]);
        }
    }
    let mut r = String::from_str(path.substring_char(0, end));
    r.append(suffix);
    proof {
        assert(path@.subrange(0, end as int) =~= path@.take(end as int));
    }
    r
}

/// What `Url::parse` returns for a text.
pub uninterp spec fn url_parse(s: Seq<char>) -> Result<Url, UrlParseError>;

/// Calls `Url::parse`.
#[verifier::external_body]
fn parse_url(s: &str) -> (r: Result<Url, UrlParseError>)
    ensures
        r == url_parse(s@),
{
    Url::parse(s)
}

/// The path of a URL.
pub uninterp spec fn url_path_of(u: Url) -> Seq<char>;

/// Calls `Url::path`.
#[verifier::external_body]
fn url_path(u: &Url) -> (p: String)
    ensures
        p@ == url_path_of(*u),
{
    u.path().to_owned()
}

/// The URL that `Url::set_path` makes of `u` with the path `p`.
pub uninterp spec fn url_with_path(u: Url, p: Seq<char>) -> Url;

/// Calls `Url::set_path`.
#[verifier::external_body]
fn url_set_path(u: &mut Url, path: &str)
    ensures
        *final(u) == url_with_path(*old(u), path@),
{
    u.set_path(path)
}

/// The text of a URL (its serialization, what `to_string` gives).
pub uninterp spec fn url_text(u: Url) -> Seq<char>;

/// Calls `Url::to_string`.
#[verifier::external_body]
fn url_to_string(u: &Url) -> (s: String)
    ensures
        s@ == url_text(*u),
{
    u.to_string()
}

/// The text that the `Display` of `url::ParseError` writes for an error.
pub uninterp spec fn url_error_text(e: UrlParseError) -> Seq<char>;

/// Formats `what` followed by the text of `e`.
#[verifier::external_body]
fn describe_url_error(what: &str, e: &UrlParseError) -> (m: String)
    ensures
        m@ == what@ + url_error_text(*e),
{
    format!("{}{}", what, e)
}

/// The suffix of the OpenID Connect discovery document.
pub const OPENID_CONFIGURATION_SUFFIX: &'static str = "/.well-known/openid-configuration";

/// The suffix of the standard JWKS location.
pub const JWKS_SUFFIX: &'static str = "/.well-known/jwks.json";

/// The issuer URL with its path, trailing slashes removed, followed by
/// `suffix`: where the discovery document (`OPENID_CONFIGURATION_SUFFIX`) or
/// the key set (`JWKS_SUFFIX`) of the issuer is published. Fails exactly
/// when the issuer is no URL.
pub fn issuer_url_with_suffix(issuer: &str, suffix: &str) -> (r: Result<String, AuthError>)
    ensures
        match url_parse(issuer@) {
            Ok(u) => r matches Ok(s)
                && s@ == url_text(url_with_path(u, trim_trailing_slashes(url_path_of(u)) + suffix@)),
            Err(err) => r matches Err(e)
                && e@ == AuthErrorView::ConfigError("Invalid issuer URL: "@ + url_error_text(err)),
        },
{
    let mut url = match parse_url(issuer) {
        Ok(u) => u,
        Err(e) => {
            return Err(AuthError::ConfigError(describe_url_error("Invalid issuer URL: ", &e)));
        },
    };
    let path = url_path(&url);
    let new_path = well_known_path(path.as_str(), suffix);
    url_set_path(&mut url, new_path.as_str());
    Ok(url_to_string(&url))
}

/// The JWKS location to use: the one announced by the discovery document
/// when there is one, else the standard location.
pub fn choose_jwks_uri(discovered: Option<String>, fallback: String) -> (r: String)
    ensures
        r == match discovered {
            Some(d) => d,
            None => fallback,
        },
{
    match discovered {
        Some(d) => d,
        None => fallback,
    }
}

} // verus!
