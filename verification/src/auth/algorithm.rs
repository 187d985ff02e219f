//! The signature algorithms of JSON Web Tokens and the algorithms that a
//! JSON Web Key may declare.

use vstd::prelude::*;

verus! {

/// A JWT signature algorithm.
#[derive(Debug, Clone, Copy, PartialEq, Eq, Structural)]
pub enum Algorithm {
    /// HMAC using SHA-256
    HS256,
    /// HMAC using SHA-384
    HS384,
    /// HMAC using SHA-512
    HS512,
    /// ECDSA using SHA-256
    ES256,
    /// ECDSA using SHA-384
    ES384,
    /// RSASSA-PKCS1-v1_5 using SHA-256
    RS256,
    /// RSASSA-PKCS1-v1_5 using SHA-384
    RS384,
    /// RSASSA-PKCS1-v1_5 using SHA-512
    RS512,
    /// RSASSA-PSS using SHA-256
    PS256,
    /// RSASSA-PSS using SHA-384
    PS384,
    /// RSASSA-PSS using SHA-512
    PS512,
    /// Edwards-curve Digital Signature Algorithm
    EdDSA,
}

/// The algorithm that a JSON Web Key declares; it includes encryption
/// algorithms that sign nothing.
#[derive(Debug, Clone, Copy, PartialEq, Eq, Structural)]
pub enum KeyAlgorithm {
    HS256,
    HS384,
    HS512,
    ES256,
    ES384,
    RS256,
    RS384,
    RS512,
    PS256,
    PS384,
    PS512,
    EdDSA,
    /// RSAES-PKCS1-V1_5
    RSA1_5,
    /// RSAES-OAEP using SHA-1
    RSA_OAEP,
    /// RSAES-OAEP-256 using SHA-2
    RSA_OAEP_256,
}

/// The kind of key material an algorithm uses.
#[derive(Debug, Clone, Copy, PartialEq, Eq, Structural)]
pub enum KeyFamily {
    /// a shared secret
    Hmac,
    /// an RSA key in PEM form
    Rsa,
    /// an elliptic-curve key in PEM form
    Ec,
    /// an Edwards-curve key in PEM form
    Ed,
}

/// The key family of each algorithm.
pub open spec fn family_of(a: Algorithm) -> KeyFamily {
    match a {
        Algorithm::HS256 | Algorithm::HS384 | Algorithm::HS512 => KeyFamily::Hmac,
        Algorithm::RS256 | Algorithm::RS384 | Algorithm::RS512 | Algorithm::PS256
        | Algorithm::PS384 | Algorithm::PS512 => KeyFamily::Rsa,
        Algorithm::ES256 | Algorithm::ES384 => KeyFamily::Ec,
        Algorithm::EdDSA => KeyFamily::Ed,
    }
}

/// The signature algorithm that a key algorithm names, if it names one.
pub open spec fn signing_algorithm_of(k: KeyAlgorithm) -> Option<Algorithm> {
    match k {
        KeyAlgorithm::HS256 => Some(Algorithm::HS256),
        KeyAlgorithm::HS384 => Some(Algorithm::HS384),
        KeyAlgorithm::HS512 => Some(Algorithm::HS512),
        KeyAlgorithm::ES256 => Some(Algorithm::ES256),
        KeyAlgorithm::ES384 => Some(Algorithm::ES384),
        KeyAlgorithm::RS256 => Some(Algorithm::RS256),
        KeyAlgorithm::RS384 => Some(Algorithm::RS384),
        KeyAlgorithm::RS512 => Some(Algorithm::RS512),
        KeyAlgorithm::PS256 => Some(Algorithm::PS256),
        KeyAlgorithm::PS384 => Some(Algorithm::PS384),
        KeyAlgorithm::PS512 => Some(Algorithm::PS512),
        KeyAlgorithm::EdDSA => Some(Algorithm::EdDSA),
        _ => None,
    }
}

/// The name of a signature algorithm, as the JWT standards spell it.
pub open spec fn algorithm_text(a: Algorithm) -> Seq<char> {
    match a {
        Algorithm::HS256 => "HS256"@,
        Algorithm::HS384 => "HS384"@,
        Algorithm::HS512 => "HS512"@,
        Algorithm::ES256 => "ES256"@,
        Algorithm::ES384 => "ES384"@,
        Algorithm::RS256 => "RS256"@,
        Algorithm::RS384 => "RS384"@,
        Algorithm::RS512 => "RS512"@,
        Algorithm::PS256 => "PS256"@,
        Algorithm::PS384 => "PS384"@,
        Algorithm::PS512 => "PS512"@,
        Algorithm::EdDSA => "EdDSA"@,
    }
}

/// The family of an algorithm follows its name: `HS` names a shared secret,
/// `RS` and `PS` an RSA key, `ES` an elliptic-curve key, and `EdDSA` an
/// Edwards-curve key.
pub proof fn law_family_follows_name(a: Algorithm)
    ensures
        family_of(a) == KeyFamily::Hmac <==> algorithm_text(a).take(2) == "HS"@,
        family_of(a) == KeyFamily::Rsa <==> (algorithm_text(a).take(2) == "RS"@ || algorithm_text(a).take(2) == "PS"@),
        family_of(a) == KeyFamily::Ec <==> algorithm_text(a).take(2) == "ES"@,
        family_of(a) == KeyFamily::Ed <==> algorithm_text(a) == "EdDSA"@,
{
    reveal_strlit("HS256");
    reveal_strlit("HS384");
    reveal_strlit("HS512");
    reveal_strlit("ES256");
    reveal_strlit("ES384");
    reveal_strlit("RS256");
    reveal_strlit("RS384");
    reveal_strlit("RS512");
    reveal_strlit("PS256");
    reveal_strlit("PS384");
    reveal_strlit("PS512");
    reveal_strlit("EdDSA");
    reveal_strlit("HS");
    reveal_strlit("RS");
    reveal_strlit("PS");
    reveal_strlit("ES");
    let t = algorithm_text(a).take(2);
    assert("HS"@ =~= seq!['H', 'S']);
    assert("RS"@ =~= seq!['R', 'S']);
    assert("PS"@ =~= seq!['P', 'S']);
    assert("ES"@ =~= seq!['E', 'S']);
    assert(t =~= seq![algorithm_text(a)[0], algorithm_text(a)[1]]);
}

/// Different algorithms have different names, and no name is that of an
/// RSA encryption algorithm.
pub proof fn law_algorithm_names_distinct(a: Algorithm, b: Algorithm)
    ensures
        a != b ==> algorithm_text(a) != algorithm_text(b),
        algorithm_text(a).take(3) != "RSA"@,
{
    reveal_strlit("HS256");
    reveal_strlit("HS384");
    reveal_strlit("HS512");
    reveal_strlit("ES256");
    reveal_strlit("ES384");
    reveal_strlit("RS256");
    reveal_strlit("RS384");
    reveal_strlit("RS512");
    reveal_strlit("PS256");
    reveal_strlit("PS384");
    reveal_strlit("PS512");
    reveal_strlit("EdDSA");
    reveal_strlit("RSA");
    let (x, y) = (algorithm_text(a), algorithm_text(b));
    if a != b && x == y {
        assert(x[0] == y[0] && x[1] == y[1] && x[2] == y[2] && x[3] == y[3] && x[4] == y[4]);
        assert(false);
    }
    assert(x.len() == 5);
    if algorithm_text(a).take(3) == "RSA"@ {
        assert(algorithm_text(a).take(3)[2] == algorithm_text(a)[2]);
    }
}

/// The key family of `a`.
pub fn family(a: Algorithm) -> (f: KeyFamily)
    ensures
        f == family_of(a),
{
    match a {
        Algorithm::HS256 | Algorithm::HS384 | Algorithm::HS512 => KeyFamily::Hmac,
        Algorithm::RS256 | Algorithm::RS384 | Algorithm::RS512 | Algorithm::PS256
        | Algorithm::PS384 | Algorithm::PS512 => KeyFamily::Rsa,
        Algorithm::ES256 | Algorithm::ES384 => KeyFamily::Ec,
        Algorithm::EdDSA => KeyFamily::Ed,
    }
}

} // verus!
