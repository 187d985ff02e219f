use agp_dataplane::auth::algorithm::{family, Algorithm, KeyAlgorithm, KeyFamily};
use agp_dataplane::auth::builder::JwtBuilder;
use agp_dataplane::auth::errors::AuthError;
use agp_dataplane::auth::cache::{use_cached_jwks, JwksCache};
use agp_dataplane::auth::resolver::{
    choose_jwks_uri, discovered_jwks_uri, issuer_url_with_suffix, jwk_to_decoding_key,
    key_alg_to_algorithm, parse_jwks, resolve_key, resolve_key_in, select_key, well_known_path,
    KeyInfo, JWKS_SUFFIX, OPENID_CONFIGURATION_SUFFIX,
};
use agp_dataplane::mcp::{mcp_reply, unknown_command, McpReply};

fn config_error_text(e: AuthError) -> String {
    match e {
        AuthError::ConfigError(s) => s,
    }
}

#[test]
fn test_jwt_builder_basic() {
    let jwt = JwtBuilder::new()
        .issuer("test-issuer")
        .audience("test-audience")
        .subject("test-subject")
        .private_key(Algorithm::HS512, "test-key")
        .build()
        .unwrap();

    assert_eq!(jwt.issuer.unwrap(), "test-issuer");
    assert_eq!(jwt.audience.unwrap(), "test-audience");
    assert_eq!(jwt.subject.unwrap(), "test-subject");
}

#[test]
fn test_jwt_builder_auto_resolve_keys() {
    let jwt = JwtBuilder::new()
        .issuer("https://example.com")
        .audience("test-audience")
        .subject("test-subject")
        .auto_resolve_keys(true)
        .build();
    assert!(jwt.is_ok());
}

#[test]
fn builder_signer_and_verifier_keys() {
    let signer = JwtBuilder::new()
        .private_key(Algorithm::HS256, "secret")
        .build()
        .unwrap();
    assert!(signer.encoding_key.is_some());
    assert!(signer.decoding_key.is_none());
    assert!(!signer.resolve_keys);
    assert_eq!(signer.token_duration.as_secs(), 3600);

    let verifier = JwtBuilder::new()
        .public_key(Algorithm::HS256, "secret")
        .build()
        .unwrap();
    assert!(verifier.encoding_key.is_none());
    assert!(verifier.decoding_key.is_some());
    assert!(!verifier.resolve_keys);

    let resolving = JwtBuilder::new().auto_resolve_keys(true).build().unwrap();
    assert!(resolving.resolve_keys);
    assert!(resolving.decoding_key.is_none());
}

#[test]
fn builder_rejects_bad_pem_keys() {
    let e = JwtBuilder::new()
        .private_key(Algorithm::RS256, "not a key")
        .build()
        .err()
        .unwrap();
    assert!(config_error_text(e).starts_with("Invalid RSA private key: "));
    let e = JwtBuilder::new()
        .private_key(Algorithm::ES256, "not a key")
        .build()
        .err()
        .unwrap();
    assert!(config_error_text(e).starts_with("Invalid EC private key: "));
    let e = JwtBuilder::new()
        .public_key(Algorithm::EdDSA, "not a key")
        .build()
        .err()
        .unwrap();
    assert!(config_error_text(e).starts_with("Invalid EdDSA public key: "));
    let e = JwtBuilder::new()
        .public_key(Algorithm::PS384, "not a key")
        .build()
        .err()
        .unwrap();
    assert!(config_error_text(e).starts_with("Invalid RSA public key: "));
}

#[test]
fn builder_validation_settings() {
    let jwt = JwtBuilder::new()
        .issuer("iss")
        .audience("aud")
        .require_exp()
        .require_sub()
        .private_key(Algorithm::HS384, "k")
        .token_duration(std::time::Duration::from_secs(60))
        .build()
        .unwrap();
    assert_eq!(jwt.token_duration.as_secs(), 60);
    let v = &jwt.validation;
    assert_eq!(v.algorithms, vec![jsonwebtoken_aws_lc::Algorithm::HS384]);
    assert!(v.aud.as_ref().unwrap().contains("aud"));
    assert!(v.iss.as_ref().unwrap().contains("iss"));
    assert_eq!(v.required_spec_claims.len(), 2);
    assert!(v.required_spec_claims.contains("sub"));

    let plain = JwtBuilder::new().private_key(Algorithm::HS256, "k").build().unwrap();
    assert!(plain.validation.aud.is_none());
    assert!(plain.validation.iss.is_none());
    assert_eq!(plain.validation.required_spec_claims.len(), 1);
    assert!(plain.validation.required_spec_claims.contains("exp"));
}

#[test]
fn algorithm_families() {
    assert_eq!(family(Algorithm::HS512), KeyFamily::Hmac);
    assert_eq!(family(Algorithm::PS256), KeyFamily::Rsa);
    assert_eq!(family(Algorithm::ES384), KeyFamily::Ec);
    assert_eq!(family(Algorithm::EdDSA), KeyFamily::Ed);
}

#[test]
fn key_algorithms_map_to_signature_algorithms() {
    assert_eq!(key_alg_to_algorithm(KeyAlgorithm::RS256), Ok(Algorithm::RS256));
    assert_eq!(key_alg_to_algorithm(KeyAlgorithm::EdDSA), Ok(Algorithm::EdDSA));
    assert_eq!(
        key_alg_to_algorithm(KeyAlgorithm::RSA_OAEP).unwrap_err(),
        AuthError::ConfigError("Unsupported key algorithm: RSA_OAEP".to_string())
    );
}

fn key(id: Option<&str>, alg: Option<KeyAlgorithm>) -> KeyInfo {
    KeyInfo { key_id: id.map(|s| s.to_string()), key_algorithm: alg }
}

#[test]
fn select_key_by_id_or_algorithm() {
    let keys = vec![
        key(Some("a"), Some(KeyAlgorithm::RS256)),
        key(None, Some(KeyAlgorithm::RSA1_5)),
        key(Some("b"), Some(KeyAlgorithm::ES256)),
        key(Some("b"), Some(KeyAlgorithm::ES256)),
    ];
    assert_eq!(select_key(&keys, &Some("b".to_string()), Algorithm::RS256), Ok(2));
    assert_eq!(
        select_key(&keys, &Some("c".to_string()), Algorithm::RS256).unwrap_err(),
        AuthError::ConfigError("Key with ID c not found in JWKS".to_string())
    );
    assert_eq!(select_key(&keys, &None, Algorithm::ES256), Ok(2));
    assert_eq!(
        select_key(&keys, &None, Algorithm::HS256).unwrap_err(),
        AuthError::ConfigError("No suitable key found in JWKS".to_string())
    );
    assert_eq!(
        select_key(&Vec::new(), &None, Algorithm::HS256).unwrap_err(),
        AuthError::ConfigError("No keys found in JWKS".to_string())
    );
}

#[test]
fn test_fetch_jwks_from_uri() {
    let body = br#"{"keys":[{"kty":"RSA","kid":"test-key","n":"some-modulus","e":"AQAB"}]}"#;
    let fetched_jwks = parse_jwks(body).unwrap();

    assert_eq!(fetched_jwks.keys.len(), 1);
    assert_eq!(fetched_jwks.keys[0].common.key_id.as_deref(), Some("test-key"));
}

#[test]
fn parse_jwks_rejects_bad_json() {
    let e = parse_jwks(b"{not json").unwrap_err();
    assert!(config_error_text(e).starts_with("Failed to parse JWKS: "));
}

#[test]
fn jwks_locations() {
    assert_eq!(well_known_path("/realm//", JWKS_SUFFIX), "/realm/.well-known/jwks.json");
    assert_eq!(well_known_path("/", JWKS_SUFFIX), "/.well-known/jwks.json");
    assert_eq!(
        issuer_url_with_suffix("https://example.com", JWKS_SUFFIX).unwrap(),
        "https://example.com/.well-known/jwks.json"
    );
    assert_eq!(
        issuer_url_with_suffix("https://example.com/tenant/", OPENID_CONFIGURATION_SUFFIX).unwrap(),
        "https://example.com/tenant/.well-known/openid-configuration"
    );
    let e = issuer_url_with_suffix("not a url", JWKS_SUFFIX).unwrap_err();
    assert!(config_error_text(e).starts_with("Invalid issuer URL: "));
    assert_eq!(
        choose_jwks_uri(Some("https://example.com/custom/path/to/jwks.json".to_string()), "x".to_string()),
        "https://example.com/custom/path/to/jwks.json"
    );
    assert_eq!(choose_jwks_uri(None, "fallback".to_string()), "fallback");
}

#[test]
fn public_build_without_key_is_an_error() {
    let e = JwtBuilder::new().auto_resolve_keys(false).build().err().unwrap();
    assert_eq!(e, AuthError::ConfigError("Public key must be set in WithPublicKey state".to_string()));
}

#[test]
fn validation_keeps_crate_defaults() {
    let jwt = JwtBuilder::new().issuer("i").private_key(Algorithm::HS256, "k").build().unwrap();
    let v = &jwt.validation;
    assert_eq!(v.leeway, 60);
    assert_eq!(v.reject_tokens_expiring_in_less_than, 0);
    assert!(v.validate_exp);
    assert!(!v.validate_nbf);
    assert!(v.validate_aud);
    assert!(v.sub.is_none());
}

const KEYS: &[u8] = br#"{"keys":[
    {"kty":"oct","kid":"k1","alg":"HS256","k":"c2VjcmV0"},
    {"kty":"oct","kid":"k2","alg":"HS384","k":"b3RoZXI"},
    {"kty":"oct","kid":"bad","alg":"HS512","k":"!!!"}
]}"#;

#[test]
fn resolve_key_by_id_then_by_algorithm() {
    let set = parse_jwks(KEYS).unwrap();
    let mut header = jsonwebtoken_aws_lc::Header::new(jsonwebtoken_aws_lc::Algorithm::RS256);
    header.kid = Some("k2".to_string());
    assert!(resolve_key(&set, &header).is_ok());

    header.kid = Some("zz".to_string());
    assert_eq!(
        resolve_key(&set, &header).err().unwrap(),
        AuthError::ConfigError("Key with ID zz not found in JWKS".to_string())
    );

    let header = jsonwebtoken_aws_lc::Header::new(jsonwebtoken_aws_lc::Algorithm::HS384);
    assert!(resolve_key(&set, &header).is_ok());
    let header = jsonwebtoken_aws_lc::Header::new(jsonwebtoken_aws_lc::Algorithm::ES256);
    assert_eq!(
        resolve_key(&set, &header).err().unwrap(),
        AuthError::ConfigError("No suitable key found in JWKS".to_string())
    );
}

#[test]
fn undecodable_key_names_its_algorithm() {
    let set = parse_jwks(KEYS).unwrap();
    let e = resolve_key_in(&set.keys, &Some("bad".to_string()), Algorithm::HS256).err().unwrap();
    assert!(config_error_text(e).starts_with("Failed to create Some(HS512) decoding key from JWK: "));
    assert!(jwk_to_decoding_key(&set.keys[0]).is_ok());
    let e = jwk_to_decoding_key(&set.keys[2]).err().unwrap();
    let text = config_error_text(e);
    assert!(text.len() > "Failed to create Some(HS512) decoding key from JWK: ".len());
}

#[test]
fn discovery_document_announces_jwks_location() {
    assert_eq!(
        discovered_jwks_uri(br#"{"jwks_uri":"https://example.com/custom/path/to/jwks.json"}"#),
        Some("https://example.com/custom/path/to/jwks.json".to_string())
    );
    assert_eq!(discovered_jwks_uri(br#"{"issuer":"https://example.com"}"#), None);
    assert_eq!(discovered_jwks_uri(br#"{"jwks_uri":42}"#), None);
    assert_eq!(discovered_jwks_uri(b"not json"), None);
}

#[test]
fn cached_sets_are_used_while_fresh() {
    assert!(use_cached_jwks(Some(10), 11));
    assert!(!use_cached_jwks(Some(11), 11));
    assert!(!use_cached_jwks(None, 11));

    let set = parse_jwks(KEYS).unwrap();
    let other = parse_jwks(br#"{"keys":[]}"#).unwrap();
    let mut cache = JwksCache::new();
    assert_eq!(cache.lookup("iss", 0), None);
    cache.store("iss", set.clone(), 1000, 500);
    assert_eq!(cache.lookup("iss", 1200), Some(set.clone()));
    assert_eq!(cache.lookup("iss", 900), Some(set.clone()));
    assert_eq!(cache.lookup("iss", 1500), None);
    assert_eq!(cache.lookup("other", 1200), None);
    cache.store("iss", other.clone(), 2000, 500);
    assert_eq!(cache.lookup("iss", 2100), Some(other));
}

#[test]
fn tool_server_replies() {
    assert_eq!(mcp_reply("tools"), McpReply::ListTools);
    assert_eq!(mcp_reply("tool"), McpReply::UnknownCommand);
    assert_eq!(mcp_reply(""), McpReply::UnknownCommand);
    assert_eq!(unknown_command(), "unknown command");
}

#[test]
fn error_texts_carry_the_cause() {
    let cause = serde_json::from_slice::<serde_json::Value>(b"{not json").unwrap_err().to_string();
    assert_eq!(
        parse_jwks(b"{not json").unwrap_err(),
        AuthError::ConfigError(format!("Failed to parse JWKS: {}", cause))
    );
    assert_eq!(
        issuer_url_with_suffix("not a url", JWKS_SUFFIX).unwrap_err(),
        AuthError::ConfigError("Invalid issuer URL: relative URL without a base".to_string())
    );
    let cause = jsonwebtoken_aws_lc::EncodingKey::from_rsa_pem(b"not a key").err().unwrap().to_string();
    assert_eq!(
        JwtBuilder::new().private_key(Algorithm::RS256, "not a key").build().err().unwrap(),
        AuthError::ConfigError(format!("Invalid RSA private key: {}", cause))
    );
    let cause = jsonwebtoken_aws_lc::DecodingKey::from_ec_pem(b"not a key").err().unwrap().to_string();
    assert_eq!(
        JwtBuilder::new().public_key(Algorithm::ES256, "not a key").build().err().unwrap(),
        AuthError::ConfigError(format!("Invalid EC public key: {}", cause))
    );
    let set = parse_jwks(KEYS).unwrap();
    let cause = jsonwebtoken_aws_lc::DecodingKey::from_jwk(&set.keys[2]).err().unwrap().to_string();
    assert_eq!(
        jwk_to_decoding_key(&set.keys[2]).err().unwrap(),
        AuthError::ConfigError(format!("Failed to create Some(HS512) decoding key from JWK: {}", cause))
    );
}
