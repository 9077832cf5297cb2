use treatment_manager::auth::{clock_seconds, JwtUtils, TOKEN_TTL_SECONDS};
use treatment_manager::errors::{AuthError, ConfigError};

const NOW: u64 = 1_700_000_000;

fn service() -> JwtUtils {
    JwtUtils::new(b"a-secret-for-tests".to_vec())
}

fn segments(token: &str) -> Vec<&str> {
    token.split('.').collect()
}

#[test]
fn issued_token_has_three_segments_and_the_hs256_header() {
    let token = service().create_token_at("user-1", "a@x.com", NOW).unwrap();
    let parts = segments(&token);
    assert_eq!(parts.len(), 3);
    assert_eq!(parts[0], "eyJ0eXAiOiJKV1QiLCJhbGciOiJIUzI1NiJ9");
    assert_eq!(parts[2].len(), 43);
    assert!(parts.iter().all(|part| !part.is_empty()));
}

#[test]
fn issued_token_verifies_to_its_claims() {
    let jwt = service();
    let token = jwt.create_token_at("user-1", "a@x.com", NOW).unwrap();
    let claims = jwt.verify_token_at(&token, NOW).unwrap();
    assert_eq!(claims.sub, "user-1");
    assert_eq!(claims.email, "a@x.com");
    assert_eq!(claims.iat, NOW);
    assert_eq!(claims.exp, NOW + 86400);
    assert_eq!(claims.exp - claims.iat, TOKEN_TTL_SECONDS);
}

#[test]
fn issuing_is_a_function_of_subject_time_and_secret() {
    let jwt = service();
    let first = jwt.create_token_at("user-1", "a@x.com", NOW).unwrap();
    let second = jwt.create_token_at("user-1", "a@x.com", NOW).unwrap();
    assert_eq!(first, second);
    let later = jwt.create_token_at("user-1", "a@x.com", NOW + 1).unwrap();
    assert_ne!(first, later);
    let other_subject = jwt.create_token_at("user-2", "a@x.com", NOW).unwrap();
    assert_ne!(first, other_subject);
    let other_secret = JwtUtils::new(b"another".to_vec()).create_token_at("user-1", "a@x.com", NOW).unwrap();
    assert_ne!(first, other_secret);
}

#[test]
fn claims_with_unusual_text_come_back_unchanged() {
    let jwt = service();
    let sub = "id \"quoted\" \\ back\nline";
    let email = "d\u{5e9}\u{5dc}\u{5d5}\u{5dd}@x.com";
    let token = jwt.create_token_at(sub, email, 0).unwrap();
    let claims = jwt.verify_token_at(&token, 0).unwrap();
    assert_eq!(claims.sub, sub);
    assert_eq!(claims.email, email);
    assert_eq!(claims.iat, 0);
    assert_eq!(claims.exp, 86400);
}

#[test]
fn token_is_good_up_to_its_expiry_and_expired_after() {
    let jwt = service();
    let token = jwt.create_token_at("user-1", "a@x.com", NOW).unwrap();
    assert!(jwt.verify_token_at(&token, NOW + 86399).is_ok());
    assert!(jwt.verify_token_at(&token, NOW + 86400).is_ok());
    assert_eq!(jwt.verify_token_at(&token, NOW + 86401), Err(AuthError::TokenExpired));
    assert_eq!(jwt.verify_token_at(&token, u64::MAX), Err(AuthError::TokenExpired));
}

#[test]
fn token_read_before_its_issue_time_is_accepted() {
    let jwt = service();
    let token = jwt.create_token_at("user-1", "a@x.com", NOW).unwrap();
    assert!(jwt.verify_token_at(&token, 0).is_ok());
}

#[test]
fn any_changed_signature_character_is_refused() {
    let jwt = service();
    let token = jwt.create_token_at("user-1", "a@x.com", NOW).unwrap();
    let start = token.rfind('.').unwrap() + 1;
    for position in start..token.len() {
        for replacement in ['A', 'b', '0', '-', '_', '.', '=', ' '] {
            let mut bytes = token.clone().into_bytes();
            if bytes[position] == replacement as u8 {
                continue;
            }
            bytes[position] = replacement as u8;
            let tampered = String::from_utf8(bytes).unwrap();
            let expected = if replacement == '.' {
                AuthError::TokenMalformed
            } else {
                AuthError::TokenSignatureInvalid
            };
            assert_eq!(jwt.verify_token_at(&tampered, NOW), Err(expected));
            assert_eq!(jwt.verify_token_at(&tampered, NOW + 86401), Err(expected));
        }
    }
}

#[test]
fn changed_payload_is_refused_as_wrongly_signed() {
    let jwt = service();
    let token = jwt.create_token_at("user-1", "a@x.com", NOW).unwrap();
    let other = jwt.create_token_at("user-2", "a@x.com", NOW).unwrap();
    let forged = format!("{}.{}.{}", segments(&token)[0], segments(&other)[1], segments(&token)[2]);
    assert_eq!(jwt.verify_token_at(&forged, NOW), Err(AuthError::TokenSignatureInvalid));
}

#[test]
fn token_of_another_secret_is_refused_as_wrongly_signed() {
    let token = JwtUtils::new(b"another".to_vec()).create_token_at("user-1", "a@x.com", NOW).unwrap();
    assert_eq!(service().verify_token_at(&token, NOW), Err(AuthError::TokenSignatureInvalid));
}

#[test]
fn wrong_segment_count_is_malformed() {
    let jwt = service();
    let token = jwt.create_token_at("user-1", "a@x.com", NOW).unwrap();
    assert_eq!(jwt.verify_token_at("", NOW), Err(AuthError::TokenMalformed));
    assert_eq!(jwt.verify_token_at("abc", NOW), Err(AuthError::TokenMalformed));
    assert_eq!(jwt.verify_token_at("a.b", NOW), Err(AuthError::TokenMalformed));
    assert_eq!(jwt.verify_token_at("a.b.c.d", NOW), Err(AuthError::TokenMalformed));
    assert_eq!(jwt.verify_token_at(&format!("{token}."), NOW), Err(AuthError::TokenMalformed));
    assert_eq!(jwt.verify_token_at(&format!(".{token}"), NOW), Err(AuthError::TokenMalformed));
}

#[test]
fn three_segments_without_a_signature_are_wrongly_signed() {
    let jwt = service();
    assert_eq!(jwt.verify_token_at("a.b.c", NOW), Err(AuthError::TokenSignatureInvalid));
    assert_eq!(jwt.verify_token_at("..", NOW), Err(AuthError::TokenSignatureInvalid));
}

fn signed_with(header: &jsonwebtoken::Header, payload: &serde_json::Value) -> String {
    let key = jsonwebtoken::EncodingKey::from_secret(b"a-secret-for-tests");
    jsonwebtoken::encode(header, payload, &key).unwrap()
}

fn payload(entries: &[(&str, serde_json::Value)]) -> serde_json::Value {
    let mut map = serde_json::Map::new();
    for (key, value) in entries {
        map.insert(key.to_string(), value.clone());
    }
    serde_json::Value::Object(map)
}

#[test]
fn token_built_by_hand_with_the_same_claims_verifies() {
    let claims = payload(&[
        ("sub", serde_json::Value::from("user-9")),
        ("email", serde_json::Value::from("z@x.com")),
        ("exp", serde_json::Value::from(NOW + 10)),
        ("iat", serde_json::Value::from(NOW)),
    ]);
    let token = signed_with(&jsonwebtoken::Header::default(), &claims);
    let read = service().verify_token_at(&token, NOW + 10).unwrap();
    assert_eq!(read.sub, "user-9");
    assert_eq!(read.email, "z@x.com");
    assert_eq!(read.exp, NOW + 10);
    assert_eq!(read.iat, NOW);
    assert_eq!(service().verify_token_at(&token, NOW + 11), Err(AuthError::TokenExpired));
}

#[test]
fn signed_token_with_a_missing_claim_is_malformed() {
    let claims = payload(&[
        ("sub", serde_json::Value::from("user-9")),
        ("exp", serde_json::Value::from(NOW + 10)),
        ("iat", serde_json::Value::from(NOW)),
    ]);
    let token = signed_with(&jsonwebtoken::Header::default(), &claims);
    assert_eq!(service().verify_token_at(&token, NOW), Err(AuthError::TokenMalformed));
}

#[test]
fn signed_token_with_a_claim_of_another_type_is_malformed() {
    let claims = payload(&[
        ("sub", serde_json::Value::from("user-9")),
        ("email", serde_json::Value::from("z@x.com")),
        ("exp", serde_json::Value::from("tomorrow")),
        ("iat", serde_json::Value::from(NOW)),
    ]);
    let token = signed_with(&jsonwebtoken::Header::default(), &claims);
    assert_eq!(service().verify_token_at(&token, NOW), Err(AuthError::TokenMalformed));
}

#[test]
fn token_under_another_algorithm_is_refused() {
    let claims = payload(&[
        ("sub", serde_json::Value::from("user-9")),
        ("email", serde_json::Value::from("z@x.com")),
        ("exp", serde_json::Value::from(NOW + 10)),
        ("iat", serde_json::Value::from(NOW)),
    ]);
    let token = signed_with(&jsonwebtoken::Header::new(jsonwebtoken::Algorithm::HS512), &claims);
    let refused = service().verify_token_at(&token, NOW).unwrap_err();
    assert!(refused == AuthError::TokenSignatureInvalid || refused == AuthError::TokenMalformed);
}

fn hs256_signed(message: &str) -> String {
    let key = jsonwebtoken::EncodingKey::from_secret(b"a-secret-for-tests");
    let signature = jsonwebtoken::crypto::sign(message.as_bytes(), &key, jsonwebtoken::Algorithm::HS256).unwrap();
    format!("{message}.{signature}")
}

#[test]
fn rightly_signed_token_that_names_another_algorithm_is_malformed() {
    let claims = payload(&[
        ("sub", serde_json::Value::from("user-9")),
        ("email", serde_json::Value::from("z@x.com")),
        ("exp", serde_json::Value::from(NOW + 10)),
        ("iat", serde_json::Value::from(NOW)),
    ]);
    let other = signed_with(&jsonwebtoken::Header::new(jsonwebtoken::Algorithm::HS512), &claims);
    let token = hs256_signed(&other[..other.rfind('.').unwrap()]);
    assert_eq!(service().verify_token_at(&token, NOW), Err(AuthError::TokenMalformed));
}

#[test]
fn rightly_signed_token_whose_parts_do_not_decode_is_malformed() {
    let good = service().create_token_at("user-1", "a@x.com", NOW).unwrap();
    let header = segments(&good)[0];
    let body = segments(&good)[1];
    for message in [
        format!("{header}.!!!"),
        format!("{header}."),
        format!("!!!.{body}"),
        format!(".{body}"),
        format!("{body}.{header}"),
        format!("{header}.{header}"),
        ".".to_string(),
    ] {
        assert_eq!(service().verify_token_at(&hs256_signed(&message), NOW), Err(AuthError::TokenMalformed));
    }
    assert!(service().verify_token_at(&hs256_signed(&format!("{header}.{body}")), NOW).is_ok());
}

#[test]
fn issued_token_is_read_by_the_token_crate_itself() {
    let token = service().create_token_at("user-1", "a@x.com", NOW).unwrap();
    let mut validation = jsonwebtoken::Validation::new(jsonwebtoken::Algorithm::HS256);
    validation.validate_exp = false;
    let key = jsonwebtoken::DecodingKey::from_secret(b"a-secret-for-tests");
    let data = jsonwebtoken::decode::<serde_json::Value>(&token, &key, &validation).unwrap();
    assert_eq!(data.claims["sub"], "user-1");
    assert_eq!(data.claims["email"], "a@x.com");
    assert_eq!(data.claims["iat"], NOW);
    assert_eq!(data.claims["exp"], NOW + 86400);
}

#[test]
fn expiry_that_does_not_fit_fails_the_issue() {
    let jwt = service();
    assert_eq!(jwt.create_token_at("user-1", "a@x.com", u64::MAX), Err(AuthError::TokenIssuanceFailure));
    assert_eq!(jwt.create_token_at("user-1", "a@x.com", u64::MAX - 86399), Err(AuthError::TokenIssuanceFailure));
    assert!(jwt.create_token_at("user-1", "a@x.com", u64::MAX - 86400).is_ok());
}

#[test]
fn token_issued_by_the_clock_verifies_by_the_clock() {
    let jwt = service();
    let token = jwt.create_token("user-1", "a@x.com").unwrap();
    let claims = jwt.verify_token(&token).unwrap();
    assert_eq!(claims.sub, "user-1");
    assert_eq!(claims.email, "a@x.com");
    assert_eq!(claims.exp - claims.iat, 86400);
    assert!(claims.iat > 1_600_000_000);
}

#[test]
fn expired_token_is_refused_by_the_clock() {
    let jwt = service();
    let token = jwt.create_token_at("user-1", "a@x.com", 1_000).unwrap();
    assert_eq!(jwt.verify_token(&token), Err(AuthError::TokenExpired));
    assert_eq!(jwt.verify_token("not-a-token"), Err(AuthError::TokenMalformed));
}

#[test]
fn clock_readings_are_brought_into_range() {
    assert_eq!(clock_seconds(-1), 0);
    assert_eq!(clock_seconds(i64::MIN), 0);
    assert_eq!(clock_seconds(0), 0);
    assert_eq!(clock_seconds(1_700_000_000), 1_700_000_000);
    assert_eq!(clock_seconds(i64::MAX), 9_223_372_036_854_775_807);
}

#[test]
fn long_token_is_judged_like_any_other() {
    let jwt = service();
    let email = "a".repeat(2_000_000);
    let token = jwt.create_token_at("user-1", &email, NOW).unwrap();
    assert!(token.len() > 2_000_000);
    let claims = jwt.verify_token_at(&token, NOW + 86400).unwrap();
    assert_eq!(claims.email, email);
    assert_eq!(jwt.verify_token_at(&token, NOW + 86401), Err(AuthError::TokenExpired));
    let padded = format!("{}{}", token, "A".repeat(1_000));
    assert_eq!(jwt.verify_token_at(&padded, NOW + 86401), Err(AuthError::TokenSignatureInvalid));
    assert_eq!(jwt.verify_token_at(&"a".repeat(2_000_000), NOW), Err(AuthError::TokenMalformed));
}

#[test]
fn issue_fails_only_where_the_expiry_does_not_fit() {
    let jwt = service();
    for (sub, email) in [("", ""), ("user-1", ""), ("", "a@x.com"), ("\u{0}", "\"\\\n")] {
        for now in [0, 1, NOW, u64::MAX - 86400] {
            assert!(jwt.create_token_at(sub, email, now).is_ok());
        }
        assert_eq!(jwt.create_token_at(sub, email, u64::MAX - 86399), Err(AuthError::TokenIssuanceFailure));
    }
    assert!(jwt.create_token("", "").is_ok());
}

#[test]
fn secret_is_used_as_it_is_configured() {
    let long = "s".repeat(2_000_000);
    let jwt = JwtUtils::from_config(Some(long.clone())).unwrap();
    assert_eq!(jwt.get_secret(), &long.clone().into_bytes());
    let token = jwt.create_token_at("user-1", "a@x.com", NOW).unwrap();
    assert!(JwtUtils::new(long.into_bytes()).verify_token_at(&token, NOW).is_ok());
    assert_eq!(service().verify_token_at(&token, NOW), Err(AuthError::TokenSignatureInvalid));
    let empty = JwtUtils::from_config(Some(String::new())).unwrap();
    assert!(empty.get_secret().is_empty());
    let hebrew = JwtUtils::from_config(Some("\u{5e9}".to_string())).unwrap();
    assert_eq!(hebrew.get_secret(), &vec![0xd7, 0xa9]);
}

#[test]
fn duplicate_of_a_service_verifies_what_the_service_issues() {
    let jwt = service();
    let twin = jwt.duplicate();
    assert_eq!(twin.get_secret(), jwt.get_secret());
    let token = jwt.create_token_at("user-1", "a@x.com", NOW).unwrap();
    assert_eq!(twin.create_token_at("user-1", "a@x.com", NOW).unwrap(), token);
    assert!(twin.verify_token_at(&token, NOW).is_ok());
}

#[test]
fn service_is_built_from_a_configured_secret_only() {
    assert_eq!(JwtUtils::from_config(None).err(), Some(ConfigError::MissingSecret));
    let jwt = JwtUtils::from_config(Some("a-secret-for-tests".to_string())).unwrap();
    assert_eq!(jwt.get_secret(), &b"a-secret-for-tests".to_vec());
    let token = service().create_token_at("user-1", "a@x.com", NOW).unwrap();
    assert!(jwt.verify_token_at(&token, NOW).is_ok());
}
