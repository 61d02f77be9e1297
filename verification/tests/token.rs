use rs_events::ids::parse_user_id;
use rs_events::token::{
    claim_from_fields, claim_to_fields, decode_token, encode_token, find_field, flag_of,
    validate_access_token, validate_confirm_token, validate_refresh_token, Claim, ClaimField,
    ClaimKind, ClaimValue, InvalidToken, ACCESS_FLAG, CONFIRM_FLAG, REFRESH_FLAG, SUBJECT_FIELD,
};

const KEY: &[u8] = b"test-secret";
const ID: u128 = 0x67e5504410b1426f9247bb680e5fe0c8;
const ID_TEXT: &str = "67e5504410b1426f9247bb680e5fe0c8";

fn text(name: &str, value: &str) -> ClaimField {
    ClaimField { name: name.to_string(), value: ClaimValue::Text(value.to_string()) }
}

fn flag(name: &str, value: bool) -> ClaimField {
    ClaimField { name: name.to_string(), value: ClaimValue::Flag(value) }
}

fn payload_of(token: &str) -> serde_json::Map<String, serde_json::Value> {
    let mut rules = jsonwebtoken::Validation::new(jsonwebtoken::Algorithm::HS256);
    rules.required_spec_claims.clear();
    rules.validate_exp = false;
    let key = jsonwebtoken::DecodingKey::from_secret(KEY);
    jsonwebtoken::decode::<serde_json::Map<String, serde_json::Value>>(token, &key, &rules)
        .unwrap()
        .claims
}

fn sign(payload: &serde_json::Map<String, serde_json::Value>) -> String {
    let key = jsonwebtoken::EncodingKey::from_secret(KEY);
    jsonwebtoken::encode(&jsonwebtoken::Header::default(), payload, &key).unwrap()
}

#[test]
fn every_kind_round_trips() {
    for kind in [ClaimKind::Access, ClaimKind::Refresh, ClaimKind::Confirm] {
        let claim = Claim { kind, subject: ID };
        let token = encode_token(KEY, &claim);
        assert!(!token.is_empty());
        assert_eq!(decode_token(KEY, &token, kind), Ok(claim));
    }
}

#[test]
fn extreme_subjects_round_trip() {
    for subject in [0u128, 1, u128::MAX, 1 << 127, 0x0123456789abcdef0123456789abcdef] {
        let claim = Claim { kind: ClaimKind::Refresh, subject };
        let token = encode_token(KEY, &claim);
        assert_eq!(decode_token(KEY, &token, ClaimKind::Refresh), Ok(claim));
    }
}

#[test]
fn token_of_one_kind_fails_as_any_other() {
    let kinds = [ClaimKind::Access, ClaimKind::Refresh, ClaimKind::Confirm];
    for issued in kinds {
        let token = encode_token(KEY, &Claim { kind: issued, subject: ID });
        for expected in kinds {
            if expected != issued {
                assert_eq!(decode_token(KEY, &token, expected), Err(InvalidToken));
            }
        }
    }
}

#[test]
fn token_signed_with_another_key_fails() {
    let claim = Claim { kind: ClaimKind::Access, subject: ID };
    let token = encode_token(b"another-secret", &claim);
    assert_eq!(decode_token(KEY, &token, ClaimKind::Access), Err(InvalidToken));
    assert_eq!(decode_token(b"another-secret", &token, ClaimKind::Access), Ok(claim));
}

#[test]
fn garbage_does_not_decode() {
    for token in ["", "abc", "a.b.c", "..", "12345"] {
        assert_eq!(decode_token(KEY, token, ClaimKind::Access), Err(InvalidToken));
        assert_eq!(validate_access_token(KEY, token), None);
        assert_eq!(validate_refresh_token(KEY, token), None);
        assert_eq!(validate_confirm_token(KEY, token), None);
    }
}

#[test]
fn tampered_token_fails() {
    let token = encode_token(KEY, &Claim { kind: ClaimKind::Access, subject: ID });
    let mut tampered = token.clone();
    let last = tampered.pop().unwrap();
    tampered.push(if last == 'A' { 'B' } else { 'A' });
    assert_eq!(decode_token(KEY, &tampered, ClaimKind::Access), Err(InvalidToken));
    let other = encode_token(KEY, &Claim { kind: ClaimKind::Access, subject: ID + 1 });
    let mixed = format!(
        "{}.{}",
        &other[..other.rfind('.').unwrap()],
        &token[token.rfind('.').unwrap() + 1..]
    );
    assert_eq!(decode_token(KEY, &mixed, ClaimKind::Access), Err(InvalidToken));
}

#[test]
fn token_is_a_signed_payload_of_subject_and_flag() {
    let token = encode_token(KEY, &Claim { kind: ClaimKind::Confirm, subject: ID });
    assert_eq!(token.split('.').count(), 3);
    let payload = payload_of(&token);
    assert_eq!(payload.len(), 2);
    assert_eq!(payload.get("sub"), Some(&serde_json::Value::String(ID_TEXT.to_string())));
    assert_eq!(payload.get("confirm_token"), Some(&serde_json::Value::Bool(true)));
}

#[test]
fn subject_is_written_as_32_lower_case_hex_digits() {
    let token = encode_token(KEY, &Claim { kind: ClaimKind::Access, subject: 0xAB });
    let payload = payload_of(&token);
    assert_eq!(
        payload.get("sub"),
        Some(&serde_json::Value::String("000000000000000000000000000000ab".to_string()))
    );
    let token = encode_token(KEY, &Claim { kind: ClaimKind::Access, subject: u128::MAX });
    let payload = payload_of(&token);
    assert_eq!(
        payload.get("sub"),
        Some(&serde_json::Value::String("ffffffffffffffffffffffffffffffff".to_string()))
    );
}

#[test]
fn same_claim_and_key_give_the_same_token() {
    let claim = Claim { kind: ClaimKind::Access, subject: ID };
    assert_eq!(encode_token(KEY, &claim), encode_token(KEY, &claim));
    let refresh = Claim { kind: ClaimKind::Refresh, subject: ID };
    assert_ne!(encode_token(KEY, &claim), encode_token(KEY, &refresh));
}

#[test]
fn expiry_in_a_payload_is_not_enforced() {
    let mut payload = serde_json::Map::new();
    payload.insert("sub".to_string(), serde_json::Value::String(ID_TEXT.to_string()));
    payload.insert("access_token".to_string(), serde_json::Value::Bool(true));
    payload.insert("exp".to_string(), serde_json::Value::from(1u64));
    payload.insert("aud".to_string(), serde_json::Value::String("someone".to_string()));
    let token = sign(&payload);
    assert_eq!(validate_access_token(KEY, &token), Some(ID));
}

#[test]
fn payload_with_two_flags_serves_both_kinds() {
    let mut payload = serde_json::Map::new();
    payload.insert("sub".to_string(), serde_json::Value::String(ID_TEXT.to_string()));
    payload.insert("access_token".to_string(), serde_json::Value::Bool(true));
    payload.insert("refresh_token".to_string(), serde_json::Value::Bool(true));
    let token = sign(&payload);
    assert_eq!(validate_access_token(KEY, &token), Some(ID));
    assert_eq!(validate_refresh_token(KEY, &token), Some(ID));
    assert_eq!(validate_confirm_token(KEY, &token), None);
}

#[test]
fn payload_with_flag_unset_or_mistyped_fails() {
    let mut payload = serde_json::Map::new();
    payload.insert("sub".to_string(), serde_json::Value::String(ID_TEXT.to_string()));
    payload.insert("access_token".to_string(), serde_json::Value::Bool(false));
    assert_eq!(validate_access_token(KEY, &sign(&payload)), None);
    payload.insert("access_token".to_string(), serde_json::Value::String("true".to_string()));
    assert_eq!(validate_access_token(KEY, &sign(&payload)), None);
    payload.insert("access_token".to_string(), serde_json::Value::from(1u64));
    assert_eq!(validate_access_token(KEY, &sign(&payload)), None);
    payload.insert("access_token".to_string(), serde_json::Value::Null);
    assert_eq!(validate_access_token(KEY, &sign(&payload)), None);
}

#[test]
fn payload_with_bad_subject_fails() {
    let mut payload = serde_json::Map::new();
    payload.insert("access_token".to_string(), serde_json::Value::Bool(true));
    assert_eq!(validate_access_token(KEY, &sign(&payload)), None);
    payload.insert("sub".to_string(), serde_json::Value::String("alice".to_string()));
    assert_eq!(validate_access_token(KEY, &sign(&payload)), None);
    payload.insert("sub".to_string(), serde_json::Value::from(7u64));
    assert_eq!(validate_access_token(KEY, &sign(&payload)), None);
    payload.insert("sub".to_string(), serde_json::Value::Bool(true));
    assert_eq!(validate_access_token(KEY, &sign(&payload)), None);
}

#[test]
fn hyphenated_subject_is_read_too() {
    let mut payload = serde_json::Map::new();
    payload.insert(
        "sub".to_string(),
        serde_json::Value::String("67e55044-10b1-426f-9247-bb680e5fe0c8".to_string()),
    );
    payload.insert("refresh_token".to_string(), serde_json::Value::Bool(true));
    assert_eq!(validate_refresh_token(KEY, &sign(&payload)), Some(ID));
}

#[test]
fn validate_gives_the_subject_of_its_own_kind_only() {
    let access = encode_token(KEY, &Claim { kind: ClaimKind::Access, subject: ID });
    let refresh = encode_token(KEY, &Claim { kind: ClaimKind::Refresh, subject: ID });
    let confirm = encode_token(KEY, &Claim { kind: ClaimKind::Confirm, subject: ID });
    assert_eq!(validate_access_token(KEY, &access), Some(ID));
    assert_eq!(validate_access_token(KEY, &refresh), None);
    assert_eq!(validate_access_token(KEY, &confirm), None);
    assert_eq!(validate_refresh_token(KEY, &access), None);
    assert_eq!(validate_refresh_token(KEY, &refresh), Some(ID));
    assert_eq!(validate_refresh_token(KEY, &confirm), None);
    assert_eq!(validate_confirm_token(KEY, &access), None);
    assert_eq!(validate_confirm_token(KEY, &refresh), None);
    assert_eq!(validate_confirm_token(KEY, &confirm), Some(ID));
}

#[test]
fn flags_are_named_after_their_kind() {
    assert_eq!(SUBJECT_FIELD, "sub");
    assert_eq!(ACCESS_FLAG, "access_token");
    assert_eq!(REFRESH_FLAG, "refresh_token");
    assert_eq!(CONFIRM_FLAG, "confirm_token");
    assert_eq!(flag_of(ClaimKind::Access), "access_token");
    assert_eq!(flag_of(ClaimKind::Refresh), "refresh_token");
    assert_eq!(flag_of(ClaimKind::Confirm), "confirm_token");
}

#[test]
fn claim_is_written_as_subject_and_flag() {
    let fields = claim_to_fields(&Claim { kind: ClaimKind::Refresh, subject: ID });
    assert_eq!(fields, vec![text("sub", ID_TEXT), flag("refresh_token", true)]);
}

#[test]
fn claim_is_read_from_given_fields() {
    let fields = vec![flag("access_token", true), text("sub", ID_TEXT)];
    assert_eq!(
        claim_from_fields(&fields, ClaimKind::Access),
        Some(Claim { kind: ClaimKind::Access, subject: ID })
    );
    assert_eq!(claim_from_fields(&fields, ClaimKind::Refresh), None);
    assert_eq!(claim_from_fields(&fields, ClaimKind::Confirm), None);
}

#[test]
fn claim_is_not_read_from_broken_fields() {
    assert_eq!(claim_from_fields(&vec![], ClaimKind::Access), None);
    assert_eq!(claim_from_fields(&vec![text("sub", ID_TEXT)], ClaimKind::Access), None);
    assert_eq!(claim_from_fields(&vec![flag("access_token", true)], ClaimKind::Access), None);
    assert_eq!(
        claim_from_fields(&vec![text("sub", ID_TEXT), flag("access_token", false)], ClaimKind::Access),
        None
    );
    assert_eq!(
        claim_from_fields(&vec![text("sub", "nobody"), flag("access_token", true)], ClaimKind::Access),
        None
    );
    assert_eq!(
        claim_from_fields(&vec![flag("sub", true), flag("access_token", true)], ClaimKind::Access),
        None
    );
    assert_eq!(
        claim_from_fields(&vec![text("sub", ID_TEXT), text("access_token", "true")], ClaimKind::Access),
        None
    );
    let other = ClaimField { name: "access_token".to_string(), value: ClaimValue::Other };
    assert_eq!(claim_from_fields(&vec![text("sub", ID_TEXT), other], ClaimKind::Access), None);
}

#[test]
fn first_field_of_a_name_is_found() {
    let fields = vec![text("a", "1"), flag("b", true), text("a", "2")];
    assert_eq!(find_field(&fields, "a"), Some(&ClaimValue::Text("1".to_string())));
    assert_eq!(find_field(&fields, "b"), Some(&ClaimValue::Flag(true)));
    assert_eq!(find_field(&fields, "c"), None);
    assert_eq!(find_field(&vec![], "a"), None);
}

#[test]
fn user_id_is_read_in_every_notation() {
    assert_eq!(parse_user_id(ID_TEXT), Some(ID));
    assert_eq!(parse_user_id("67E5504410B1426F9247BB680E5FE0C8"), Some(ID));
    assert_eq!(parse_user_id("67e55044-10b1-426f-9247-bb680e5fe0c8"), Some(ID));
    assert_eq!(parse_user_id("{67e55044-10b1-426f-9247-bb680e5fe0c8}"), Some(ID));
    assert_eq!(parse_user_id("urn:uuid:67e55044-10b1-426f-9247-bb680e5fe0c8"), Some(ID));
    assert_eq!(parse_user_id("00000000000000000000000000000001"), Some(1));
}

#[test]
fn user_id_is_not_read_from_other_text() {
    assert_eq!(parse_user_id(""), None);
    assert_eq!(parse_user_id("alice"), None);
    assert_eq!(parse_user_id("67e5504410b1426f9247bb680e5fe0c"), None);
    assert_eq!(parse_user_id("67e5504410b1426f9247bb680e5fe0c8a"), None);
    assert_eq!(parse_user_id("67e5504410b1426f9247bb680e5fe0cg"), None);
    assert_eq!(parse_user_id("67e55044-10b1-426f-9247bb68-0e5fe0c8"), None);
}
