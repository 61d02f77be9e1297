use rs_events::password::{has_default_scheme, hash_password, verify_password, DEFAULT_SCHEME};

#[test]
fn hash_verifies_against_its_plaintext() {
    let hash = hash_password("pw123");
    assert!(verify_password(&hash, "pw123"));
}

#[test]
fn hash_rejects_another_plaintext() {
    let hash = hash_password("pw123");
    assert!(!verify_password(&hash, "pw124"));
    assert!(!verify_password(&hash, ""));
    assert!(!verify_password(&hash, "pw123 "));
}

#[test]
fn empty_and_unicode_passwords_hash_and_verify() {
    let empty = hash_password("");
    assert!(verify_password(&empty, ""));
    assert!(!verify_password(&empty, "x"));
    let hearts = hash_password("emojisaregreat\u{1f496}");
    assert!(verify_password(&hearts, "emojisaregreat\u{1f496}"));
    assert!(!verify_password(&hearts, "emojisaregreat"));
}

#[test]
fn two_hashes_of_one_plaintext_differ_and_both_verify() {
    let first = hash_password("hunter2");
    let second = hash_password("hunter2");
    assert_ne!(first, second);
    assert!(verify_password(&first, "hunter2"));
    assert!(verify_password(&second, "hunter2"));
}

#[test]
fn hash_is_not_the_plaintext_and_names_its_scheme() {
    let hash = hash_password("hunter2");
    assert_ne!(hash, "hunter2");
    assert!(hash.starts_with(DEFAULT_SCHEME));
    assert!(has_default_scheme(&hash));
    assert_eq!(DEFAULT_SCHEME, "$$scrypt$ln=14,r=8,p=1$");
}

#[test]
fn malformed_hash_matches_nothing() {
    assert!(!verify_password("", "hunter2"));
    assert!(!verify_password("hunter2", "hunter2"));
    assert!(!verify_password("$$scrypt$ln=14,r=8,p=1$", "hunter2"));
    assert!(!verify_password("$$scrypt$ln=14,r=8,p=1$$", "hunter2"));
    assert!(!verify_password("$$scrypt$ln=14,r=8,p=1$not base64$???", "hunter2"));
    assert!(!verify_password(
        "$$scrypt$ln=14,r=8,p=1$Yw/fI4D7b2PNqpUCg5UzKA$kp6humqf/GUV+6HQ/jND3gd8Zoz4VyBgGqk4DHt",
        "hunter2"
    ));
}

#[test]
fn hash_of_another_scheme_matches_nothing() {
    // A bcrypt hash of "hunter2".
    assert!(!verify_password(
        "$2a$10$u.Fhlm/a1DpHr/z5KrsLG.iZ7iM9r8DInJvZ57VArRKuhlHAoVZOi",
        "hunter2"
    ));
    // A keyed hash whose key nobody holds.
    assert!(!verify_password(
        "$!$hmac$key_id=LNMhDy,h=SHA256$$scrypt$ln=14,r=8,p=1$ZJ5EY$grlNA",
        "hunter2"
    ));
    // Parameters that scrypt refuses.
    assert!(!verify_password("$$scrypt$ln=99,r=0,p=0$Yw/fI4D7b2PNqpUCg5UzKA$kp6h", "hunter2"));
    assert!(!verify_password("$$argon2i$m=0,t=0,p=0$Yw/fI4D7b2PNqpUCg5UzKA$kp6h", "hunter2"));
}

#[test]
fn default_scheme_is_a_prefix_test() {
    assert!(has_default_scheme("$$scrypt$ln=14,r=8,p=1$"));
    assert!(has_default_scheme("$$scrypt$ln=14,r=8,p=1$rest"));
    assert!(!has_default_scheme("$$scrypt$ln=14,r=8,p=1"));
    assert!(!has_default_scheme("$$scrypt$ln=14,r=8,p=2$rest"));
    assert!(!has_default_scheme(" $$scrypt$ln=14,r=8,p=1$"));
    assert!(!has_default_scheme(""));
    assert!(!has_default_scheme("\u{e9}$scrypt$ln=14,r=8,p=1$"));
}
