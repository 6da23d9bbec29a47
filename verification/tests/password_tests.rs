use kid_internet_lock::config::{AppConfig, DEFAULT_PASSWORD, DEFAULT_SALT};
use kid_internet_lock::password::{digest_hex, generate_salt, hash_password, salt_from_entropy, salt_hex};

#[test]
fn hash_is_sha256_hex_of_salt_then_password() {
    assert_eq!(
        hash_password("abc", ""),
        "ba7816bf8f01cfea414140de5dae2223b00361a396177a9cb410ff61f20015ad"
    );
    assert_eq!(
        hash_password("pw", "salt"),
        "21baed949b716c49cbf7d8fe79412f1dc104745650a32081ae0be0b967aeb7f3"
    );
    assert_eq!(
        hash_password("x", "é"),
        "75ffd91e9de1dcdd5f349e17f877dd3ea559667e1bdbf4c8f3560ca0b81a0b02"
    );
}

#[test]
fn default_hash_matches_default_password() {
    let cfg = AppConfig::default();
    assert_eq!(cfg.password_salt, DEFAULT_SALT);
    assert_eq!(
        cfg.password_hash,
        "003ea750691a69c905d5866980f251c63d95f2c1135cab7a5373917c685a63a2"
    );
    assert_eq!(cfg.password_hash, hash_password(DEFAULT_PASSWORD, DEFAULT_SALT));
}

#[test]
fn salt_from_clock_and_pid() {
    assert_eq!(salt_from_entropy(0, 0), "de47c9b27eb8d300dbb5f2c353e632c3");
    assert_eq!(salt_from_entropy(123456789, 4242), "29a4f89eeb71c7868c7acbc78f073c22");
    assert_ne!(salt_from_entropy(123456789, 4242), salt_from_entropy(123456789, 4243));
}

#[test]
fn hash_and_salt_lengths() {
    for (p, s) in [("", ""), ("a", "b"), ("long password ✓", "salt")] {
        let h = hash_password(p, s);
        assert_eq!(h.len(), 64);
        assert!(h.chars().all(|c| c.is_ascii_hexdigit() && !c.is_ascii_uppercase()));
    }
    let salt = generate_salt(31337);
    assert_eq!(salt.len(), 32);
    assert!(salt.chars().all(|c| c.is_ascii_hexdigit() && !c.is_ascii_uppercase()));
}

#[test]
fn update_keeps_schedule_and_changes_salt() {
    let mut cfg = AppConfig::default();
    cfg.auto_start = true;
    let before = cfg.weekly_schedule;
    cfg.update_password("new", 7);
    assert_ne!(cfg.password_salt, DEFAULT_SALT);
    assert_eq!(cfg.password_hash, hash_password("new", &cfg.password_salt));
    assert_eq!(cfg.weekly_schedule, before);
    assert!(cfg.auto_start);
    assert_eq!((cfg.start_hour, cfg.start_minute, cfg.end_hour, cfg.end_minute), (0, 0, 7, 0));
}

#[test]
fn digest_texts() {
    assert_eq!(digest_hex(&[0x00, 0xab, 0x0f, 0xff]), "00ab0fff");
    assert_eq!(digest_hex(&[]), "");
    let bytes: Vec<u8> = (0..32).collect();
    assert_eq!(salt_hex(&bytes), "000102030405060708090a0b0c0d0e0f");
}
