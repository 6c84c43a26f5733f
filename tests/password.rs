use helpers::password::{gen_salt, hash_password, verify_password, CRE_LEN};

fn fixed_salt() -> Vec<u8> {
    (0u8..32).collect()
}

const HUNTER2_DIGEST: [u8; 32] = [
    160, 172, 231, 160, 50, 73, 11, 72, 130, 54, 181, 66, 232, 133, 191, 128, 223, 67, 7, 44, 72,
    175, 27, 128, 104, 87, 78, 18, 162, 84, 93, 175,
];

#[test]
fn salt_has_fixed_length() {
    let salt = gen_salt().expect("secure random source");
    assert_eq!(salt.len(), CRE_LEN);
}

#[test]
fn two_salts_differ() {
    let a = gen_salt().expect("secure random source");
    let b = gen_salt().expect("secure random source");
    assert_ne!(a, b);
}

#[test]
fn digest_is_deterministic() {
    let salt = fixed_salt();
    let a = hash_password("correct horse".to_string(), &salt);
    let b = hash_password("correct horse".to_string(), &salt);
    assert_eq!(a, b);
    assert_eq!(a.len(), CRE_LEN);
}

#[test]
fn hunter2_digest_is_known_value() {
    let digest = hash_password("hunter2".to_string(), &fixed_salt());
    assert_eq!(digest, HUNTER2_DIGEST.to_vec());
}

#[test]
fn empty_password_zero_salt_digest() {
    let digest = hash_password(String::new(), &vec![0u8; 32]);
    let expected: Vec<u8> = vec![
        74, 190, 215, 23, 161, 7, 149, 46, 135, 208, 87, 201, 108, 60, 65, 50, 251, 193, 251, 2,
        255, 233, 108, 123, 164, 214, 16, 100, 73, 223, 94, 12,
    ];
    assert_eq!(digest, expected);
}

#[test]
fn non_ascii_password_is_hashed_as_utf8() {
    let digest = hash_password("pässwörd".to_string(), &vec![0xffu8; 32]);
    let expected: Vec<u8> = vec![
        158, 0, 152, 178, 196, 130, 251, 251, 219, 212, 160, 40, 71, 51, 161, 174, 77, 216, 191,
        175, 135, 162, 6, 197, 49, 84, 144, 120, 27, 39, 12, 102,
    ];
    assert_eq!(digest, expected);
}

#[test]
fn verify_accepts_own_digest() {
    let salt = gen_salt().expect("secure random source");
    let digest = hash_password("s3cret".to_string(), &salt);
    assert!(verify_password("s3cret".to_string(), digest, &salt));
}

#[test]
fn verify_accepts_known_digest() {
    assert!(verify_password("hunter2".to_string(), HUNTER2_DIGEST.to_vec(), &fixed_salt()));
}

#[test]
fn verify_rejects_other_password() {
    let salt = fixed_salt();
    let digest = hash_password("hunter2".to_string(), &salt);
    assert!(!verify_password("hunter3".to_string(), digest, &salt));
}

#[test]
fn verify_rejects_other_salt() {
    let digest = hash_password("hunter2".to_string(), &fixed_salt());
    assert!(!verify_password("hunter2".to_string(), digest, &vec![7u8; 32]));
}

#[test]
fn different_salts_give_different_digests() {
    let a = hash_password("hunter2".to_string(), &fixed_salt());
    let b = hash_password("hunter2".to_string(), &vec![1u8; 32]);
    assert_ne!(a, b);
}

#[test]
fn verify_rejects_truncated_digest() {
    let prefix = HUNTER2_DIGEST[..16].to_vec();
    assert!(!verify_password("hunter2".to_string(), prefix, &fixed_salt()));
}

#[test]
fn verify_rejects_empty_digest() {
    assert!(!verify_password("hunter2".to_string(), Vec::new(), &fixed_salt()));
}

#[test]
fn verify_rejects_extended_digest() {
    let mut longer = HUNTER2_DIGEST.to_vec();
    longer.push(0);
    assert!(!verify_password("hunter2".to_string(), longer, &fixed_salt()));
}
