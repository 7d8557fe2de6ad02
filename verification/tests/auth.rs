use interactions_core::auth::{
    constant_time_eq, generate_salt, hash_pincode, Credentials, MemberCredentials, SALT_LENGTH,
};
use interactions_core::Error;

#[test]
fn test_credentials_creation() {
    let creds = Credentials::new("1234").unwrap();
    assert!(!creds.salt.is_empty());
    assert!(!creds.pincode_hash.is_empty());
}

#[test]
fn test_credentials_verification() {
    let creds = Credentials::new("mypin123").unwrap();
    assert!(creds.verify("mypin123"));
    assert!(!creds.verify("wrongpin"));
    assert!(!creds.verify("mypin12"));
    assert!(!creds.verify("mypin1234"));
}

#[test]
fn test_pincode_too_short() {
    let result = Credentials::new("123");
    assert!(result.is_err());
}

#[test]
fn test_update_pincode() {
    let mut creds = Credentials::new("oldpin").unwrap();
    let old_hash = creds.pincode_hash.clone();
    let old_salt = creds.salt.clone();

    creds.update_pincode("newpin123").unwrap();

    assert!(creds.verify("newpin123"));
    assert!(!creds.verify("oldpin"));
    assert_ne!(creds.pincode_hash, old_hash);
    assert_ne!(creds.salt, old_salt);
}

#[test]
fn test_member_credentials() {
    let member_creds = MemberCredentials::new("user@example.com", "secret").unwrap();
    assert_eq!(member_creds.email, "user@example.com");
    assert!(member_creds.verify("secret"));
    assert!(!member_creds.verify("wrong"));
}

#[test]
fn test_different_salts_produce_different_hashes() {
    let creds1 = Credentials::new("samepin").unwrap();
    let creds2 = Credentials::new("samepin").unwrap();

    // Same pincode but different salts should produce different hashes
    assert_ne!(creds1.salt, creds2.salt);
    assert_ne!(creds1.pincode_hash, creds2.pincode_hash);

    // But both should verify correctly
    assert!(creds1.verify("samepin"));
    assert!(creds2.verify("samepin"));
}

#[test]
fn pincode_too_short_is_a_validation_error_with_its_message() {
    match Credentials::new("123") {
        Err(Error::InvalidConfig(message)) => {
            assert_eq!(message, "Pincode must be at least 4 characters");
        }
        other => panic!("expected InvalidConfig, got {:?}", other),
    }
    assert!(matches!(Credentials::new(""), Err(Error::InvalidConfig(_))));
    assert!(matches!(
        MemberCredentials::new("user@example.com", "abc"),
        Err(Error::InvalidConfig(_))
    ));
}

#[test]
fn pincode_length_counts_bytes() {
    // Two characters of two bytes each: four bytes, which is enough.
    assert!(Credentials::new("éé").is_ok());
    // Three characters of one byte each are not.
    assert!(Credentials::new("abc").is_err());
    assert!(Credentials::new("abcd").is_ok());
}

#[test]
fn with_salt_gives_the_known_salt_text_and_digest() {
    let salt: Vec<u8> = (0u8..16).collect();
    let creds = Credentials::with_salt("1234", &salt).unwrap();
    assert_eq!(creds.salt, "000102030405060708090a0b0c0d0e0f");
    assert_eq!(
        creds.pincode_hash,
        "bad0b4f7cae08eb7c1b5acc763a8ed25242e2c9173e81f3f624b1fa5303cf6ce"
    );
    assert!(creds.verify("1234"));
    assert!(!creds.verify("1235"));
}

#[test]
fn hash_pincode_is_the_digest_of_salt_then_pincode() {
    let salt = [0xABu8, 0xCD, 0xEF, 0x01, 0xAB, 0xCD, 0xEF, 0x01, 0xAB, 0xCD, 0xEF, 0x01, 0xAB, 0xCD, 0xEF, 0x01];
    assert_eq!(
        hash_pincode("mypin123", &salt),
        "2eab0daa36abc168dd2a878cfc5b7d92f4fb7f5942e4c29024c8e0d3ab18946b"
    );
    // With neither salt nor pincode, the digest of nothing.
    assert_eq!(
        hash_pincode("", &[]),
        "e3b0c44298fc1c149afbf4c8996fb92427ae41e4649b934ca495991b7852b855"
    );
    // The pincode goes in as its UTF-8 bytes.
    let salt: Vec<u8> = (0u8..16).collect();
    assert_eq!(
        hash_pincode("pïn₁", &salt),
        "0764d17a336c348ef5d74efa5a9819284a1d20dd3636b3551a86e70e316a61f3"
    );
}

#[test]
fn verify_reads_a_salt_in_either_case() {
    let creds = Credentials {
        salt: "ABCDEF01abcdef01ABCDEF01abcdef01".to_string(),
        pincode_hash: "2eab0daa36abc168dd2a878cfc5b7d92f4fb7f5942e4c29024c8e0d3ab18946b"
            .to_string(),
    };
    assert!(creds.verify("mypin123"));
    assert!(!creds.verify("mypin124"));
}

#[test]
fn verify_is_false_on_malformed_stored_state() {
    let good_hash = "bad0b4f7cae08eb7c1b5acc763a8ed25242e2c9173e81f3f624b1fa5303cf6ce";
    // A salt that is not hexadecimal.
    let creds = Credentials { salt: "zz".to_string(), pincode_hash: good_hash.to_string() };
    assert!(!creds.verify("1234"));
    // A salt with an odd number of digits.
    let creds = Credentials {
        salt: "000102030405060708090a0b0c0d0e0".to_string(),
        pincode_hash: good_hash.to_string(),
    };
    assert!(!creds.verify("1234"));
    // A hash in upper case is not the stored form.
    let creds = Credentials {
        salt: "000102030405060708090a0b0c0d0e0f".to_string(),
        pincode_hash: good_hash.to_uppercase(),
    };
    assert!(!creds.verify("1234"));
    // A hash that is cut short.
    let creds = Credentials {
        salt: "000102030405060708090a0b0c0d0e0f".to_string(),
        pincode_hash: good_hash[..63].to_string(),
    };
    assert!(!creds.verify("1234"));
    // Nothing stored at all.
    let creds = Credentials { salt: String::new(), pincode_hash: String::new() };
    assert!(!creds.verify("1234"));
}

#[test]
fn update_pincode_leaves_credentials_alone_when_refused() {
    let mut creds = Credentials::new("oldpin").unwrap();
    let before = creds.clone();
    let result = creds.update_pincode("abc");
    assert!(matches!(result, Err(Error::InvalidConfig(_))));
    assert_eq!(creds, before);
    assert!(creds.verify("oldpin"));

    let salt: Vec<u8> = (0u8..16).collect();
    let result = creds.update_pincode_with_salt("ab", &salt);
    assert!(matches!(result, Err(Error::InvalidConfig(_))));
    assert_eq!(creds, before);
}

#[test]
fn update_pincode_with_salt_replaces_salt_and_hash() {
    let mut creds = Credentials::new("oldpin").unwrap();
    let salt: Vec<u8> = (0u8..16).collect();
    creds.update_pincode_with_salt("1234", &salt).unwrap();
    assert_eq!(creds, Credentials::with_salt("1234", &salt).unwrap());
    assert!(creds.verify("1234"));
    assert!(!creds.verify("oldpin"));
}

#[test]
fn created_credentials_have_a_salt_of_sixteen_bytes_and_a_digest_of_thirty_two() {
    let creds = Credentials::new("1234").unwrap();
    assert_eq!(creds.salt.len(), 2 * SALT_LENGTH);
    assert_eq!(creds.pincode_hash.len(), 64);
    assert!(creds.salt.bytes().all(|b| b.is_ascii_digit() || (b'a'..=b'f').contains(&b)));
    assert!(creds.pincode_hash.bytes().all(|b| b.is_ascii_digit() || (b'a'..=b'f').contains(&b)));
    assert_eq!(generate_salt().len(), SALT_LENGTH);
}

#[test]
fn credentials_accept_their_own_pincode_and_no_other() {
    for pincode in ["1234", "secret", "pïn₁", "a much longer pass phrase"] {
        let creds = Credentials::new(pincode).unwrap();
        assert!(creds.verify(pincode));
        assert!(!creds.verify("12345"));
        assert!(!creds.verify(""));
    }
}

#[test]
fn constant_time_eq_is_equality_of_text() {
    assert!(constant_time_eq("", ""));
    assert!(constant_time_eq("abc", "abc"));
    assert!(!constant_time_eq("abc", "abd"));
    assert!(!constant_time_eq("abc", "bbc"));
    assert!(!constant_time_eq("abc", "abcd"));
    assert!(!constant_time_eq("abc", ""));
    assert!(constant_time_eq("añb", "añb"));
    assert!(!constant_time_eq("añb", "anb"));
}
