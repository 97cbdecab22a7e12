use std::collections::HashSet;

use argon2::PasswordHash;
use minidb::crypto::{
    asks_too_many_lanes, check_params, key_from_hash, over_limit, phc_from_hash, salt_from_draw,
    verdict_from_check,
};
use minidb::{
    derive_key, generate_salt, hash_password, verify_password, ArgonParams, IntoOptional,
    UtilsError,
};

#[test]
fn test_derive_key_simple() {
    let key = derive_key(None, b"password", b"somesalt").expect("Failed to derive key");
    assert_eq!(key.len(), 32);
}

#[test]
fn test_derive_key_complex() {
    let p = ArgonParams::new().m_cost(1024).t_cost(1).p_cost(1).output_len(24);
    let key = derive_key(p, b"password", b"somesalt").expect("Failed to derive key");
    assert_eq!(key.len(), 24);
}

#[test]
fn test_generate_salt() {
    const N: usize = 100000;

    let mut salts = HashSet::new();
    for _ in 0..N {
        let salt = generate_salt().expect("Failed to generate salt");
        assert_eq!(salt.len(), 16);

        if !salts.contains(&salt) {
            salts.insert(salt);
        }
    }

    assert_eq!(salts.len(), N);
}

#[test]
fn test_hash_password_default() {
    let hash = hash_password(None, b"password", b"somesalt").expect("Failed to hash password");
    PasswordHash::new(&hash).expect("Failed to parse password hash");
}

#[test]
fn test_hash_password_19m_2t_1p_32() {
    let p = ArgonParams::new().m_cost(1024).t_cost(2).p_cost(1).output_len(32);
    let hash = hash_password(p, b"password", b"somesalt").expect("Failed to hash password");
    PasswordHash::new(&hash).expect("Failed to parse password hash");
}

#[test]
fn test_verify_password_default() {
    let password = "password".to_string();
    let hash =
        hash_password(None, password.as_bytes(), b"somesalt").expect("Failed to hash password");
    assert!(!verify_password(b"wrongpass", &hash).expect("Failed to verify password"));
    assert!(verify_password(password.as_bytes(), &hash).expect("Failed to verify password"));
}

#[test]
fn test_verify_password_19m_2t_1p_32() {
    let password = "password".to_string();
    let p = ArgonParams::new().m_cost(19 * 1024).t_cost(2).p_cost(1).output_len(32);
    let hash = hash_password(p, password.as_bytes(), b"somesalt").expect("Failed to hash password");
    assert!(!verify_password(b"wrongpass", &hash).expect("Failed to verify password"));
    assert!(verify_password(password.as_bytes(), &hash).expect("Failed to verify password"));
}

#[test]
fn default_params_are_the_recommended_ones() {
    let expected =
        ArgonParams { memory: 19 * 1024, iterations: 2, parallelism: 1, output_len: 32 };
    assert_eq!(ArgonParams::new(), expected);
    assert_eq!(ArgonParams::default(), expected);
    assert_eq!(
        ArgonParams::new().m_cost(64).t_cost(3).p_cost(2).output_len(16),
        ArgonParams { memory: 64, iterations: 3, parallelism: 2, output_len: 16 }
    );
}

#[test]
fn into_optional_wraps_values_and_keeps_options() {
    assert_eq!(IntoOptional::<u8>::into_optional(5u8), Some(5));
    assert_eq!(IntoOptional::<u8>::into_optional(Some(5u8)), Some(5));
    assert_eq!(IntoOptional::<u8>::into_optional(None::<u8>), None);
}

#[test]
fn params_are_checked_as_argon2_checks_them() {
    let good = ArgonParams::new();
    assert!(check_params(good));
    assert!(check_params(good.m_cost(8)));
    assert!(!check_params(good.m_cost(7)));
    assert!(check_params(good.m_cost(16).p_cost(2)));
    assert!(!check_params(good.m_cost(15).p_cost(2)));
    assert!(!check_params(good.t_cost(0)));
    assert!(!check_params(good.p_cost(0)));
    assert!(check_params(good.m_cost(u32::MAX).p_cost(0xFF_FFFF)));
    assert!(!check_params(good.m_cost(u32::MAX).p_cost(0x100_0000)));
    assert!(!check_params(good.m_cost(u32::MAX).p_cost(0x2000_0000)));
    assert!(!check_params(good.m_cost(u32::MAX).p_cost(u32::MAX)));
    assert!(check_params(good.output_len(4)));
    assert!(!check_params(good.output_len(3)));
}

#[test]
fn derive_key_is_the_argon2id_hash() {
    // The first test vector of the argon2 crate for Argon2id, version 0x13,
    // with these costs, has another key length; here the key is compared
    // with what the crate itself computes.
    let params = ArgonParams::new().m_cost(32).t_cost(2).p_cost(1).output_len(16);
    let key = derive_key(params, b"password", b"somesalt").unwrap();
    let costs = argon2::Params::new(32, 2, 1, Some(16)).unwrap();
    let mut expected = [0u8; 16];
    argon2::Argon2::new(argon2::Algorithm::Argon2id, argon2::Version::V0x13, costs)
        .hash_password_into(b"password", b"somesalt", &mut expected)
        .unwrap();
    assert_eq!(key, expected);
    assert_ne!(key, b"password".to_vec());
    assert_ne!(key, derive_key(params, b"password", b"othersalt").unwrap());
    assert_eq!(key, derive_key(params, b"password", b"somesalt").unwrap());
}

#[test]
fn derive_key_reports_each_failure() {
    assert_eq!(
        derive_key(ArgonParams::new().m_cost(1), b"password", b"somesalt"),
        Err(UtilsError::FailedToCreateParams)
    );
    assert_eq!(
        derive_key(ArgonParams::new().p_cost(u32::MAX), b"password", b"somesalt"),
        Err(UtilsError::FailedToCreateParams)
    );
    assert_eq!(derive_key(None, b"password", b"short"), Err(UtilsError::FailedToDeriveKey));
    assert_eq!(key_from_hash(None), Err(UtilsError::FailedToDeriveKey));
    assert_eq!(key_from_hash(Some(vec![1, 2])), Ok(vec![1, 2]));
}

#[test]
fn hash_password_reports_each_failure() {
    assert_eq!(
        hash_password(ArgonParams::new().t_cost(0), b"password", b"somesalt"),
        Err(UtilsError::FailedToCreateParams)
    );
    let long = [9u8; 49];
    assert_eq!(
        hash_password(None, b"password", &long),
        Err(UtilsError::FailedToEncodeSalt(long.to_vec()))
    );
    assert_eq!(hash_password(None, b"password", b"abc"), Err(UtilsError::FailedToHashPassword));
    assert_eq!(
        hash_password(ArgonParams::new().m_cost(32).output_len(65), b"password", b"somesalt"),
        Err(UtilsError::FailedToHashPassword)
    );
    assert_eq!(
        hash_password(ArgonParams::new().m_cost(32).output_len(9), b"password", b"somesalt"),
        Err(UtilsError::FailedToHashPassword)
    );
    let params = ArgonParams::new().m_cost(32).t_cost(1);
    assert!(hash_password(params, b"password", &[9u8; 48]).is_ok());
    assert_eq!(phc_from_hash(None), Err(UtilsError::FailedToHashPassword));
    assert_eq!(phc_from_hash(Some("x".to_string())), Ok("x".to_string()));
}

#[test]
fn hash_password_gives_the_phc_string() {
    let params = ArgonParams::new().m_cost(32).t_cost(2).p_cost(1).output_len(32);
    let hash = hash_password(params, b"password", b"somesalt").unwrap();
    assert!(hash.starts_with("$argon2id$v=19$m=32,t=2,p=1$c29tZXNhbHQ$"));
    assert!(verify_password(b"password", &hash).unwrap());
}

#[test]
fn verify_password_refuses_what_is_no_phc_string() {
    assert_eq!(
        verify_password(b"password", "not a hash"),
        Err(UtilsError::FailedToParsePHCString("not a hash".to_string()))
    );
    assert_eq!(verdict_from_check(true, false, true, "h"), Ok(true));
    assert_eq!(verdict_from_check(true, false, false, "h"), Ok(false));
    assert_eq!(verdict_from_check(true, true, true, "h"), Ok(false));
    assert_eq!(
        verdict_from_check(false, false, true, "h"),
        Err(UtilsError::FailedToParsePHCString("h".to_string()))
    );
}

#[test]
fn salts_come_from_the_draw() {
    assert_eq!(salt_from_draw(Some([3u8; 16])), Ok([3u8; 16]));
    assert_eq!(salt_from_draw(None), Err(UtilsError::FailedToGenerateSalt));
}

#[test]
fn lanes_beyond_the_limit_are_told() {
    assert!(!over_limit(""));
    assert!(!over_limit("0"));
    assert!(!over_limit("1"));
    assert!(!over_limit("536870911"));
    assert!(over_limit("536870912"));
    assert!(over_limit("0536870912"));
    assert!(over_limit("4294967295"));
    assert!(over_limit("99999999999999999999999999999999"));
    assert!(!over_limit("53687091x"));
    assert!(!over_limit("-536870912"));

    let params = |pairs: &[(&str, &str)]| -> Vec<(String, String)> {
        pairs.iter().map(|(k, v)| (k.to_string(), v.to_string())).collect()
    };
    assert!(!asks_too_many_lanes(&params(&[])));
    assert!(!asks_too_many_lanes(&params(&[("m", "536870912"), ("t", "2"), ("p", "1")])));
    assert!(asks_too_many_lanes(&params(&[("m", "8"), ("t", "2"), ("p", "536870912")])));
    assert!(asks_too_many_lanes(&params(&[("p", "536870912"), ("p", "1")])));
}

#[test]
fn verify_password_refuses_too_many_lanes() {
    let good = hash_password(None, b"password", b"somesalt").unwrap();
    assert!(good.contains(",p=1$"));
    let huge = good.replace(",p=1$", ",p=536870912$");
    assert_eq!(verify_password(b"password", &huge), Ok(false));
    let many = good.replace(",p=1$", ",p=536870911$");
    assert_eq!(verify_password(b"password", &many), Ok(false));
    assert_eq!(verify_password(b"password", &good), Ok(true));
}
