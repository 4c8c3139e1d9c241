use zeiterfassung_backend::auth::password::{check_password, hash_password, hashed, Check};
use zeiterfassung_backend::auth::tokenizer::{expires_at, signed, verified, Identity, Tokenizer};
use zeiterfassung_backend::db::store::Answer;
use zeiterfassung_backend::db::user::{User, UserQuery};
use zeiterfassung_backend::db::repository::Pending;
use zeiterfassung_backend::error::{ApiError, StoreError};
use zeiterfassung_backend::routes::login::{post_login, Login};

fn user_with_hash(hash: &str) -> User {
    User {
        id: 3,
        username: "grace".to_string(),
        firstname: "Grace".to_string(),
        lastname: "Hopper".to_string(),
        email: "grace@example.com".to_string(),
        hash: hash.to_string(),
        sys_role: "user".to_string(),
        created_at: 10,
        updated_at: 20,
    }
}

#[test]
fn a_hashed_password_is_a_phc_string_that_accepts_the_password() {
    let hash = hash_password(b"Admin_01!").unwrap();
    assert!(hash.starts_with("$argon2id$"));
    assert_ne!(hash, "Admin_01!");
    assert_eq!(check_password("Admin_01!", &hash), Check::Accepted);
    assert_eq!(check_password("Admin_02!", &hash), Check::Rejected);
}

#[test]
fn two_hashes_of_one_password_differ() {
    let first = Tokenizer::hash_password(b"User_01!").unwrap();
    let second = Tokenizer::hash_password(b"User_01!").unwrap();
    assert_ne!(first, second);
}

#[test]
fn a_known_hash_accepts_its_password_only() {
    let hash = "$argon2id$v=19$m=256,t=2,p=1$c29tZXNhbHQ$nf65EOgLrQMR/uIPnA4rEsF5h7TKyQwu9U1bMCHGi/4";
    assert_eq!(check_password("password", hash), Check::Accepted);
    assert_eq!(check_password("sassword", hash), Check::Rejected);
    assert_eq!(check_password("", hash), Check::Rejected);
}

#[test]
fn a_hash_that_cannot_be_read_is_reported() {
    assert!(matches!(check_password("x", "plainly not a hash"), Check::Unreadable(_)));
    assert!(matches!(check_password("x", ""), Check::Unreadable(_)));
}

#[test]
fn the_outcome_of_hashing_is_reported_as_a_password_error() {
    assert_eq!(hashed(Ok("$argon2id$x".to_string())), Ok("$argon2id$x".to_string()));
    assert_eq!(
        hashed(Err("salt invalid".to_string())),
        Err(ApiError::Argon2PasswordHash("salt invalid".to_string()))
    );
}

#[test]
fn a_login_is_judged_by_the_password_check() {
    let rec = user_with_hash("h");
    assert_eq!(User::judge(rec.clone(), Check::Accepted), Ok(rec.clone()));
    assert_eq!(User::judge(rec.clone(), Check::Rejected), Err(ApiError::WrongCredentials));
    assert_eq!(
        User::judge(rec, Check::Unreadable("invalid".to_string())),
        Err(ApiError::Argon2PasswordHash("invalid".to_string()))
    );
}

#[test]
fn a_login_starts_by_looking_up_the_email() {
    assert_eq!(
        User::find_by_email("grace@example.com"),
        (Pending::Row, UserQuery::ByEmail("grace@example.com".to_string()))
    );
}

#[test]
fn credentials_are_checked_against_the_stored_hash() {
    let hash = hash_password(b"User_01!").unwrap();
    let rec = user_with_hash(&hash);
    assert_eq!(User::check_credentials(Ok(Answer::Row(rec.clone())), "User_01!"), Ok(rec.clone()));
    assert_eq!(
        User::check_credentials(Ok(Answer::Row(rec)), "User_02!"),
        Err(ApiError::WrongCredentials)
    );
}

#[test]
fn an_unknown_email_looks_like_a_wrong_password() {
    assert_eq!(
        User::check_credentials(Err(StoreError::NotFound), "User_01!"),
        Err(ApiError::WrongCredentials)
    );
}

#[test]
fn a_failing_store_is_not_a_wrong_password() {
    assert_eq!(
        User::check_credentials(Err(StoreError::Failure), "User_01!"),
        Err(ApiError::Database("Store failure".to_string()))
    );
    assert_eq!(
        User::check_credentials(Ok(Answer::Count(1)), "User_01!"),
        Err(ApiError::Database("Store failure".to_string()))
    );
}

#[test]
fn an_unreadable_stored_hash_is_a_password_error() {
    let outcome = User::check_credentials(Ok(Answer::Row(user_with_hash("nonsense"))), "any");
    assert!(matches!(outcome, Err(ApiError::Argon2PasswordHash(_))));
}

#[test]
fn a_token_speaks_for_the_user_it_was_signed_for() {
    let tokenizer = Tokenizer::new(5 * 24 * 60 * 60);
    let token = tokenizer.generate(&user_with_hash("h")).unwrap();
    assert_eq!(token.split('.').count(), 3);
    assert_eq!(tokenizer.verify(&token), Ok(Identity { id: 3, sys_role: "user".to_string() }));
}

fn base64url(text: &str) -> Vec<u8> {
    let mut bits: u32 = 0;
    let mut held = 0;
    let mut bytes = Vec::new();
    for c in text.bytes() {
        let six = match c {
            b'A'..=b'Z' => c - b'A',
            b'a'..=b'z' => c - b'a' + 26,
            b'0'..=b'9' => c - b'0' + 52,
            b'-' => 62,
            b'_' => 63,
            _ => panic!("not base64url"),
        };
        bits = (bits << 6) | six as u32;
        held += 6;
        if held >= 8 {
            held -= 8;
            bytes.push((bits >> held) as u8);
            bits &= (1 << held) - 1;
        }
    }
    bytes
}

#[test]
fn a_token_holds_the_id_the_role_and_its_times_and_nothing_else() {
    for validity in [0u64, 60, 432_000, u64::MAX] {
        let tokenizer = Tokenizer::new(validity);
        let token = tokenizer.generate(&user_with_hash("$argon2id$secret")).unwrap();
        let payload = token.split('.').nth(1).unwrap();
        let claims: serde_json::Value = serde_json::from_slice(&base64url(payload)).unwrap();
        let claims = claims.as_object().unwrap();
        let mut names: Vec<&str> = claims.keys().map(|name| name.as_str()).collect();
        names.sort();
        assert_eq!(names, vec!["exp", "iat", "id", "nbf", "sys_role"]);
        assert_eq!(claims["id"].as_i64(), Some(3));
        assert_eq!(claims["sys_role"].as_str(), Some("user"));
        let issued = claims["iat"].as_u64().unwrap();
        assert_eq!(claims["nbf"].as_u64(), Some(issued));
        assert_eq!(claims["exp"].as_u64(), Some(expires_at(issued, validity)));
        assert!(!token.contains("secret"));
    }
}

#[test]
fn a_token_carries_any_id_and_role_unchanged() {
    let tokenizer = Tokenizer::new(60);
    for id in [i32::MIN, -1, 0, 1, i32::MAX] {
        for sys_role in ["admin", "user", "", "a \"quoted\" role\n", "rôle \u{1} 役割", "sys_role", "id"] {
            let mut user = user_with_hash("h");
            user.id = id;
            user.sys_role = sys_role.to_string();
            let token = tokenizer.generate(&user).unwrap();
            assert_eq!(
                tokenizer.verify(&token),
                Ok(Identity { id, sys_role: sys_role.to_string() })
            );
        }
    }
}

#[test]
fn a_hash_accepts_the_very_bytes_it_was_made_from() {
    for password in ["", "x", "pass word", "pässwörd \u{0} ✓"] {
        let hash = Tokenizer::hash_password(password.as_bytes()).unwrap();
        assert_eq!(check_password(password, &hash), Check::Accepted);
    }
}

#[test]
fn a_token_with_the_longest_validity_is_signed_and_verified() {
    let tokenizer = Tokenizer::new(u64::MAX);
    let token = tokenizer.generate(&user_with_hash("h")).unwrap();
    assert!(tokenizer.verify(&token).is_ok());
}

#[test]
fn a_token_expires_its_validity_after_it_was_issued() {
    assert_eq!(expires_at(1_700_000_000, 432_000), 1_700_432_000);
    assert_eq!(expires_at(0, 0), 0);
    assert_eq!(expires_at(0, 60), 60);
    assert_eq!(expires_at(0xffff_fff0, 15), 0xffff_ffff);
    assert_eq!(expires_at(0xffff_fff0, 16), 0xffff_ffff);
    assert_eq!(expires_at(1_700_000_000, u64::MAX), 0xffff_ffff);
    assert_eq!(expires_at(u64::MAX, u64::MAX), 0xffff_ffff);
}

#[test]
fn a_token_without_validity_is_still_within_the_tolerance_of_the_clock() {
    let tokenizer = Tokenizer::new(0);
    let token = tokenizer.generate(&user_with_hash("h")).unwrap();
    assert!(tokenizer.verify(&token).is_ok());
}

#[test]
fn a_token_of_another_key_is_not_accepted() {
    let ours = Tokenizer::new(60);
    let theirs = Tokenizer::new(60);
    let token = theirs.generate(&user_with_hash("h")).unwrap();
    assert_eq!(ours.verify(&token), Err(ApiError::JWTVerify("Invalid token".to_string())));
}

#[test]
fn every_token_that_is_not_accepted_gives_the_same_error() {
    let tokenizer = Tokenizer::new(60);
    let invalid = Err(ApiError::JWTVerify("Invalid token".to_string()));
    assert_eq!(tokenizer.verify(""), invalid);
    assert_eq!(tokenizer.verify("abc"), invalid);
    assert_eq!(tokenizer.verify("a.b.c"), invalid);
    let token = tokenizer.generate(&user_with_hash("h")).unwrap();
    let altered = format!("{}x", token);
    assert_eq!(tokenizer.verify(&altered), invalid);
    let other = Tokenizer::new(60).generate(&user_with_hash("h")).unwrap();
    assert_eq!(tokenizer.verify(&other), invalid);
    let error = tokenizer.verify("abc").unwrap_err();
    assert_eq!(error.to_status(), 400);
    assert_eq!(
        error.to_json(),
        "{\"error\":\"Could not verify token: Invalid token\",\"code\":400}"
    );
    assert_eq!(tokenizer.verify(&other).unwrap_err().to_json(), error.to_json());
}

#[test]
fn the_outcome_of_signing_is_reported_as_a_signing_error() {
    assert_eq!(signed(Ok("t".to_string())), Ok("t".to_string()));
    assert_eq!(signed(Err("no".to_string())), Err(ApiError::JWTSign("no".to_string())));
}

#[test]
fn verified_claims_must_name_a_user() {
    assert_eq!(
        verified(Some((Some(5), Some("admin".to_string())))),
        Ok(Identity { id: 5, sys_role: "admin".to_string() })
    );
    assert_eq!(
        verified(Some((Some(i32::MAX as i64), Some("user".to_string())))),
        Ok(Identity { id: i32::MAX, sys_role: "user".to_string() })
    );
    assert_eq!(
        verified(Some((Some(i32::MIN as i64), Some("user".to_string())))),
        Ok(Identity { id: i32::MIN, sys_role: "user".to_string() })
    );
    let invalid = Err(ApiError::JWTVerify("Invalid token".to_string()));
    assert_eq!(verified(Some((Some(i32::MAX as i64 + 1), Some("user".to_string())))), invalid);
    assert_eq!(verified(Some((Some(i32::MIN as i64 - 1), Some("user".to_string())))), invalid);
    assert_eq!(verified(Some((None, Some("user".to_string())))), invalid);
    assert_eq!(verified(Some((Some(5), None))), invalid);
    assert_eq!(verified(Some((None, None))), invalid);
    assert_eq!(verified(None), invalid);
}

#[test]
fn a_login_with_the_right_password_gives_a_token_for_that_user() {
    let tokenizer = Tokenizer::new(60);
    let hash = hash_password(b"Admin_01!").unwrap();
    let rec = user_with_hash(&hash);
    let login = Login::new("grace@example.com", "Admin_01!");
    let responder = post_login(&tokenizer, Ok(Answer::Row(rec)), &login).unwrap();
    let token = responder.into_token().token;
    assert_eq!(tokenizer.verify(&token).unwrap().id, 3);
}

#[test]
fn a_login_with_the_wrong_password_is_answered_401() {
    let tokenizer = Tokenizer::new(60);
    let hash = hash_password(b"Admin_01!").unwrap();
    let rec = user_with_hash(&hash);
    let login = Login::new("grace@example.com", "Admin_02!");
    let error = post_login(&tokenizer, Ok(Answer::Row(rec)), &login).unwrap_err();
    assert_eq!(error, ApiError::WrongCredentials);
    assert_eq!(error.to_status(), 401);
    let error = post_login(&tokenizer, Err(StoreError::NotFound), &login).unwrap_err();
    assert_eq!(error.to_status(), 401);
}
