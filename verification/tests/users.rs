use argon2::password_hash::{PasswordHasher, SaltString};
use argon2::{Algorithm, Argon2, Params, Version};
use todos::error::{Cause, Error, Report};
use todos::models::password::{
    accept_hash, check_names_too_many_lanes, PasswordHashError, PHC_HEAD,
};
use todos::models::timestamp::Timestamp;
use todos::models::users::{FilteredUser, RegisterUser, User};
use uuid::Uuid;

fn text(s: &str) -> String {
    s.to_string()
}

#[test]
fn request_keeps_its_four_fields() {
    let dto = RegisterUser::new("ada", "ada@x.io", "secret123", "secret124");
    assert_eq!(dto.username(), "ada");
    assert_eq!(dto.email(), "ada@x.io");
    assert_eq!(dto.password(), "secret123");
    assert_eq!(dto.confirm_password(), "secret124");
    let empty = RegisterUser::new("", "", "", "");
    assert_eq!(
        (empty.username(), empty.email(), empty.password(), empty.confirm_password()),
        ("", "", "", "")
    );
}

#[test]
fn hashing_twice_gives_two_hashes_that_both_verify() {
    let first = User::hash_password("secret123").unwrap();
    let second = User::hash_password("secret123").unwrap();
    assert_ne!(first, second);
    assert!(first.starts_with("$argon2id$v=19$"));
    assert!(second.starts_with("$argon2id$v=19$"));
    assert_ne!(first, "secret123");
    assert_eq!(User::verify_password("secret123", &first), Ok(()));
    assert_eq!(User::verify_password("secret123", &second), Ok(()));

    // Each hash ends with its salt and its digest, and the salts differ.
    let first_fields: Vec<&str> = first.split('$').collect();
    let second_fields: Vec<&str> = second.split('$').collect();
    assert_eq!(first_fields.len(), 6);
    assert_eq!(second_fields.len(), 6);
    assert_eq!(first_fields[4].len(), 22);
    assert_eq!(second_fields[4].len(), 22);
    assert_ne!(first_fields[4], second_fields[4]);
    assert_eq!(first_fields[3], "m=19456,t=2,p=1");
    for hash in [&first, &second] {
        assert_eq!(hash.len(), PHC_HEAD.len() + 1 + 22 + 1 + 43);
        assert!(hash.starts_with(PHC_HEAD));
        let salt = hash.split('$').nth(4).unwrap();
        let digest = hash.split('$').nth(5).unwrap();
        let b64 = |c: char| c.is_ascii_alphanumeric() || c == '+' || c == '/';
        assert!(salt.chars().all(b64));
        assert!(digest.chars().all(b64));
        assert_eq!(digest.len(), 43);
        assert!("AQgw".contains(salt.chars().last().unwrap()));
    }
}

#[test]
fn a_password_that_begins_like_a_hash_is_hashed_too() {
    let password = format!("{PHC_HEAD}$c29tZXNhbHRzb21lc2FsdA$not-a-digest");
    let hash = User::hash_password(&password).unwrap();
    assert_ne!(hash, password);
    assert_eq!(User::verify_password(&password, &hash), Ok(()));
    assert_eq!(PHC_HEAD, "$argon2id$v=19$m=19456,t=2,p=1");
}

#[test]
fn wrong_password_is_a_credentials_failure() {
    let hash = User::hash_password("secret123").unwrap();
    let report = User::verify_password("secret124", &hash).unwrap_err();
    assert_eq!(
        report,
        Report::from(Error::InvalidCredentials(text("Invalid login credentials")))
    );
    let out = report.into_response();
    assert_eq!(out.response.status, 401);
    assert_eq!(out.response.message, "Invalid login credentials");
}

#[test]
fn verification_reads_the_parameters_from_the_hash() {
    // A hash made with other costs than the defaults: 64 KiB, three passes.
    let params = Params::new(64, 3, 1, None).unwrap();
    let hasher = Argon2::new(Algorithm::Argon2id, Version::V0x13, params);
    let salt = SaltString::from_b64("c29tZXNhbHRzb21lc2FsdA").unwrap();
    let stored = hasher.hash_password(b"secret123", &salt).unwrap().to_string();
    assert!(stored.starts_with("$argon2id$v=19$m=64,t=3,p=1$c29tZXNhbHRzb21lc2FsdA$"));
    assert_eq!(User::verify_password("secret123", &stored), Ok(()));
    assert_eq!(
        User::verify_password("secret124", &stored),
        Err(Report::from(Error::InvalidCredentials(text("Invalid login credentials"))))
    );
}

#[test]
fn a_hash_that_names_too_many_lanes_is_refused_unchecked() {
    let refused = Err(Report::from(Error::ArgonPasswordHash(text("too many threads"))));
    let tail = "$c29tZXNhbHRzb21lc2FsdA$c29tZXNhbHRzb21lc2FsdA";
    for params in [
        "m=4294967295,t=1,p=536870912",
        "m=4294967295,t=1,p=16777216",
        "p=4294967295,m=64,t=1",
        "m=64,p=99999999999999999999999,t=1",
        "m=64,t=1,p=0016777216",
    ] {
        let stored = format!("$argon2id$v=19${params}{tail}");
        assert!(check_names_too_many_lanes(&stored));
        assert_eq!(User::verify_password("secret123", &stored), refused);
    }
    assert!(check_names_too_many_lanes("$argon2id$v=19,p=536870912$x"));
    assert!(check_names_too_many_lanes("$p=16777216"));
}

#[test]
fn a_hash_with_lanes_in_range_is_checked() {
    let tail = "$c29tZXNhbHRzb21lc2FsdA$c29tZXNhbHRzb21lc2FsdA";
    for params in ["m=64,t=1,p=16777215", "m=64,t=1,p=9", "m=64,t=1,p=1x", "m=64,t=1,xp=16777216"] {
        let stored = format!("$argon2id$v=19${params}{tail}");
        assert!(!check_names_too_many_lanes(&stored));
        let report = User::verify_password("secret123", &stored).unwrap_err();
        match report.cause {
            Cause::General(Error::ArgonPasswordHash(detail)) => {
                assert_ne!(detail, "too many threads")
            }
            other => panic!("unexpected {other:?}"),
        }
    }
    assert!(!check_names_too_many_lanes(""));
    assert!(!check_names_too_many_lanes("p=99999999"));
    assert!(!check_names_too_many_lanes("$p"));
    assert!(!check_names_too_many_lanes("$p="));
    assert!(!check_names_too_many_lanes("xp=99999999,"));
}

#[test]
fn a_text_that_is_no_hash_is_an_internal_error() {
    let report = User::verify_password("secret123", "not a hash").unwrap_err();
    match &report.cause {
        Cause::General(Error::ArgonPasswordHash(detail)) => assert!(!detail.is_empty()),
        other => panic!("unexpected {other:?}"),
    }
    assert_eq!(report.into_response().response.status, 500);
    let report = User::verify_password("secret123", "").unwrap_err();
    assert_eq!(
        report.cause,
        Cause::General(Error::ArgonPasswordHash(text("password hash string missing field")))
    );
}

#[test]
fn the_empty_password_is_hashed_like_any_other() {
    let hash = User::hash_password("").unwrap();
    assert!(!hash.is_empty());
    assert_eq!(User::verify_password("", &hash), Ok(()));
}

#[test]
fn a_hash_is_accepted_unless_it_is_empty_or_the_password() {
    assert_eq!(accept_hash("secret123", Ok(text("$argon2id$x"))), Ok(text("$argon2id$x")));
    assert_eq!(
        accept_hash("secret123", Ok(text("secret123"))),
        Err(Report::from(Error::InternalServerError))
    );
    assert_eq!(
        accept_hash("secret123", Ok(String::new())),
        Err(Report::from(Error::InternalServerError))
    );
    assert_eq!(
        accept_hash("secret123", Err(PasswordHashError::Password)),
        Err(Report::from(Error::InvalidCredentials(text("Invalid login credentials"))))
    );
    assert_eq!(
        accept_hash("secret123", Err(PasswordHashError::Other(text("cryptographic error")))),
        Err(Report::from(Error::ArgonPasswordHash(text("cryptographic error"))))
    );
}

#[test]
fn filtered_user_has_no_password_and_a_formatted_time() {
    let user = User {
        id: Uuid::from_u128(42),
        username: text("ada"),
        email: text("ada@x.io"),
        password: text("$argon2id$v=19$stand-in"),
        created_at: Timestamp::new(1431648000, 0, 0).unwrap(),
    };
    let filtered = FilteredUser::from(user.clone());
    assert_eq!(
        filtered,
        FilteredUser {
            id: Uuid::from_u128(42),
            username: text("ada"),
            email: text("ada@x.io"),
            created_at: text("15-05-2015 00:00"),
        }
    );
    assert!(!format!("{filtered:?}").contains("argon2id"));
}

#[test]
fn creation_time_is_shown_in_its_own_offset() {
    let utc = Timestamp::new(1431648000, 0, 0).unwrap();
    assert_eq!(utc.format(), "15-05-2015 00:00");
    let east = Timestamp::new(1431648000, 0, 2 * 3600 + 30 * 60).unwrap();
    assert_eq!(east.format(), "15-05-2015 02:30");
    let west = Timestamp::new(1431648000, 999_999_999, -3600).unwrap();
    assert_eq!(west.format(), "14-05-2015 23:00");
    let epoch = Timestamp::new(0, 0, 0).unwrap();
    assert_eq!(epoch.format(), "01-01-1970 00:00");
    let before = Timestamp::new(-1, 0, 0).unwrap();
    assert_eq!(before.format(), "31-12-1969 23:59");
    assert_eq!((east.secs(), east.nanos(), east.offset_secs()), (1431648000, 0, 9000));
}

#[test]
fn instants_that_cannot_be_shown_do_not_exist() {
    assert_eq!(Timestamp::new(0, 0, 86_400), None);
    assert_eq!(Timestamp::new(0, 0, -86_400), None);
    assert!(Timestamp::new(0, 0, 86_399).is_some());
    assert_eq!(Timestamp::new(i64::MAX, 0, 0), None);
    assert_eq!(Timestamp::new(i64::MIN, 0, 0), None);
    assert_eq!(Timestamp::new(0, 2_000_000_000, 0), None);
    assert_eq!(Timestamp::new(0, 1_000_000_000, 0), None);
    assert!(Timestamp::new(59, 1_000_000_000, 0).is_some());
}
