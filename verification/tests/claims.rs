use chrono::Duration;
use gym_booking::claims::{bearer_token, forbidden, trim, AuthenticationError, Caller, Claims, Membership};
use gym_booking::error::{ApiError, ErrorKind};

#[test]
fn missing_bearer() {
    let claim_err = bearer_token("no-Bearer-prefix").unwrap_err();

    assert_eq!(claim_err, AuthenticationError::Missing);
}

#[test]
fn assert_roles_any() {
    let claim = Claims::create(
        1,
        "joe@example.com",
        &Some(String::from("010101")),
        &vec!["member".to_string()],
        Duration::minutes(1).num_seconds(),
    );
    assert_eq!(claim.assert_roles_contains("member"), Ok(()));
    assert_eq!(
        claim.assert_roles_contains("admin"),
        Err(ApiError { kind: ErrorKind::Forbidden, message: "missing required role: admin".to_string() })
    );
}

#[test]
fn bearer_token_is_what_follows_the_prefix_trimmed() {
    assert_eq!(Ok("abc.def.ghi"), bearer_token("Bearer abc.def.ghi"));
    assert_eq!(Ok("abc"), bearer_token("Bearer   abc \t\n"));
    assert_eq!(Ok(""), bearer_token("Bearer "));
    assert_eq!(Ok("a b"), bearer_token("Bearer \u{2003}a b\u{a0}"));
    assert_eq!(Err(AuthenticationError::Missing), bearer_token("Bearer"));
    assert_eq!(Err(AuthenticationError::Missing), bearer_token("bearer abc"));
    assert_eq!(Err(AuthenticationError::Missing), bearer_token(" Bearer abc"));
    assert_eq!(Err(AuthenticationError::Missing), bearer_token(""));
}

#[test]
fn trim_removes_white_space_at_both_ends_only() {
    assert_eq!("a  b", trim("  a  b  "));
    assert_eq!("", trim(" \r\n "));
    assert_eq!("", trim(""));
    assert_eq!("x", trim("x"));
    assert_eq!("é ü", trim("\u{3000}é ü\u{2028}"));
}

#[test]
fn claims_hold_what_they_were_created_with() {
    let roles = vec!["member".to_string(), "trainer".to_string()];
    let claim = Claims::create_at(7, "joe@example.com", &None, &roles, 1_000, 60);
    assert_eq!(7, claim.uid);
    assert_eq!("joe@example.com", claim.email);
    assert_eq!(None, claim.phone);
    assert_eq!(roles, claim.roles);
    assert_eq!(1_060, claim.exp);
    assert_eq!(0, Claims::create_at(7, "j", &None, &roles, 10, -60).exp);
    assert_eq!(
        18_446_744_073_709_551_614,
        Claims::create_at(7, "j", &None, &roles, i64::MAX, i64::MAX).exp as u64
    );
    let before = chrono::Utc::now().timestamp();
    let claim = Claims::create(7, "j", &Some("1".to_string()), &roles, 60);
    let after = chrono::Utc::now().timestamp();
    assert!(before + 60 <= claim.exp as i64 && claim.exp as i64 <= after + 60);
    assert_eq!(Some("1".to_string()), claim.phone);
}

#[test]
fn roles_decide_membership() {
    let caller = |roles: &[&str]| {
        let roles: Vec<String> = roles.iter().map(|r| r.to_string()).collect();
        Claims::create_at(3, "j@example.com", &None, &roles, 0, 60).caller()
    };
    assert_eq!(Caller { uid: 3, admin: false, membership: Membership::PayAsYouGo }, caller(&[]));
    assert_eq!(Caller { uid: 3, admin: false, membership: Membership::PayAsYouGo }, caller(&["Member", "members", ""]));
    assert_eq!(Caller { uid: 3, admin: false, membership: Membership::Limited }, caller(&["limited-member"]));
    assert_eq!(Caller { uid: 3, admin: false, membership: Membership::Full }, caller(&["limited-member", "member"]));
    assert_eq!(Caller { uid: 3, admin: true, membership: Membership::PayAsYouGo }, caller(&["trainer", "admin"]));
}

#[test]
fn has_role_compares_whole_roles() {
    let claim = Claims::create_at(1, "j@example.com", &None, &vec!["member".to_string()], 0, 60);
    assert!(claim.has_role("member"));
    assert!(!claim.has_role("memb"));
    assert!(!claim.has_role("member "));
    assert!(!claim.has_role(""));
}

#[test]
fn refused_requests_are_answered_with_the_authentication_error() {
    assert_eq!(
        ApiError { kind: ErrorKind::Forbidden, message: "NOT AUTH".to_string() },
        forbidden(&None)
    );
    assert_eq!(
        ApiError { kind: ErrorKind::Forbidden, message: "missing authorization header".to_string() },
        forbidden(&Some(AuthenticationError::Missing))
    );
    assert_eq!(
        ApiError { kind: ErrorKind::Forbidden, message: "authorization token expired".to_string() },
        forbidden(&Some(AuthenticationError::Expired))
    );
    assert_eq!(
        ApiError {
            kind: ErrorKind::Forbidden,
            message: "failed to decode authorization header: InvalidToken".to_string()
        },
        forbidden(&Some(AuthenticationError::Decoding("InvalidToken".to_string())))
    );
    assert_eq!(AuthenticationError::Expired, AuthenticationError::from_decoder(true, "late".to_string()));
    assert_eq!(
        AuthenticationError::Decoding("bad".to_string()),
        AuthenticationError::from_decoder(false, "bad".to_string())
    );
}

fn has_white_space_property(c: char) -> bool {
    matches!(
        c as u32,
        0x09..=0x0D | 0x20 | 0x85 | 0xA0 | 0x1680 | 0x2000..=0x200A | 0x2028 | 0x2029 | 0x202F | 0x205F | 0x3000
    )
}

#[test]
fn every_character_is_trimmed_or_kept_by_its_property() {
    let mut white = 0;
    for n in 0..=0x10FFFFu32 {
        if let Some(c) = char::from_u32(n) {
            let alone = c.to_string();
            assert_eq!(has_white_space_property(c), trim(&alone).is_empty(), "U+{:04X}", n);
            if has_white_space_property(c) {
                white += 1;
            }
        }
    }
    assert_eq!(25, white);
}
