use mas_router::endpoints::{Login, PostAuthAction, Reauth, Register};
use mas_router::traits::Route;

fn grant(data: i64) -> PostAuthAction {
    PostAuthAction::ContinueAuthorizationGrant { data }
}

#[test]
fn continue_grant_builds_the_grant_variant() {
    assert_eq!(PostAuthAction::continue_grant(42), grant(42));
}

#[test]
fn encode_grant() {
    assert_eq!(grant(42).encode(), "next=continue_authorization_grant&data=42");
    assert_eq!(grant(0).encode(), "next=continue_authorization_grant&data=0");
    assert_eq!(grant(-7).encode(), "next=continue_authorization_grant&data=-7");
}

#[test]
fn encode_change_password() {
    assert_eq!(PostAuthAction::ChangePassword.encode(), "next=change_password");
}

#[test]
fn encode_is_stable() {
    assert_eq!(grant(7).encode(), grant(7).encode());
    assert!(grant(7).encode().starts_with("next="));
    assert!(PostAuthAction::ChangePassword.encode().starts_with("next="));
}

#[test]
fn round_trip_every_variant() {
    let samples = vec![
        PostAuthAction::ChangePassword,
        grant(0),
        grant(1),
        grant(-1),
        grant(7),
        grant(42),
        grant(1_000_000_007),
        grant(i64::MAX),
        grant(i64::MIN),
    ];
    for action in samples {
        assert_eq!(PostAuthAction::decode(&action.encode()), Some(action));
        assert_eq!(PostAuthAction::decode_bytes(action.encode().as_bytes()), Some(action));
    }
}

#[test]
fn decode_accepts_fields_in_any_order() {
    assert_eq!(
        PostAuthAction::decode("data=7&next=continue_authorization_grant"),
        Some(grant(7))
    );
}

#[test]
fn decode_ignores_other_fields() {
    assert_eq!(
        PostAuthAction::decode("lang=en&next=change_password&data=abc"),
        Some(PostAuthAction::ChangePassword)
    );
    assert_eq!(
        PostAuthAction::decode("a=1&next=continue_authorization_grant&b=2&data=9&c"),
        Some(grant(9))
    );
}

#[test]
fn decode_skips_empty_fields() {
    assert_eq!(
        PostAuthAction::decode("&&next=change_password&"),
        Some(PostAuthAction::ChangePassword)
    );
}

#[test]
fn decode_understands_escapes() {
    assert_eq!(
        PostAuthAction::decode("next=change%5Fpassword"),
        Some(PostAuthAction::ChangePassword)
    );
    assert_eq!(
        PostAuthAction::decode("%6eext=continue_authorization_grant&data=%2D12"),
        Some(grant(-12))
    );
    assert_eq!(
        PostAuthAction::decode("next=continue_authorization_grant&data=%2B7"),
        Some(grant(7))
    );
}

#[test]
fn decode_reads_leading_zeros() {
    assert_eq!(
        PostAuthAction::decode("next=continue_authorization_grant&data=007"),
        Some(grant(7))
    );
}

#[test]
fn decode_reads_the_extremes() {
    assert_eq!(
        PostAuthAction::decode("next=continue_authorization_grant&data=9223372036854775807"),
        Some(grant(i64::MAX))
    );
    assert_eq!(
        PostAuthAction::decode("next=continue_authorization_grant&data=-9223372036854775808"),
        Some(grant(i64::MIN))
    );
}

#[test]
fn decode_of_nothing_is_no_action() {
    assert_eq!(PostAuthAction::decode(""), None);
    assert_eq!(PostAuthAction::decode("&"), None);
    assert_eq!(PostAuthAction::decode("foo=bar"), None);
}

#[test]
fn decode_of_unknown_next_is_no_action() {
    assert_eq!(PostAuthAction::decode("next=unknown"), None);
    assert_eq!(PostAuthAction::decode("next"), None);
    assert_eq!(PostAuthAction::decode("next="), None);
    assert_eq!(PostAuthAction::decode("next=Change_Password"), None);
    assert_eq!(PostAuthAction::decode("next=change_password "), None);
    assert_eq!(PostAuthAction::decode("NEXT=change_password"), None);
}

#[test]
fn decode_of_repeated_next_is_no_action() {
    assert_eq!(PostAuthAction::decode("next=change_password&next=change_password"), None);
    assert_eq!(
        PostAuthAction::decode("next=change_password&next=continue_authorization_grant&data=1"),
        None
    );
}

#[test]
fn decode_of_grant_without_usable_data_is_no_action() {
    assert_eq!(PostAuthAction::decode("next=continue_authorization_grant"), None);
    assert_eq!(PostAuthAction::decode("next=continue_authorization_grant&data"), None);
    assert_eq!(PostAuthAction::decode("next=continue_authorization_grant&data="), None);
    assert_eq!(PostAuthAction::decode("next=continue_authorization_grant&data=abc"), None);
    assert_eq!(PostAuthAction::decode("next=continue_authorization_grant&data=7x"), None);
    assert_eq!(PostAuthAction::decode("next=continue_authorization_grant&data=-"), None);
    assert_eq!(PostAuthAction::decode("next=continue_authorization_grant&data=--7"), None);
    assert_eq!(PostAuthAction::decode("next=continue_authorization_grant&data=+7"), None);
    assert_eq!(PostAuthAction::decode("next=continue_authorization_grant&data=7&data=7"), None);
    assert_eq!(PostAuthAction::decode("next=continue_authorization_grant&data=1.5"), None);
}

#[test]
fn decode_of_grant_out_of_range_is_no_action() {
    assert_eq!(
        PostAuthAction::decode("next=continue_authorization_grant&data=9223372036854775808"),
        None
    );
    assert_eq!(
        PostAuthAction::decode("next=continue_authorization_grant&data=-9223372036854775809"),
        None
    );
    assert_eq!(
        PostAuthAction::decode(
            "next=continue_authorization_grant&data=100000000000000000000000000000000000000"
        ),
        None
    );
}

#[test]
fn decode_of_bytes_that_are_no_text_is_no_action() {
    assert_eq!(PostAuthAction::decode_bytes(&[0xff, 0xfe, b'&', 0x00]), None);
    assert_eq!(
        PostAuthAction::decode_bytes(b"\xff=1&next=change_password"),
        Some(PostAuthAction::ChangePassword)
    );
}

#[test]
fn of_url_reads_the_query() {
    assert_eq!(
        PostAuthAction::of_url("/login?next=change_password"),
        Some(PostAuthAction::ChangePassword)
    );
    assert_eq!(
        PostAuthAction::of_url("/reauth?next=continue_authorization_grant&data=7"),
        Some(grant(7))
    );
}

#[test]
fn of_url_without_query_is_no_action() {
    assert_eq!(PostAuthAction::of_url("/login"), None);
    assert_eq!(PostAuthAction::of_url("/login?"), None);
    assert_eq!(PostAuthAction::of_url(""), None);
    assert_eq!(PostAuthAction::of_url("next=change_password"), None);
}

#[test]
fn of_url_reads_back_what_relative_url_wrote() {
    let actions = vec![None, Some(PostAuthAction::ChangePassword), Some(grant(-3)), Some(grant(99))];
    for action in actions {
        assert_eq!(PostAuthAction::of_url(&Login::from(action).relative_url()), action);
        assert_eq!(PostAuthAction::of_url(&Reauth::from(action).relative_url()), action);
        assert_eq!(PostAuthAction::of_url(&Register::from(action).relative_url()), action);
    }
}

#[test]
fn helpers_carry_the_action() {
    assert_eq!(Login::default().post_auth_action(), None);
    assert_eq!(Reauth::default().post_auth_action(), None);
    assert_eq!(Register::default().post_auth_action(), None);
    assert_eq!(Login::and_continue_grant(5).post_auth_action(), Some(&grant(5)));
    assert_eq!(Reauth::and_continue_grant(5).post_auth_action(), Some(&grant(5)));
    assert_eq!(Register::and_continue_grant(5).post_auth_action(), Some(&grant(5)));
    let change = PostAuthAction::ChangePassword;
    assert_eq!(Login::and_then(change).post_auth_action(), Some(&change));
    assert_eq!(Reauth::and_then(change).post_auth_action(), Some(&change));
    assert_eq!(Register::and_then(change).post_auth_action(), Some(&change));
    assert_eq!(Login::from(Some(change)).post_auth_action(), Some(&change));
    assert_eq!(Reauth::from(None).post_auth_action(), None);
    assert_eq!(Register::from(Some(grant(1))).query(), Some(&grant(1)));
}
