use mas_router::endpoints::{
    Account, AccountEmails, AccountPassword, ChangePasswordDiscovery, CompatLogin, CompatLogout,
    Consent, ContinueAuthorizationGrant, Healthcheck, Index, Login, Logout,
    OAuth2AuthorizationEndpoint, OAuth2Introspection, OAuth2Keys, OAuth2RegistrationEndpoint,
    OAuth2TokenEndpoint, OidcConfiguration, OidcUserinfo, PostAuthAction, Reauth, Register,
    VerifyEmail, Webfinger,
};
use mas_router::{Route, SimpleRoute, UrlBuilder};

fn check_simple<R: Route + SimpleRoute>(route: R, path: &str) {
    assert_eq!(R::PATH, path);
    assert_eq!(R::route(), path);
    assert_eq!(route.path(), path);
    assert_eq!(route.query(), None);
    assert_eq!(route.relative_url(), path);
    assert!(!route.relative_url().contains('?'));
    assert_eq!(route.go().location(), path);
}

#[test]
fn route_table_of_simple_routes() {
    check_simple(OidcConfiguration, "/.well-known/openid-configuration");
    check_simple(Webfinger, "/.well-known/webfinger");
    check_simple(ChangePasswordDiscovery, "/.well-known/change-password");
    check_simple(OAuth2Keys, "/oauth2/keys.json");
    check_simple(OidcUserinfo, "/oauth2/userinfo");
    check_simple(OAuth2Introspection, "/oauth2/introspect");
    check_simple(OAuth2TokenEndpoint, "/oauth2/token");
    check_simple(OAuth2RegistrationEndpoint, "/oauth2/registration");
    check_simple(OAuth2AuthorizationEndpoint, "/authorize");
    check_simple(Index, "/");
    check_simple(Healthcheck, "/health");
    check_simple(Logout, "/logout");
    check_simple(Account, "/account");
    check_simple(AccountPassword, "/account/password");
    check_simple(AccountEmails, "/account/emails");
    check_simple(CompatLogin, "/_matrix/client/{version}/login");
    check_simple(CompatLogout, "/_matrix/client/{version}/logout");
}

#[test]
fn healthcheck_never_gets_a_query() {
    assert_eq!(Healthcheck.relative_url(), "/health");
    assert_eq!(Healthcheck.query(), None);
}

#[test]
fn templates_of_routes_with_values() {
    assert_eq!(Login::route(), "/login");
    assert_eq!(Reauth::route(), "/reauth");
    assert_eq!(Register::route(), "/register");
    assert_eq!(VerifyEmail::route(), "/verify/{code}");
    assert_eq!(ContinueAuthorizationGrant::route(), "/authorize/{grant_id}");
    assert_eq!(Consent::route(), "/consent/{grant_id}");
}

#[test]
fn interactive_routes_without_action() {
    assert_eq!(Login::default().path(), "/login");
    assert_eq!(Login::default().relative_url(), "/login");
    assert_eq!(Reauth::default().relative_url(), "/reauth");
    assert_eq!(Register::default().relative_url(), "/register");
}

#[test]
fn interactive_routes_with_action() {
    assert_eq!(
        Login::and_continue_grant(7).relative_url(),
        "/login?next=continue_authorization_grant&data=7"
    );
    assert_eq!(
        Register::and_continue_grant(-7).relative_url(),
        "/register?next=continue_authorization_grant&data=-7"
    );
    assert_eq!(
        Reauth::and_then(PostAuthAction::ChangePassword).relative_url(),
        "/reauth?next=change_password"
    );
    assert_eq!(Login::and_continue_grant(7).path(), "/login");
}

#[test]
fn grant_paths() {
    assert_eq!(ContinueAuthorizationGrant(42).path(), "/authorize/42");
    assert_eq!(ContinueAuthorizationGrant(0).path(), "/authorize/0");
    assert_eq!(ContinueAuthorizationGrant(-5).path(), "/authorize/-5");
    assert_eq!(ContinueAuthorizationGrant(i64::MAX).path(), "/authorize/9223372036854775807");
    assert_eq!(ContinueAuthorizationGrant(i64::MIN).path(), "/authorize/-9223372036854775808");
    assert_eq!(ContinueAuthorizationGrant(42).relative_url(), "/authorize/42");
    assert_eq!(Consent(42).path(), "/consent/42");
    assert_eq!(Consent(-1).relative_url(), "/consent/-1");
}

#[test]
fn grant_path_has_two_segments() {
    for id in [0, 1, -1, 10, 12345, i64::MAX, i64::MIN] {
        let path = ContinueAuthorizationGrant(id).path();
        assert_eq!(path.matches('/').count(), 2);
        assert_eq!(path.strip_prefix("/authorize/").unwrap().parse::<i64>(), Ok(id));
    }
}

#[test]
fn verify_email_keeps_plain_codes() {
    assert_eq!(VerifyEmail("abc123".to_owned()).path(), "/verify/abc123");
    assert_eq!(VerifyEmail("a-b.c_d~e".to_owned()).path(), "/verify/a-b.c_d~e");
    assert_eq!(VerifyEmail(String::new()).path(), "/verify/");
}

#[test]
fn verify_email_escapes_what_would_change_the_url() {
    assert_eq!(
        VerifyEmail("abc/def?x#y z".to_owned()).path(),
        "/verify/abc%2Fdef%3Fx%23y%20z"
    );
    assert_eq!(VerifyEmail("../../admin".to_owned()).path(), "/verify/..%2F..%2Fadmin");
    assert_eq!(VerifyEmail("a%2Fb".to_owned()).path(), "/verify/a%252Fb");
    assert_eq!(VerifyEmail("a+b&c=d".to_owned()).path(), "/verify/a%2Bb%26c%3Dd");
    assert_eq!(VerifyEmail("\u{e9}".to_owned()).path(), "/verify/%C3%A9");
    assert_eq!(VerifyEmail("\n".to_owned()).relative_url(), "/verify/%0A");
}

#[test]
fn url_builder_trims_the_base() {
    assert_eq!(UrlBuilder::new("https://example.com/").unwrap().base(), "https://example.com");
    assert_eq!(UrlBuilder::new("https://example.com").unwrap().base(), "https://example.com");
    assert_eq!(UrlBuilder::new("https://example.com///").unwrap().base(), "https://example.com");
    assert_eq!(
        UrlBuilder::new("https://example.com/auth/").unwrap().base(),
        "https://example.com/auth"
    );
    assert_eq!(UrlBuilder::new("").unwrap().base(), "");
    assert_eq!(UrlBuilder::new("//").unwrap().base(), "");
}

#[test]
fn url_builder_refuses_what_is_no_url_text() {
    assert!(UrlBuilder::new("https://example.com/a b").is_none());
    assert!(UrlBuilder::new("https://ex\u{e4}mple.com/").is_none());
    assert!(UrlBuilder::new("https://example.com/\n").is_none());
    assert!(UrlBuilder::new(" ").is_none());
    assert!(UrlBuilder::new("\u{7f}").is_none());
}

#[test]
fn absolute_urls() {
    let builder = UrlBuilder::new("https://example.com/").unwrap();
    assert_eq!(Healthcheck.absolute_url(&builder), "https://example.com/health");
    assert_eq!(Index.absolute_url(&builder), "https://example.com/");
    assert_eq!(
        Login::and_continue_grant(7).absolute_url(&builder),
        "https://example.com/login?next=continue_authorization_grant&data=7"
    );
    assert_eq!(builder.absolute_url_for(&Consent(3)), "https://example.com/consent/3");
    assert_eq!(builder.relative_url_for(&Consent(3)), "/consent/3");
    assert_eq!(builder.clone().absolute_url_for(&Account), "https://example.com/account");
}

#[test]
fn absolute_urls_have_one_slash_at_the_seam() {
    for base in ["https://example.com", "https://example.com/", "https://example.com//"] {
        let builder = UrlBuilder::new(base).unwrap();
        assert_eq!(OidcConfiguration.absolute_url(&builder),
            "https://example.com/.well-known/openid-configuration");
        assert_eq!(VerifyEmail("/".to_owned()).absolute_url(&builder),
            "https://example.com/verify/%2F");
    }
    let nested = UrlBuilder::new("https://example.com/auth/").unwrap();
    assert_eq!(Logout.absolute_url(&nested), "https://example.com/auth/logout");
}

#[test]
fn redirects_point_at_the_url() {
    let builder = UrlBuilder::new("https://example.com/").unwrap();
    assert_eq!(Login::and_continue_grant(7).go().location(),
        "/login?next=continue_authorization_grant&data=7");
    assert_eq!(Healthcheck.go_absolute(&builder).location(), "https://example.com/health");
    assert_eq!(Healthcheck.go().status_code().as_u16(), 303);
    assert_eq!(Healthcheck.go_absolute(&builder).status_code().as_u16(), 303);
}
