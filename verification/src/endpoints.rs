//! The endpoints of the server, and the action that an interactive step
//! carries along to be resumed once it is done.

use crate::ascii::{ascii_bytes, lemma_ascii_utf8, AMPERSAND, EQUALS, QUESTION_MARK};
use crate::decimal::{
    decimal, is_decimal_char, lemma_decimal_chars, lemma_parse_decimal, parse_i64, parse_i64_spec,
    push_decimal,
};
use crate::percent::{
    form_decode, is_segment_char, lemma_decode_percent_encode, lemma_percent_encode_chars,
    percent_encode, push_percent_encoded,
};
use crate::query::{
    all_plain, find_byte, is_plain, lemma_find_byte_at, lemma_values_for_first,
    lemma_values_for_last, lookup, position, same_bytes, values_for, views,
};
use crate::traits::{
    is_absolute_path, is_url_char, is_url_text, relative_url_spec, Route, SimpleRoute,
};
use crate::trusted::{redirect_location, redirect_status};
use axum::response::Redirect;
use vstd::prelude::*;
use vstd::slice::slice_subrange;
use vstd::std_specs::convert::FromSpecImpl;
use vstd::string::*;
use vstd::utf8::*;

verus! {

/// What to resume once the user has logged in, registered or authenticated
/// again.
#[derive(Clone, Copy, Debug, PartialEq, Eq, Structural)]
pub enum PostAuthAction {
    /// Go on with the pending authorization grant `data`.
    ContinueAuthorizationGrant { data: i64 },
    /// Go on to the page where the password is changed.
    ChangePassword,
}

impl PostAuthAction {
    /// The query string that carries this action through a redirect: the
    /// field `next` with the kind of action comes first, then the field
    /// `data` with the grant in decimal notation if the action has one.
    pub open spec fn encode_spec(self) -> Seq<char> {
        match self {
            PostAuthAction::ContinueAuthorizationGrant { data } => {
                "next=continue_authorization_grant&data="@ + decimal(data as int)
            },
            PostAuthAction::ChangePassword => "next=change_password"@,
        }
    }

    /// The action that a query string carries, if any. The query must hold
    /// the field `next` exactly once. With the value `change_password`
    /// nothing else matters. With the value `continue_authorization_grant`
    /// the field `data` must be there exactly once and hold a 64-bit
    /// integer. Every other query carries no action.
    pub open spec fn decode_spec(query: Seq<u8>) -> Option<PostAuthAction> {
        let next = values_for(query, ascii_bytes("next"@));
        if next.len() != 1 {
            None
        } else if next[0] == ascii_bytes("change_password"@) {
            Some(PostAuthAction::ChangePassword)
        } else if next[0] == ascii_bytes("continue_authorization_grant"@) {
            let data = values_for(query, ascii_bytes("data"@));
            if data.len() != 1 {
                None
            } else {
                match parse_i64_spec(data[0]) {
                    Some(grant) => Some(PostAuthAction::ContinueAuthorizationGrant { data: grant }),
                    None => None,
                }
            }
        } else {
            None
        }
    }

    /// Where to go once the interactive step is done.
    pub open spec fn next_url_spec(self) -> Seq<char> {
        match self {
            PostAuthAction::ContinueAuthorizationGrant { data } => ContinueAuthorizationGrant(
                data,
            ).path_spec(),
            PostAuthAction::ChangePassword => AccountPassword.path_spec(),
        }
    }

    /// The action that goes on with the pending authorization grant `data`.
    #[must_use]
    pub fn continue_grant(data: i64) -> (action: Self)
        ensures
            action == (PostAuthAction::ContinueAuthorizationGrant { data }),
    {
        PostAuthAction::ContinueAuthorizationGrant { data }
    }

    /// Writes the action as a query string.
    pub fn encode(&self) -> (query: String)
        ensures
            query@ == self.encode_spec(),
    {
        match self {
            PostAuthAction::ContinueAuthorizationGrant { data } => {
                let mut query = "next=continue_authorization_grant&data=".to_owned();
                push_decimal(&mut query, *data);
                query
            },
            PostAuthAction::ChangePassword => "next=change_password".to_owned(),
        }
    }

    /// Reads the action that the bytes of a query string carry. A query that
    /// cannot be read carries none.
    pub fn decode_bytes(query: &[u8]) -> (action: Option<Self>)
        ensures
            action == Self::decode_spec(query@),
    {
        proof {
            lemma_tokens();
        }
        let next = lookup(query, "next".as_bytes());
        if next.len() != 1 {
            return None;
        }
        assert(views(next@)[0] == next@[0]@);
        if same_bytes(next[0].as_slice(), "change_password".as_bytes()) {
            Some(PostAuthAction::ChangePassword)
        } else if same_bytes(next[0].as_slice(), "continue_authorization_grant".as_bytes()) {
            let data = lookup(query, "data".as_bytes());
            if data.len() != 1 {
                return None;
            }
            assert(views(data@)[0] == data@[0]@);
            match parse_i64(data[0].as_slice()) {
                Some(grant) => Some(PostAuthAction::ContinueAuthorizationGrant { data: grant }),
                None => None,
            }
        } else {
            None
        }
    }

    /// Reads the action that a query string carries. A query that cannot be
    /// read carries none.
    pub fn decode(query: &str) -> (action: Option<Self>)
        ensures
            action == Self::decode_spec(encode_utf8(query@)),
    {
        Self::decode_bytes(query.as_bytes())
    }

    /// The action that the query of a URL carries: what `decode_spec` reads
    /// in the part after the first `?`, and nothing if there is no `?`.
    pub open spec fn of_url_spec(url: Seq<u8>) -> Option<PostAuthAction> {
        let at = find_byte(url, QUESTION_MARK);
        if 0 <= at < url.len() {
            Self::decode_spec(url.skip(at + 1))
        } else {
            None
        }
    }

    /// Reads the action that the query of a URL carries, if any.
    pub fn of_url(url: &str) -> (action: Option<Self>)
        ensures
            action == Self::of_url_spec(encode_utf8(url@)),
    {
        let bytes = url.as_bytes();
        let at = position(bytes, QUESTION_MARK);
        if at < bytes.len() {
            let query = slice_subrange(bytes, at + 1, bytes.len());
            proof {
                assert(query@ =~= bytes@.skip(at + 1));
            }
            Self::decode_bytes(query)
        } else {
            None
        }
    }

    /// The redirect that resumes this action.
    #[must_use]
    pub fn go_next(&self) -> (r: Redirect)
        ensures
            redirect_location(r) == self.next_url_spec(),
            redirect_status(r) == 303,
            is_url_text(redirect_location(r)),
    {
        match self {
            Self::ContinueAuthorizationGrant { data } => ContinueAuthorizationGrant(*data).go(),
            Self::ChangePassword => AccountPassword.go(),
        }
    }
}

/// `GET /.well-known/openid-configuration`
#[derive(Debug, Clone)]
pub struct OidcConfiguration;

impl SimpleRoute for OidcConfiguration {
    const PATH: &'static str = "/.well-known/openid-configuration";

    proof fn lemma_simple_path() {
        reveal_strlit("/.well-known/openid-configuration");
    }
}

/// `GET /.well-known/webfinger`
#[derive(Debug, Clone)]
pub struct Webfinger;

impl SimpleRoute for Webfinger {
    const PATH: &'static str = "/.well-known/webfinger";

    proof fn lemma_simple_path() {
        reveal_strlit("/.well-known/webfinger");
    }
}

/// `GET /.well-known/change-password`
pub struct ChangePasswordDiscovery;

impl SimpleRoute for ChangePasswordDiscovery {
    const PATH: &'static str = "/.well-known/change-password";

    proof fn lemma_simple_path() {
        reveal_strlit("/.well-known/change-password");
    }
}

/// `GET /oauth2/keys.json`
#[derive(Debug, Clone)]
pub struct OAuth2Keys;

impl SimpleRoute for OAuth2Keys {
    const PATH: &'static str = "/oauth2/keys.json";

    proof fn lemma_simple_path() {
        reveal_strlit("/oauth2/keys.json");
    }
}

/// `GET|POST /oauth2/userinfo`
#[derive(Debug, Clone)]
pub struct OidcUserinfo;

impl SimpleRoute for OidcUserinfo {
    const PATH: &'static str = "/oauth2/userinfo";

    proof fn lemma_simple_path() {
        reveal_strlit("/oauth2/userinfo");
    }
}

/// `POST /oauth2/introspect`
#[derive(Debug, Clone)]
pub struct OAuth2Introspection;

impl SimpleRoute for OAuth2Introspection {
    const PATH: &'static str = "/oauth2/introspect";

    proof fn lemma_simple_path() {
        reveal_strlit("/oauth2/introspect");
    }
}

/// `POST /oauth2/token`
#[derive(Debug, Clone)]
pub struct OAuth2TokenEndpoint;

impl SimpleRoute for OAuth2TokenEndpoint {
    const PATH: &'static str = "/oauth2/token";

    proof fn lemma_simple_path() {
        reveal_strlit("/oauth2/token");
    }
}

/// `POST /oauth2/registration`
#[derive(Debug, Clone)]
pub struct OAuth2RegistrationEndpoint;

impl SimpleRoute for OAuth2RegistrationEndpoint {
    const PATH: &'static str = "/oauth2/registration";

    proof fn lemma_simple_path() {
        reveal_strlit("/oauth2/registration");
    }
}

/// `GET /authorize`
#[derive(Debug, Clone)]
pub struct OAuth2AuthorizationEndpoint;

impl SimpleRoute for OAuth2AuthorizationEndpoint {
    const PATH: &'static str = "/authorize";

    proof fn lemma_simple_path() {
        reveal_strlit("/authorize");
    }
}

/// `GET /`
#[derive(Debug, Clone)]
pub struct Index;

impl SimpleRoute for Index {
    const PATH: &'static str = "/";

    proof fn lemma_simple_path() {
        reveal_strlit("/");
    }
}

/// `GET /health`
#[derive(Debug, Clone)]
pub struct Healthcheck;

impl SimpleRoute for Healthcheck {
    const PATH: &'static str = "/health";

    proof fn lemma_simple_path() {
        reveal_strlit("/health");
    }
}

/// `POST /logout`
#[derive(Debug, Clone)]
pub struct Logout;

impl SimpleRoute for Logout {
    const PATH: &'static str = "/logout";

    proof fn lemma_simple_path() {
        reveal_strlit("/logout");
    }
}

/// `GET /account`
#[derive(Debug, Clone)]
pub struct Account;

impl SimpleRoute for Account {
    const PATH: &'static str = "/account";

    proof fn lemma_simple_path() {
        reveal_strlit("/account");
    }
}

/// `GET|POST /account/password`
#[derive(Debug, Clone)]
pub struct AccountPassword;

impl SimpleRoute for AccountPassword {
    const PATH: &'static str = "/account/password";

    proof fn lemma_simple_path() {
        reveal_strlit("/account/password");
    }
}

/// `GET|POST /account/emails`
#[derive(Debug, Clone)]
pub struct AccountEmails;

impl SimpleRoute for AccountEmails {
    const PATH: &'static str = "/account/emails";

    proof fn lemma_simple_path() {
        reveal_strlit("/account/emails");
    }
}

/// `GET|POST /_matrix/client/{version}/login`
pub struct CompatLogin;

impl SimpleRoute for CompatLogin {
    const PATH: &'static str = "/_matrix/client/{version}/login";

    proof fn lemma_simple_path() {
        reveal_strlit("/_matrix/client/{version}/login");
    }
}

/// `POST /_matrix/client/{version}/logout`
pub struct CompatLogout;

impl SimpleRoute for CompatLogout {
    const PATH: &'static str = "/_matrix/client/{version}/logout";

    proof fn lemma_simple_path() {
        reveal_strlit("/_matrix/client/{version}/logout");
    }
}

/// `GET|POST /login`
#[derive(Debug, Clone)]
pub struct Login {
    post_auth_action: Option<PostAuthAction>,
}

impl View for Login {
    type V = Option<PostAuthAction>;

    /// The action to resume after logging in, if there is one.
    closed spec fn view(&self) -> Option<PostAuthAction> {
        self.post_auth_action
    }
}

impl Default for Login {
    fn default() -> (r: Self)
        ensures
            r@ is None,
    {
        Self { post_auth_action: None }
    }
}

impl Route for Login {
    open spec fn route_spec() -> Seq<char> {
        "/login"@
    }

    open spec fn path_spec(&self) -> Seq<char> {
        "/login"@
    }

    open spec fn query_spec(&self) -> Option<PostAuthAction> {
        self@
    }

    proof fn lemma_path(&self) {
        reveal_strlit("/login");
    }

    fn route() -> (template: &'static str) {
        "/login"
    }

    fn query(&self) -> (q: Option<&PostAuthAction>) {
        self.post_auth_action.as_ref()
    }

    fn path(&self) -> (p: String) {
        proof {
            self.lemma_path();
        }
        "/login".to_owned()
    }
}

impl Login {
    /// Logging in, then resume `action`.
    #[must_use]
    pub fn and_then(action: PostAuthAction) -> (r: Self)
        ensures
            r@ == Some(action),
    {
        Self { post_auth_action: Some(action) }
    }

    /// Logging in, then go on with the pending authorization grant `data`.
    #[must_use]
    pub fn and_continue_grant(data: i64) -> (r: Self)
        ensures
            r@ == Some(PostAuthAction::ContinueAuthorizationGrant { data }),
    {
        Self { post_auth_action: Some(PostAuthAction::continue_grant(data)) }
    }

    /// The action to resume after logging in, if there is one.
    #[must_use]
    pub fn post_auth_action(&self) -> (action: Option<&PostAuthAction>)
        ensures
            action is Some == self@ is Some,
            action matches Some(a) ==> Some(*a) == self@,
    {
        self.post_auth_action.as_ref()
    }

    /// The redirect to follow once logging in is done: to where the carried
    /// action resumes, or to the index page if there is none.
    #[must_use]
    pub fn go_next(&self) -> (r: Redirect)
        ensures
            redirect_location(r) == next_url_spec(self@),
            redirect_status(r) == 303,
            is_url_text(redirect_location(r)),
    {
        match &self.post_auth_action {
            Some(action) => action.go_next(),
            None => Index.go(),
        }
    }
}

impl From<Option<PostAuthAction>> for Login {
    fn from(post_auth_action: Option<PostAuthAction>) -> (r: Self)
        ensures
            r@ == post_auth_action,
    {
        Self { post_auth_action }
    }
}

impl FromSpecImpl<Option<PostAuthAction>> for Login {
    open spec fn obeys_from_spec() -> bool {
        true
    }

    closed spec fn from_spec(post_auth_action: Option<PostAuthAction>) -> Self {
        Login { post_auth_action }
    }
}

/// `GET|POST /reauth`
#[derive(Debug, Clone)]
pub struct Reauth {
    post_auth_action: Option<PostAuthAction>,
}

impl View for Reauth {
    type V = Option<PostAuthAction>;

    /// The action to resume after authenticating again, if there is one.
    closed spec fn view(&self) -> Option<PostAuthAction> {
        self.post_auth_action
    }
}

impl Default for Reauth {
    fn default() -> (r: Self)
        ensures
            r@ is None,
    {
        Self { post_auth_action: None }
    }
}

impl Route for Reauth {
    open spec fn route_spec() -> Seq<char> {
        "/reauth"@
    }

    open spec fn path_spec(&self) -> Seq<char> {
        "/reauth"@
    }

    open spec fn query_spec(&self) -> Option<PostAuthAction> {
        self@
    }

    proof fn lemma_path(&self) {
        reveal_strlit("/reauth");
    }

    fn route() -> (template: &'static str) {
        "/reauth"
    }

    fn query(&self) -> (q: Option<&PostAuthAction>) {
        self.post_auth_action.as_ref()
    }

    fn path(&self) -> (p: String) {
        proof {
            self.lemma_path();
        }
        "/reauth".to_owned()
    }
}

impl Reauth {
    /// Authenticating again, then resume `action`.
    #[must_use]
    pub fn and_then(action: PostAuthAction) -> (r: Self)
        ensures
            r@ == Some(action),
    {
        Self { post_auth_action: Some(action) }
    }

    /// Authenticating again, then go on with the pending authorization grant `data`.
    #[must_use]
    pub fn and_continue_grant(data: i64) -> (r: Self)
        ensures
            r@ == Some(PostAuthAction::ContinueAuthorizationGrant { data }),
    {
        Self { post_auth_action: Some(PostAuthAction::continue_grant(data)) }
    }

    /// The action to resume after authenticating again, if there is one.
    #[must_use]
    pub fn post_auth_action(&self) -> (action: Option<&PostAuthAction>)
        ensures
            action is Some == self@ is Some,
            action matches Some(a) ==> Some(*a) == self@,
    {
        self.post_auth_action.as_ref()
    }

    /// The redirect to follow once authenticating again is done: to where the carried
    /// action resumes, or to the index page if there is none.
    #[must_use]
    pub fn go_next(&self) -> (r: Redirect)
        ensures
            redirect_location(r) == next_url_spec(self@),
            redirect_status(r) == 303,
            is_url_text(redirect_location(r)),
    {
        match &self.post_auth_action {
            Some(action) => action.go_next(),
            None => Index.go(),
        }
    }
}

impl From<Option<PostAuthAction>> for Reauth {
    fn from(post_auth_action: Option<PostAuthAction>) -> (r: Self)
        ensures
            r@ == post_auth_action,
    {
        Self { post_auth_action }
    }
}

impl FromSpecImpl<Option<PostAuthAction>> for Reauth {
    open spec fn obeys_from_spec() -> bool {
        true
    }

    closed spec fn from_spec(post_auth_action: Option<PostAuthAction>) -> Self {
        Reauth { post_auth_action }
    }
}

/// `GET|POST /register`
#[derive(Debug, Clone)]
pub struct Register {
    post_auth_action: Option<PostAuthAction>,
}

impl View for Register {
    type V = Option<PostAuthAction>;

    /// The action to resume after registering, if there is one.
    closed spec fn view(&self) -> Option<PostAuthAction> {
        self.post_auth_action
    }
}

impl Default for Register {
    fn default() -> (r: Self)
        ensures
            r@ is None,
    {
        Self { post_auth_action: None }
    }
}

impl Route for Register {
    open spec fn route_spec() -> Seq<char> {
        "/register"@
    }

    open spec fn path_spec(&self) -> Seq<char> {
        "/register"@
    }

    open spec fn query_spec(&self) -> Option<PostAuthAction> {
        self@
    }

    proof fn lemma_path(&self) {
        reveal_strlit("/register");
    }

    fn route() -> (template: &'static str) {
        "/register"
    }

    fn query(&self) -> (q: Option<&PostAuthAction>) {
        self.post_auth_action.as_ref()
    }

    fn path(&self) -> (p: String) {
        proof {
            self.lemma_path();
        }
        "/register".to_owned()
    }
}

impl Register {
    /// Registering, then resume `action`.
    #[must_use]
    pub fn and_then(action: PostAuthAction) -> (r: Self)
        ensures
            r@ == Some(action),
    {
        Self { post_auth_action: Some(action) }
    }

    /// Registering, then go on with the pending authorization grant `data`.
    #[must_use]
    pub fn and_continue_grant(data: i64) -> (r: Self)
        ensures
            r@ == Some(PostAuthAction::ContinueAuthorizationGrant { data }),
    {
        Self { post_auth_action: Some(PostAuthAction::continue_grant(data)) }
    }

    /// The action to resume after registering, if there is one.
    #[must_use]
    pub fn post_auth_action(&self) -> (action: Option<&PostAuthAction>)
        ensures
            action is Some == self@ is Some,
            action matches Some(a) ==> Some(*a) == self@,
    {
        self.post_auth_action.as_ref()
    }

    /// The redirect to follow once registering is done: to where the carried
    /// action resumes, or to the index page if there is none.
    #[must_use]
    pub fn go_next(&self) -> (r: Redirect)
        ensures
            redirect_location(r) == next_url_spec(self@),
            redirect_status(r) == 303,
            is_url_text(redirect_location(r)),
    {
        match &self.post_auth_action {
            Some(action) => action.go_next(),
            None => Index.go(),
        }
    }
}

impl From<Option<PostAuthAction>> for Register {
    fn from(post_auth_action: Option<PostAuthAction>) -> (r: Self)
        ensures
            r@ == post_auth_action,
    {
        Self { post_auth_action }
    }
}

impl FromSpecImpl<Option<PostAuthAction>> for Register {
    open spec fn obeys_from_spec() -> bool {
        true
    }

    closed spec fn from_spec(post_auth_action: Option<PostAuthAction>) -> Self {
        Register { post_auth_action }
    }
}

/// `GET /verify/{code}`
#[derive(Debug, Clone)]
pub struct VerifyEmail(pub String);

impl Route for VerifyEmail {
    open spec fn route_spec() -> Seq<char> {
        "/verify/{code}"@
    }

    /// The code is percent-encoded, so that whatever it holds stays within
    /// its one path segment.
    open spec fn path_spec(&self) -> Seq<char> {
        "/verify/"@ + percent_encode(encode_utf8(self.0@))
    }

    open spec fn query_spec(&self) -> Option<PostAuthAction> {
        None
    }

    proof fn lemma_path(&self) {
        let code = percent_encode(encode_utf8(self.0@));
        reveal_strlit("/verify/");
        lemma_percent_encode_chars(encode_utf8(self.0@));
        assert forall|i: int| 0 <= i < code.len() implies is_parameter_char(#[trigger] code[i]) by {
            assert(is_segment_char(code[i]));
        }
        lemma_path_with_parameter("/verify/"@, code);
    }

    fn route() -> (template: &'static str) {
        "/verify/{code}"
    }

    fn query(&self) -> (q: Option<&PostAuthAction>) {
        None
    }

    fn path(&self) -> (p: String) {
        proof {
            self.lemma_path();
        }
        let mut p = "/verify/".to_owned();
        push_percent_encoded(&mut p, self.0.as_str().as_bytes());
        p
    }
}

/// `GET /authorize/{grant_id}`
#[derive(Debug, Clone)]
pub struct ContinueAuthorizationGrant(pub i64);

impl Route for ContinueAuthorizationGrant {
    open spec fn route_spec() -> Seq<char> {
        "/authorize/{grant_id}"@
    }

    open spec fn path_spec(&self) -> Seq<char> {
        "/authorize/"@ + decimal(self.0 as int)
    }

    open spec fn query_spec(&self) -> Option<PostAuthAction> {
        None
    }

    proof fn lemma_path(&self) {
        let id = decimal(self.0 as int);
        reveal_strlit("/authorize/");
        lemma_decimal_chars(self.0 as int);
        assert forall|i: int| 0 <= i < id.len() implies is_parameter_char(#[trigger] id[i]) by {
            assert(is_decimal_char(id[i]));
        }
        lemma_path_with_parameter("/authorize/"@, id);
    }

    fn route() -> (template: &'static str) {
        "/authorize/{grant_id}"
    }

    fn query(&self) -> (q: Option<&PostAuthAction>) {
        None
    }

    fn path(&self) -> (p: String) {
        proof {
            self.lemma_path();
        }
        let mut p = "/authorize/".to_owned();
        push_decimal(&mut p, self.0);
        p
    }
}

/// `GET /consent/{grant_id}`
#[derive(Debug, Clone)]
pub struct Consent(pub i64);

impl Route for Consent {
    open spec fn route_spec() -> Seq<char> {
        "/consent/{grant_id}"@
    }

    open spec fn path_spec(&self) -> Seq<char> {
        "/consent/"@ + decimal(self.0 as int)
    }

    open spec fn query_spec(&self) -> Option<PostAuthAction> {
        None
    }

    proof fn lemma_path(&self) {
        let id = decimal(self.0 as int);
        reveal_strlit("/consent/");
        lemma_decimal_chars(self.0 as int);
        assert forall|i: int| 0 <= i < id.len() implies is_parameter_char(#[trigger] id[i]) by {
            assert(is_decimal_char(id[i]));
        }
        lemma_path_with_parameter("/consent/"@, id);
    }

    fn route() -> (template: &'static str) {
        "/consent/{grant_id}"
    }

    fn query(&self) -> (q: Option<&PostAuthAction>) {
        None
    }

    fn path(&self) -> (p: String) {
        proof {
            self.lemma_path();
        }
        let mut p = "/consent/".to_owned();
        push_decimal(&mut p, self.0);
        p
    }
}

/// Where an interactive step leads once it is done: to where the carried
/// action resumes, or to the index page if it carries none.
pub open spec fn next_url_spec(action: Option<PostAuthAction>) -> Seq<char> {
    match action {
        Some(action) => action.next_url_spec(),
        None => Index.path_spec(),
    }
}

/// A character that a filled-in path parameter may hold: a URL character
/// that neither separates path segments nor starts a query or a fragment.
pub open spec fn is_parameter_char(c: char) -> bool {
    is_url_char(c) && c != '/' && c != '?' && c != '#'
}

/// A path that ends with `/`, followed by parameter characters, is a path
/// again, and the parameter adds no segment to it.
pub proof fn lemma_path_with_parameter(prefix: Seq<char>, parameter: Seq<char>)
    requires
        is_absolute_path(prefix),
        forall|i: int| 0 <= i < parameter.len() ==> is_parameter_char(#[trigger] parameter[i]),
    ensures
        is_absolute_path(prefix + parameter),
        forall|i: int|
            prefix.len() <= i < (prefix + parameter).len() ==> #[trigger] (prefix + parameter)[i]
                != '/',
{
    let path = prefix + parameter;
    assert forall|i: int| 0 <= i < path.len() implies is_url_char(#[trigger] path[i]) && path[i]
        != '?' && path[i] != '#' by {
        if i < prefix.len() {
            assert(path[i] == prefix[i]);
        } else {
            assert(is_parameter_char(parameter[i - prefix.len()]));
        }
    }
    assert forall|i: int| 0 <= i < path.len() - 1 implies !(#[trigger] path[i] == '/' && path[i
        + 1] == '/') by {
        if i + 1 < prefix.len() {
            assert(path[i] == prefix[i]);
            assert(path[i + 1] == prefix[i + 1]);
        } else {
            assert(is_parameter_char(parameter[i + 1 - prefix.len()]));
        }
    }
    assert forall|i: int| prefix.len() <= i < path.len() implies #[trigger] path[i] != '/' by {
        assert(is_parameter_char(parameter[i - prefix.len()]));
    }
}

/// An action that was written as a query string is read back unchanged.
pub proof fn lemma_decode_encode(action: PostAuthAction)
    ensures
        PostAuthAction::decode_spec(encode_utf8(action.encode_spec())) == Some(action),
{
    lemma_tokens();
    reveal_strlit("next");
    reveal_strlit("data");
    reveal_strlit("change_password");
    reveal_strlit("continue_authorization_grant");
    reveal_strlit("next=change_password");
    reveal_strlit("next=continue_authorization_grant&data=");
    let next = ascii_bytes("next"@);
    let data = ascii_bytes("data"@);
    let text = action.encode_spec();
    match action {
        PostAuthAction::ChangePassword => {
            let value = ascii_bytes("change_password"@);
            lemma_ascii_utf8(text);
            assert(ascii_bytes(text) =~= next + seq![EQUALS] + value);
            lemma_values_for_last(next, value, next);
        },
        PostAuthAction::ContinueAuthorizationGrant { data: grant } => {
            let value = ascii_bytes("continue_authorization_grant"@);
            let number = ascii_bytes(decimal(grant as int));
            let rest = data + seq![EQUALS] + number;
            lemma_decimal_chars(grant as int);
            assert forall|i: int| 0 <= i < text.len() implies '\0' <= #[trigger] text[i]
                <= '\u{7f}' by {
                if i >= 39 {
                    assert(is_decimal_char(decimal(grant as int)[i - 39]));
                }
            }
            lemma_ascii_utf8(text);
            assert forall|i: int| 0 <= i < number.len() implies is_plain(#[trigger] number[i]) by {
                assert(is_decimal_char(decimal(grant as int)[i]));
            }
            assert(ascii_bytes(text) =~= next + seq![EQUALS] + value + seq![AMPERSAND] + rest);
            lemma_values_for_first(next, value, rest, next);
            lemma_values_for_last(data, number, next);
            lemma_values_for_first(next, value, rest, data);
            lemma_values_for_last(data, number, data);
            lemma_parse_decimal(grant);
        },
    }
}

/// The URL of a route carries the action of the route, and none if the
/// route has none: what was put into the URL is what is read from it.
pub proof fn lemma_url_round_trip(path: Seq<char>, action: Option<PostAuthAction>)
    requires
        is_absolute_path(path),
    ensures
        PostAuthAction::of_url_spec(encode_utf8(relative_url_spec(path, action))) == action,
{
    let url = relative_url_spec(path, action);
    crate::url_builder::lemma_relative_url(path, action);
    assert forall|i: int| 0 <= i < url.len() implies '\0' <= #[trigger] url[i] <= '\u{7f}' by {
        assert(is_url_char(url[i]));
    }
    lemma_ascii_utf8(url);
    let bytes = ascii_bytes(url);
    assert forall|i: int| 0 <= i < path.len() implies #[trigger] bytes[i] != QUESTION_MARK by {
        assert(url.take(path.len() as int)[i] == url[i]);
        assert(path[i] != '?');
    }
    match action {
        Some(carried) => {
            let text = carried.encode_spec();
            lemma_encode_is_url_text(carried);
            assert(url[path.len() as int] == '?');
            lemma_find_byte_at(bytes, QUESTION_MARK, path.len() as int);
            assert forall|i: int| 0 <= i < text.len() implies '\0' <= #[trigger] text[i]
                <= '\u{7f}' by {
                assert(is_url_char(text[i]));
            }
            lemma_ascii_utf8(text);
            assert(bytes.skip(path.len() as int + 1) =~= ascii_bytes(text));
            lemma_decode_encode(carried);
        },
        None => {
            lemma_find_byte_at(bytes, QUESTION_MARK, bytes.len() as int);
        },
    }
}

/// The query string of an action is never empty, is URL text without a `?`,
/// and starts with the field `next`, which tells the kind of action.
pub proof fn lemma_encode_is_url_text(action: PostAuthAction)
    ensures
        action.encode_spec().len() > 5,
        action.encode_spec().take(5) == "next="@,
        is_url_text(action.encode_spec()),
        forall|i: int| 0 <= i < action.encode_spec().len() ==> #[trigger] action.encode_spec()[i]
            != '?',
{
    reveal_strlit("next=");
    reveal_strlit("next=change_password");
    reveal_strlit("next=continue_authorization_grant&data=");
    let text = action.encode_spec();
    match action {
        PostAuthAction::ChangePassword => {},
        PostAuthAction::ContinueAuthorizationGrant { data: grant } => {
            lemma_decimal_chars(grant as int);
            assert forall|i: int| 0 <= i < text.len() implies is_url_char(#[trigger] text[i])
                && text[i] != '?' by {
                if i >= 39 {
                    assert(is_decimal_char(decimal(grant as int)[i - 39]));
                }
            }
        },
    }
    assert(text.take(5) =~= "next="@);
}

/// A URL holds a `?` exactly when its route carries an action, and then
/// only one: right after the path.
pub proof fn lemma_query_mark(path: Seq<char>, action: Option<PostAuthAction>)
    requires
        is_absolute_path(path),
    ensures
        forall|i: int|
            0 <= i < relative_url_spec(path, action).len() ==> (#[trigger] relative_url_spec(
                path,
                action,
            )[i] == '?' <==> action is Some && i == path.len()),
{
    let url = relative_url_spec(path, action);
    match action {
        Some(carried) => {
            let text = carried.encode_spec();
            lemma_encode_is_url_text(carried);
            assert forall|i: int| 0 <= i < url.len() implies (#[trigger] url[i] == '?' <==> i
                == path.len()) by {
                if i < path.len() {
                    assert(url[i] == path[i]);
                } else if i > path.len() {
                    assert(url[i] == text[i - path.len() - 1]);
                }
            }
        },
        None => {},
    }
}

/// After any interactive step: without an action the way leads to the index
/// page, with a pending grant to `/authorize/` and the grant in decimal
/// notation, and with a password change to `/account/password`.
pub proof fn lemma_next_url(grant: i64)
    ensures
        next_url_spec(None) == "/"@,
        next_url_spec(Some(PostAuthAction::ChangePassword)) == "/account/password"@,
        next_url_spec(Some(PostAuthAction::ContinueAuthorizationGrant { data: grant }))
            == "/authorize/"@ + decimal(grant as int),
{
    lemma_route_table();
}

/// Whatever the grant, the path that resumes it is `/authorize/` followed by
/// one segment that holds the grant in decimal notation and nothing else.
pub proof fn lemma_grant_path(grant: i64)
    ensures
        ContinueAuthorizationGrant(grant).path_spec() == "/authorize/"@ + decimal(grant as int),
        "/authorize/"@.len() == 11,
        decimal(grant as int).len() >= 1,
        forall|i: int|
            11 <= i < ContinueAuthorizationGrant(grant).path_spec().len() ==> is_decimal_char(
                #[trigger] ContinueAuthorizationGrant(grant).path_spec()[i],
            ),
        is_absolute_path(ContinueAuthorizationGrant(grant).path_spec()),
{
    reveal_strlit("/authorize/");
    lemma_decimal_chars(grant as int);
    ContinueAuthorizationGrant(grant).lemma_path();
    let path = ContinueAuthorizationGrant(grant).path_spec();
    assert forall|i: int| 11 <= i < path.len() implies is_decimal_char(#[trigger] path[i]) by {
        assert(path[i] == decimal(grant as int)[i - 11]);
    }
}

/// Whatever the code holds, the path that verifies it is `/verify/` followed
/// by one segment, and the code can be read back from that segment byte for
/// byte.
pub proof fn lemma_verify_email_path(route: VerifyEmail)
    ensures
        "/verify/"@.len() == 8,
        route.path_spec().len() >= 8,
        forall|i: int|
            8 <= i < route.path_spec().len() ==> is_segment_char(#[trigger] route.path_spec()[i]),
        form_decode(ascii_bytes(route.path_spec().skip(8))) == encode_utf8(route.0@),
{
    let code = encode_utf8(route.0@);
    let path = route.path_spec();
    reveal_strlit("/verify/");
    lemma_percent_encode_chars(code);
    lemma_decode_percent_encode(code);
    assert(path.skip(8) =~= percent_encode(code));
    assert forall|i: int| 8 <= i < path.len() implies is_segment_char(#[trigger] path[i]) by {
        assert(path[i] == percent_encode(code)[i - 8]);
    }
}

/// The fixed paths of the routes without parameters.
pub proof fn lemma_route_table()
    ensures
        OidcConfiguration::PATH@ == "/.well-known/openid-configuration"@,
        Webfinger::PATH@ == "/.well-known/webfinger"@,
        ChangePasswordDiscovery::PATH@ == "/.well-known/change-password"@,
        OAuth2Keys::PATH@ == "/oauth2/keys.json"@,
        OidcUserinfo::PATH@ == "/oauth2/userinfo"@,
        OAuth2Introspection::PATH@ == "/oauth2/introspect"@,
        OAuth2TokenEndpoint::PATH@ == "/oauth2/token"@,
        OAuth2RegistrationEndpoint::PATH@ == "/oauth2/registration"@,
        OAuth2AuthorizationEndpoint::PATH@ == "/authorize"@,
        Index::PATH@ == "/"@,
        Healthcheck::PATH@ == "/health"@,
        Logout::PATH@ == "/logout"@,
        Account::PATH@ == "/account"@,
        AccountPassword::PATH@ == "/account/password"@,
        AccountEmails::PATH@ == "/account/emails"@,
        CompatLogin::PATH@ == "/_matrix/client/{version}/login"@,
        CompatLogout::PATH@ == "/_matrix/client/{version}/logout"@,
{
}

/// The URL of a route without parameters is its fixed path: no `?` and no
/// query is ever added to it.
pub proof fn lemma_simple_route_url<T: SimpleRoute>(route: T)
    ensures
        relative_url_spec(route.path_spec(), route.query_spec()) == T::PATH@,
        forall|i: int| 0 <= i < T::PATH@.len() ==> #[trigger] T::PATH@[i] != '?',
{
    T::lemma_simple_path();
}

/// The names and values of the query fields are plain ASCII, one byte per
/// character, and differ from each other.
proof fn lemma_tokens()
    ensures
        encode_utf8("next"@) == ascii_bytes("next"@),
        encode_utf8("data"@) == ascii_bytes("data"@),
        encode_utf8("change_password"@) == ascii_bytes("change_password"@),
        encode_utf8("continue_authorization_grant"@) == ascii_bytes(
            "continue_authorization_grant"@,
        ),
        all_plain(ascii_bytes("next"@)),
        all_plain(ascii_bytes("data"@)),
        all_plain(ascii_bytes("change_password"@)),
        all_plain(ascii_bytes("continue_authorization_grant"@)),
        ascii_bytes("next"@) != ascii_bytes("data"@),
        ascii_bytes("change_password"@) != ascii_bytes("continue_authorization_grant"@),
{
    reveal_strlit("next");
    reveal_strlit("data");
    reveal_strlit("change_password");
    reveal_strlit("continue_authorization_grant");
    lemma_ascii_utf8("next"@);
    lemma_ascii_utf8("data"@);
    lemma_ascii_utf8("change_password"@);
    lemma_ascii_utf8("continue_authorization_grant"@);
    assert(ascii_bytes("next"@)[0] != ascii_bytes("data"@)[0]);
    assert(ascii_bytes("change_password"@).len() != ascii_bytes(
        "continue_authorization_grant"@,
    ).len());
}

} // verus!
