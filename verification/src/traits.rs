//! The capabilities shared by all routes: a path, an optional query, and the
//! URLs and redirects built from them.

use crate::endpoints::PostAuthAction;
use crate::trusted::{redirect_location, redirect_status};
use crate::url_builder::{joined_by_one_slash, lemma_absolute_url, lemma_relative_url, UrlBuilder};
use axum::response::Redirect;
use vstd::prelude::*;
use vstd::string::*;

verus! {

/// A character that may stand in a URL as it is sent: printable ASCII,
/// without the space.
pub open spec fn is_url_char(c: char) -> bool {
    '!' <= c <= '~'
}

/// Every character of `s` is a URL character.
pub open spec fn is_url_text(s: Seq<char>) -> bool {
    forall|i: int| 0 <= i < s.len() ==> is_url_char(#[trigger] s[i])
}

/// A rendered path: URL text that starts with `/`, holds no `?` and no `#`,
/// and never has two `/` in a row.
pub open spec fn is_absolute_path(p: Seq<char>) -> bool {
    &&& p.len() > 0
    &&& p[0] == '/'
    &&& is_url_text(p)
    &&& forall|i: int| 0 <= i < p.len() ==> #[trigger] p[i] != '?' && p[i] != '#'
    &&& forall|i: int| 0 <= i < p.len() - 1 ==> !(#[trigger] p[i] == '/' && p[i + 1] == '/')
}

/// The URL of a route relative to the server root: the path, followed by `?`
/// and the encoded query when there is one.
pub open spec fn relative_url_spec(path: Seq<char>, query: Option<PostAuthAction>) -> Seq<char> {
    match query {
        None => path,
        Some(action) => path + seq!['?'] + action.encode_spec(),
    }
}

/// A route: an endpoint of the server together with the values that its URL
/// is built from.
pub trait Route {
    /// The path template under which the route is registered.
    spec fn route_spec() -> Seq<char>;

    /// The path of this route, with its parameters filled in.
    spec fn path_spec(&self) -> Seq<char>;

    /// The query payload of this route, if it carries one.
    spec fn query_spec(&self) -> Option<PostAuthAction>;

    /// The rendered path is always a well-formed absolute path, whatever the
    /// parameters hold.
    proof fn lemma_path(&self)
        ensures
            is_absolute_path(self.path_spec()),
    ;

    /// The path template under which the route is registered.
    fn route() -> (template: &'static str)
        ensures
            template@ == Self::route_spec(),
    ;

    /// The query payload of this route, if it carries one.
    fn query(&self) -> (q: Option<&PostAuthAction>)
        ensures
            q is Some == self.query_spec() is Some,
            q matches Some(action) ==> Some(*action) == self.query_spec(),
    ;

    /// The path of this route, with its parameters filled in.
    fn path(&self) -> (p: String)
        ensures
            p@ == self.path_spec(),
            is_absolute_path(p@),
    ;

    /// The URL of this route relative to the server root.
    fn relative_url(&self) -> (url: String)
        ensures
            url@ == relative_url_spec(self.path_spec(), self.query_spec()),
            is_url_text(url@),
    {
        proof {
            self.lemma_path();
            lemma_relative_url(self.path_spec(), self.query_spec());
        }
        let mut url = self.path();
        match self.query() {
            Some(action) => {
                url.push('?');
                let query = action.encode();
                url.append(query.as_str());
                assert(url@ =~= self.path_spec() + seq!['?'] + action.encode_spec());
                url
            },
            None => url,
        }
    }

    /// The full URL of this route on the server that `base` describes.
    fn absolute_url(&self, base: &UrlBuilder) -> (url: String)
        ensures
            url@ == base@ + relative_url_spec(self.path_spec(), self.query_spec()),
            is_url_text(url@),
            joined_by_one_slash(url@, base@.len() as int),
    {
        let mut url = base.base().to_owned();
        proof {
            self.lemma_path();
            lemma_absolute_url(base@, self.path_spec(), self.query_spec());
        }
        let relative = self.relative_url();
        url.append(relative.as_str());
        url
    }

    /// A redirect to this route, by its relative URL. The URL is always fit
    /// to be sent as a `Location` header.
    fn go(&self) -> (r: Redirect)
        ensures
            redirect_location(r) == relative_url_spec(self.path_spec(), self.query_spec()),
            redirect_status(r) == 303,
            is_url_text(redirect_location(r)),
    {
        let url = self.relative_url();
        Redirect::to(url.as_str())
    }

    /// A redirect to this route, by its full URL. The URL is always fit to
    /// be sent as a `Location` header.
    fn go_absolute(&self, base: &UrlBuilder) -> (r: Redirect)
        ensures
            redirect_location(r) == base@ + relative_url_spec(
                self.path_spec(),
                self.query_spec(),
            ),
            redirect_status(r) == 303,
            is_url_text(redirect_location(r)),
            joined_by_one_slash(redirect_location(r), base@.len() as int),
    {
        let url = self.absolute_url(base);
        Redirect::to(url.as_str())
    }
}

/// A route with a fixed path and neither parameters nor a query.
pub trait SimpleRoute {
    /// The fixed path.
    const PATH: &'static str;

    /// The fixed path is a well-formed absolute path.
    proof fn lemma_simple_path()
        ensures
            is_absolute_path(Self::PATH@),
    ;
}

impl<T: SimpleRoute> Route for T {
    open spec fn route_spec() -> Seq<char> {
        T::PATH@
    }

    open spec fn path_spec(&self) -> Seq<char> {
        T::PATH@
    }

    open spec fn query_spec(&self) -> Option<PostAuthAction> {
        None
    }

    proof fn lemma_path(&self) {
        T::lemma_simple_path();
    }

    fn route() -> (template: &'static str) {
        T::PATH
    }

    fn query(&self) -> (q: Option<&PostAuthAction>) {
        None
    }

    fn path(&self) -> (p: String) {
        proof {
            T::lemma_simple_path();
        }
        T::PATH.to_owned()
    }
}

} // verus!
