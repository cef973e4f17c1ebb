//! The configured public base of the server, from which full URLs are built.

use crate::ascii::{EXCLAMATION_MARK, SLASH, TILDE};
use crate::endpoints::{lemma_encode_is_url_text, PostAuthAction};
use crate::traits::{is_absolute_path, is_url_char, is_url_text, relative_url_spec, Route};
use vstd::prelude::*;
use vstd::string::*;

verus! {

/// `base` without the slashes at its end.
pub open spec fn trim_trailing_slashes(base: Seq<char>) -> Seq<char>
    decreases base.len(),
{
    if base.len() > 0 && base.last() == '/' {
        trim_trailing_slashes(base.drop_last())
    } else {
        base
    }
}

/// Builds URLs on a public base, such as `https://auth.example.com/`.
#[derive(Debug)]
pub struct UrlBuilder {
    base: String,
}

impl View for UrlBuilder {
    type V = Seq<char>;

    /// The base as it is prepended to relative URLs.
    closed spec fn view(&self) -> Seq<char> {
        self.base@
    }
}

impl Clone for UrlBuilder {
    fn clone(&self) -> (r: Self)
        ensures
            r@ == self@,
    {
        proof {
            use_type_invariant(self);
        }
        UrlBuilder { base: self.base.clone() }
    }
}

impl UrlBuilder {
    #[verifier::type_invariant]
    spec fn well_formed(&self) -> bool {
        is_base(self.base@)
    }

    /// Takes `base` as the public base of the server, without the slashes at
    /// its end. A base that holds anything but printable ASCII without
    /// spaces is no URL and is refused.
    pub fn new(base: &str) -> (r: Option<UrlBuilder>)
        ensures
            r is Some == is_url_text(base@),
            r matches Some(builder) ==> builder@ == trim_trailing_slashes(base@),
    {
        if !base.is_ascii() {
            assert(!is_url_text(base@)) by {
                if is_url_text(base@) {
                    assert forall|i: int| 0 <= i < base@.len() implies '\0' <= #[trigger] base@[i]
                        <= '\u{7f}' by {
                        assert(is_url_char(base@[i]));
                    }
                }
            }
            return None;
        }
        let n = base.unicode_len();
        let mut i: usize = 0;
        while i < n
            invariant
                n == base@.len(),
                i <= n,
                base.is_ascii(),
                forall|k: int| 0 <= k < i ==> is_url_char(#[trigger] base@[k]),
            decreases n - i,
        {
            let b = base.get_ascii(i);
            if b < EXCLAMATION_MARK || b > TILDE {
                assert(!is_url_char(base@[i as int]));
                return None;
            }
            i = i + 1;
        }
        let mut end: usize = n;
        while end > 0 && base.get_ascii(end - 1) == SLASH
            invariant
                n == base@.len(),
                end <= n,
                base.is_ascii(),
                forall|k: int| end <= k < n ==> #[trigger] base@[k] == '/',
            decreases end,
        {
            end = end - 1;
        }
        let trimmed = base.substring_ascii(0, end);
        proof {
            lemma_trim_at(base@, end as int);
            assert(base@.subrange(0, end as int) =~= base@.take(end as int));
            lemma_trim_is_base(base@);
        }
        Some(UrlBuilder { base: trimmed.to_owned() })
    }

    /// The base, as it is prepended to relative URLs.
    pub fn base(&self) -> (base: &str)
        ensures
            base@ == self@,
            is_base(self@),
    {
        proof {
            use_type_invariant(self);
        }
        self.base.as_str()
    }

    /// The URL of `destination` relative to the server root.
    pub fn relative_url_for<R: Route>(&self, destination: &R) -> (url: String)
        ensures
            url@ == relative_url_spec(destination.path_spec(), destination.query_spec()),
            is_url_text(url@),
    {
        destination.relative_url()
    }

    /// The full URL of `destination`: the base, then the relative URL.
    pub fn absolute_url_for<R: Route>(&self, destination: &R) -> (url: String)
        ensures
            url@ == self@ + relative_url_spec(destination.path_spec(), destination.query_spec()),
            is_url_text(url@),
            joined_by_one_slash(url@, self@.len() as int),
    {
        destination.absolute_url(self)
    }
}

/// What a builder holds: URL text that does not end with `/`.
pub open spec fn is_base(base: Seq<char>) -> bool {
    is_url_text(base) && (base.len() > 0 ==> base.last() != '/')
}

/// Trimming removes exactly the run of slashes at the end.
pub proof fn lemma_trim_at(base: Seq<char>, end: int)
    requires
        0 <= end <= base.len(),
        forall|k: int| end <= k < base.len() ==> #[trigger] base[k] == '/',
        end > 0 ==> base[end - 1] != '/',
    ensures
        trim_trailing_slashes(base) == base.take(end),
    decreases base.len(),
{
    if end == base.len() {
        assert(base.take(end) =~= base);
    } else {
        assert(base.last() == '/');
        lemma_trim_at(base.drop_last(), end);
        assert(base.drop_last().take(end) =~= base.take(end));
    }
}

/// What trimming leaves never ends with `/`, and it is URL text if the
/// untrimmed base was.
pub proof fn lemma_trim_is_base(base: Seq<char>)
    ensures
        trim_trailing_slashes(base).len() > 0 ==> trim_trailing_slashes(base).last() != '/',
        is_url_text(base) ==> is_base(trim_trailing_slashes(base)),
    decreases base.len(),
{
    if base.len() > 0 && base.last() == '/' {
        lemma_trim_is_base(base.drop_last());
        if is_url_text(base) {
            assert forall|i: int| 0 <= i < base.drop_last().len() implies is_url_char(
                #[trigger] base.drop_last()[i],
            ) by {
                assert(is_url_char(base[i]));
            }
        }
    }
}

/// The URL of a route is URL text.
pub proof fn lemma_relative_url(path: Seq<char>, query: Option<PostAuthAction>)
    requires
        is_absolute_path(path),
    ensures
        is_url_text(relative_url_spec(path, query)),
        relative_url_spec(path, query).len() >= path.len(),
        relative_url_spec(path, query).take(path.len() as int) == path,
{
    let url = relative_url_spec(path, query);
    match query {
        Some(action) => {
            lemma_encode_is_url_text(action);
            let text = action.encode_spec();
            assert forall|i: int| 0 <= i < url.len() implies is_url_char(#[trigger] url[i]) by {
                if i < path.len() {
                    assert(is_url_char(path[i]));
                } else if i > path.len() {
                    assert(is_url_char(text[i - path.len() - 1]));
                }
            }
            assert(url.take(path.len() as int) =~= path);
        },
        None => {
            assert(url.take(path.len() as int) =~= path);
        },
    }
}

/// There is a `/` at position `at` of `url`, and none right before or right
/// after it.
pub open spec fn joined_by_one_slash(url: Seq<char>, at: int) -> bool {
    &&& 0 <= at < url.len()
    &&& url[at] == '/'
    &&& at > 0 ==> url[at - 1] != '/'
    &&& at + 1 < url.len() ==> url[at + 1] != '/'
}

/// A full URL is the base followed by the relative URL, and where the two
/// meet there is exactly one `/`: the base does not end with one, and the
/// path starts with one and goes on with something else.
pub proof fn lemma_absolute_url(base: Seq<char>, path: Seq<char>, query: Option<PostAuthAction>)
    requires
        is_base(base),
        is_absolute_path(path),
    ensures
        is_url_text(base + relative_url_spec(path, query)),
        joined_by_one_slash(base + relative_url_spec(path, query), base.len() as int),
{
    let relative = relative_url_spec(path, query);
    let url = base + relative;
    lemma_relative_url(path, query);
    assert forall|i: int| 0 <= i < url.len() implies is_url_char(#[trigger] url[i]) by {
        if i < base.len() {
            assert(is_url_char(base[i]));
        } else {
            assert(is_url_char(relative[i - base.len()]));
        }
    }
    assert(relative.take(path.len() as int)[0] == relative[0]);
    if relative.len() > 1 {
        if path.len() > 1 {
            assert(relative.take(path.len() as int)[1] == relative[1]);
            assert(!(path[0] == '/' && path[1] == '/'));
        } else {
            assert(query is Some);
            assert(relative[1] == '?');
        }
    }
}

} // verus!
