//! The request URI as the front-end sees it.

use vstd::prelude::*;

verus! {

/// The two components of a request URI that decide a response: the path,
/// and the query string that follows the first `?`, if there is one.
///
/// The server's HTTP layer has already split the URI; nothing here looks
/// for a `?` again. A URI that ends in `?` has a query that is present and
/// empty, which is not the same as having none.
#[derive(Clone, Debug, PartialEq, Eq)]
pub struct RequestUri {
    pub path: String,
    pub query: Option<String>,
}

/// A request URI as character sequences.
pub struct RequestUriView {
    pub path: Seq<char>,
    pub query: Option<Seq<char>>,
}

impl View for RequestUri {
    type V = RequestUriView;

    open spec fn view(&self) -> RequestUriView {
        RequestUriView {
            path: self.path@,
            query: match self.query {
                Some(q) => Some(q@),
                None => None,
            },
        }
    }
}

} // verus!
