//! A web request as plain values: where it goes and what it asks.

use vstd::prelude::*;

verus! {

/// One `key=value` pair of a query.
pub type Pair = (String, String);

/// The views of a list of pairs.
pub open spec fn pair_views(pairs: Seq<Pair>) -> Seq<(Seq<char>, Seq<char>)> {
    pairs.map_values(|p: Pair| (p.0@, p.1@))
}

/// A request to fetch something from the web.
#[derive(Debug, Clone, PartialEq, Eq)]
pub struct Request {
    /// The address to fetch.
    pub url: String,
    /// The query to attach to the address, in order.
    pub query: Vec<Pair>,
}

/// What a [`Request`] holds, as mathematical values.
pub struct RequestView {
    pub url: Seq<char>,
    pub query: Seq<(Seq<char>, Seq<char>)>,
}

impl View for Request {
    type V = RequestView;

    open spec fn view(&self) -> RequestView {
        RequestView { url: self.url@, query: pair_views(self.query@) }
    }
}

/// Adds the pair `key=value` at the end of `query`.
pub fn push_pair(query: &mut Vec<Pair>, key: &str, value: &str)
    ensures
        pair_views(final(query)@) == pair_views(old(query)@).push((key@, value@)),
{
    let k = key.to_owned();
    let v = value.to_owned();
    query.push((k, v));
    assert(pair_views(query@) =~= pair_views(old(query)@).push((key@, value@)));
}

} // verus!
