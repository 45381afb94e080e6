//! The description of an HTTP request to the gateway: the URL, the query
//! parameters and the headers, in the order in which they are sent. The
//! transport turns it into a real request.
use vstd::prelude::*;
use vstd::string::StringExecFns;

verus! {

/// The HTTP method of a request.
#[derive(Debug, Clone)]
pub enum HttpMethod {
    Get,
    Post,
    Delete,
    /// Any other method, by its name (used for proxied requests).
    Other(String),
}

/// A request to the gateway, as the library decides it.
#[derive(Debug, Clone)]
pub struct GatewayRequest {
    /// The HTTP method.
    pub method: HttpMethod,
    /// The full URL, without query string.
    pub url: String,
    /// Query parameters, in order.
    pub query: Vec<(String, String)>,
    /// Header names and values, in order.
    pub headers: Vec<(String, String)>,
}

/// The text of a list of name/value pairs.
pub open spec fn pairs_view(v: Seq<(String, String)>) -> Seq<(Seq<char>, Seq<char>)> {
    v.map_values(|p: (String, String)| (p.0@, p.1@))
}

/// The text of an optional string.
pub open spec fn opt_view(o: Option<String>) -> Option<Seq<char>> {
    match o {
        Some(s) => Some(s@),
        None => None,
    }
}

/// No pairs have no text.
pub proof fn lemma_no_pairs()
    ensures
        pairs_view(Seq::<(String, String)>::empty()) == Seq::<(Seq<char>, Seq<char>)>::empty(),
{
    assert(pairs_view(Seq::<(String, String)>::empty()) =~= Seq::<(Seq<char>, Seq<char>)>::empty());
}

/// Appends the pair `(name, value)` to `v`.
pub fn push_pair(v: &mut Vec<(String, String)>, name: &str, value: &str)
    ensures
        pairs_view(final(v)@) == pairs_view(old(v)@).push((name@, value@)),
{
    let pair = (String::from_str(name), String::from_str(value));
    v.push(pair);
    assert(pairs_view(final(v)@) =~= pairs_view(old(v)@).push((name@, value@)));
}

/// Appends every pair of `extra` to `v`, in order.
pub fn append_pairs(v: &mut Vec<(String, String)>, extra: Vec<(String, String)>)
    ensures
        pairs_view(final(v)@) == pairs_view(old(v)@) + pairs_view(extra@),
{
    let n: usize = extra.len();
    let mut i: usize = 0;
    while i < n
        invariant
            n == extra@.len(),
            i <= n,
            pairs_view(v@) == pairs_view(old(v)@) + pairs_view(extra@.subrange(0, i as int)),
        decreases n - i,
    {
        let ghost prev = v@;
        let pair = (extra[i].0.clone(), extra[i].1.clone());
        v.push(pair);
        assert(pairs_view(v@) =~= pairs_view(prev).push((pair.0@, pair.1@)));
        assert(extra@.subrange(0, i + 1) =~= extra@.subrange(0, i as int).push(extra@[i as int]));
        assert(pairs_view(extra@.subrange(0, i + 1)) =~= pairs_view(extra@.subrange(0, i as int)).push((pair.0@, pair.1@)));
        assert(pairs_view(v@) =~= pairs_view(old(v)@) + pairs_view(extra@.subrange(0, i + 1)));
        i = i + 1;
    }
    assert(extra@.subrange(0, n as int) =~= extra@);
}

} // verus!
