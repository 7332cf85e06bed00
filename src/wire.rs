use vstd::prelude::*;

use crate::json::opt_view;

verus! {

/// Lengths up to this many characters keep every URL built here within the
/// 32-bit offsets that the `url` crate uses internally.
pub const MAX_URL_PART: usize = 0x0100_0000;

/// The serialized URL obtained by appending one path segment to `base`,
/// or `None` when `base` does not parse or cannot take path segments.
pub uninterp spec fn url_with_segment(base: Seq<char>, segment: Seq<char>) -> Option<Seq<char>>;

/// The serialized URL obtained by appending the query pairs to `base`, in order,
/// or `None` when `base` does not parse.
pub uninterp spec fn url_with_query(base: Seq<char>, pairs: Seq<(Seq<char>, Seq<char>)>) -> Option<Seq<char>>;

/// The `application/x-www-form-urlencoded` serialization of the pairs, in order.
pub uninterp spec fn form_urlencoded_of(pairs: Seq<(Seq<char>, Seq<char>)>) -> Seq<char>;

pub open spec fn pairs_view(pairs: Seq<(String, String)>) -> Seq<(Seq<char>, Seq<char>)> {
    pairs.map_values(|p: (String, String)| (p.0@, p.1@))
}

/// Every key and value is short enough to be placed in a URL.
pub open spec fn pairs_bounded(pairs: Seq<(String, String)>) -> bool {
    forall|i: int| 0 <= i < pairs.len() ==> (#[trigger] pairs[i]).0@.len() <= MAX_URL_PART
        && pairs[i].1@.len() <= MAX_URL_PART
}

/// Relies on `url::Url::parse` and `url::PathSegmentsMut::extend`: the result depends
/// on the base URL and the segment alone; `None` when the base URL does not parse or
/// cannot be a base.
#[verifier::external_body]
pub(crate) fn append_path_segment(base: &str, segment: &str) -> (r: Option<String>)
    requires
        base@.len() <= MAX_URL_PART,
        segment@.len() <= MAX_URL_PART,
    ensures
        opt_view(r) == url_with_segment(base@, segment@),
{
    let mut url = url::Url::parse(base).ok()?;
    url.path_segments_mut().ok()?.extend(&[segment]);
    Some(String::from(url))
}

/// Relies on `url::Url::parse` and `url::Url::query_pairs_mut`: the result depends on
/// the base URL and the pairs alone; `None` when the base URL does not parse.
#[verifier::external_body]
pub(crate) fn append_query_pairs(base: &str, pairs: &Vec<(String, String)>) -> (r: Option<String>)
    requires
        base@.len() <= MAX_URL_PART,
        pairs@.len() <= 5,
        pairs_bounded(pairs@),
    ensures
        opt_view(r) == url_with_query(base@, pairs_view(pairs@)),
{
    let mut url = url::Url::parse(base).ok()?;
    url.query_pairs_mut().extend_pairs(pairs.iter().map(|p| (p.0.as_str(), p.1.as_str())));
    Some(String::from(url))
}

/// Relies on `url::form_urlencoded::Serializer`: the body depends on the pairs alone.
#[verifier::external_body]
pub(crate) fn form_encode(pairs: &Vec<(String, String)>) -> (r: String)
    ensures
        r@ == form_urlencoded_of(pairs_view(pairs@)),
{
    let mut body = url::form_urlencoded::Serializer::new(String::new());
    body.extend_pairs(pairs.iter().map(|p| (p.0.as_str(), p.1.as_str())));
    body.finish()
}

} // verus!
