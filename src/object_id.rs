use vstd::prelude::*;
use crate::error::Error;

verus! {

/// What `url::Url::parse(base)` followed by `Url::join(segment)` serialises
/// to, or `None` where either step fails.
pub uninterp spec fn joined_url(base: Seq<char>, segment: Seq<char>) -> Option<Seq<char>>;

/// The domain of the URL that `url::Url::parse(s)` reads, or `None` where `s`
/// is no absolute URL or its host is no domain (an IP address, or no host).
pub uninterp spec fn domain_of(s: Seq<char>) -> Option<Seq<char>>;

/// Relies on url::Url::parse and Url::join: resolves `segment` as a reference
/// relative to `base`, and fails where `base` is no absolute URL or cannot be
/// a base.
#[verifier::external_body]
fn url_join(base: &str, segment: &str) -> (r: Option<String>)
    ensures
        r is None <==> joined_url(base@, segment@) is None,
        r matches Some(u) ==> joined_url(base@, segment@) == Some(u@),
{
    match url::Url::parse(base) {
        Ok(u) => match u.join(segment) {
            Ok(j) => Some(j.into()),
            Err(_) => None,
        },
        Err(_) => None,
    }
}

/// Relies on url::Url::parse and Url::domain: the domain of an absolute URL.
#[verifier::external_body]
pub(crate) fn url_domain(s: &str) -> (r: Option<String>)
    ensures
        r is None <==> domain_of(s@) is None,
        r matches Some(d) ==> domain_of(s@) == Some(d@),
{
    match url::Url::parse(s) {
        Ok(u) => u.domain().map(String::from),
        Err(_) => None,
    }
}

/// The path, relative to the owner's identity, of its article collection.
pub const COLLECTION_PATH: &'static str = "articles";

/// The path segment of `COLLECTION_PATH`, as characters.
pub open spec fn collection_path() -> Seq<char> {
    seq!['a', 'r', 't', 'i', 'c', 'l', 'e', 's']
}

/// The identifier of the article collection that `owner` publishes; it
/// depends on the owner's identity alone.
pub open spec fn collection_id(owner: Seq<char>) -> Option<Seq<char>> {
    joined_url(owner, collection_path())
}

/// Derives the identifier of `owner`'s article collection from the owner's
/// identity URL: the same owner always gets the same identifier.
pub fn generate_object_id(owner: &str) -> (r: Result<String, Error>)
    ensures
        r is Err <==> collection_id(owner@) is None,
        r matches Err(e) ==> e == Error::MalformedIdentifier,
        r matches Ok(id) ==> collection_id(owner@) == Some(id@),
{
    proof {
        reveal_strlit("articles");
    }
    assert(COLLECTION_PATH@ == collection_path());
    match url_join(owner, COLLECTION_PATH) {
        Some(id) => Ok(id),
        None => Err(Error::MalformedIdentifier),
    }
}

} // verus!
