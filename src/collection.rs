use vstd::prelude::*;
use crate::article::{Article, DbArticle};
use crate::error::Error;
use crate::fan_in::{all_ok, first_failure, join_ordered, ok_values};
use crate::object_id::{collection_id, domain_of, generate_object_id, url_domain};
use crate::store::{local_entries, merge_all, ArticleStore};

verus! {

/// The type discriminant of a collection on the wire.
#[derive(Clone, Copy, Debug, PartialEq, Eq, Structural)]
pub enum CollectionType {
    Collection,
}

/// A collection of articles in wire form.
#[derive(Debug, PartialEq, Eq)]
pub struct ArticleCollection {
    pub kind: CollectionType,
    /// Canonical identifier of the collection: an absolute URL.
    pub id: String,
    /// Declared number of items.
    pub total_items: i32,
    /// The items, in the order of the articles they were converted from.
    pub items: Vec<Article>,
}

/// The articles merged into the store by one import, in collection order.
#[derive(Debug, PartialEq, Eq)]
pub struct DbArticleCollection(pub Vec<DbArticle>);

/// `c` is the collection that `owner` publishes with `items` as its items.
pub open spec fn is_export_of(c: ArticleCollection, owner: Seq<char>, items: Seq<Article>) -> bool {
    &&& c.kind == CollectionType::Collection
    &&& collection_id(owner) == Some(c.id@)
    &&& c.items@ == items
    &&& c.total_items as int == items.len()
}

/// The identifier `id` is on the domain of `expected`: both are absolute URLs
/// whose hosts are the same domain.
pub open spec fn domains_match(id: Seq<char>, expected: Seq<char>) -> bool {
    domain_of(id) is Some && domain_of(id) == domain_of(expected)
}

/// Two exports by one owner agree in kind, identifier and count, and their
/// items agree position by position when the conversions of the (unchanged)
/// store's local articles agree: an export depends on the owner and the
/// store's content alone.
pub proof fn lemma_export_repeatable(
    store: Seq<DbArticle>,
    owner: Seq<char>,
    x: ArticleCollection,
    y: ArticleCollection,
    items_x: Seq<Article>,
    items_y: Seq<Article>,
)
    requires
        items_x.len() == local_entries(store).len(),
        items_y.len() == local_entries(store).len(),
        is_export_of(x, owner, items_x),
        is_export_of(y, owner, items_y),
    ensures
        x.kind == y.kind,
        x.id@ == y.id@,
        x.total_items == y.total_items,
        x.total_items as int == x.items@.len(),
        items_x == items_y ==> x.items@ == y.items@,
{
}

impl DbArticleCollection {
    /// Builds the collection that `owner` publishes, from the conversions of
    /// its local articles to wire form, given in store order. A failed
    /// conversion fails the whole export; so does an owner identity from
    /// which no collection identifier can be derived.
    pub fn read_local(owner: &str, converted: Vec<Result<Article, String>>) -> (r: Result<
        ArticleCollection,
        Error,
    >)
        requires
            converted@.len() <= i32::MAX,
        ensures
            !all_ok(converted@) ==> r == Err::<ArticleCollection, Error>(
                Error::ItemConversionFailed(first_failure(converted@)),
            ),
            all_ok(converted@) && collection_id(owner@) is None ==> r == Err::<
                ArticleCollection,
                Error,
            >(Error::MalformedIdentifier),
            all_ok(converted@) && collection_id(owner@) is Some ==> r is Ok,
            r matches Ok(c) ==> is_export_of(c, owner@, ok_values(converted@)),
            r matches Ok(c) ==> c.total_items as int == c.items@.len(),
    {
        let items = match join_ordered(converted) {
            Ok(items) => items,
            Err(e) => {
                return Err(Error::ItemConversionFailed(e));
            },
        };
        let id = generate_object_id(owner)?;
        let total_items = items.len() as i32;
        Ok(ArticleCollection { kind: CollectionType::Collection, id, total_items, items })
    }

    /// Checks that a received collection's identifier is on the expected
    /// domain; any mismatch, or an identifier without a domain, rejects it.
    pub fn verify(apub: &ArticleCollection, expected_domain: &str) -> (r: Result<(), Error>)
        ensures
            r is Ok <==> domains_match(apub.id@, expected_domain@),
            r matches Err(e) ==> e == Error::VerificationFailed,
    {
        let got = url_domain(apub.id.as_str());
        let want = url_domain(expected_domain);
        match (got, want) {
            (Some(a), Some(b)) => {
                if a == b {
                    Ok(())
                } else {
                    Err(Error::VerificationFailed)
                }
            },
            _ => Err(Error::VerificationFailed),
        }
    }

    /// Hands out a received collection's items for conversion, only once the
    /// collection has passed `verify`.
    pub fn verified_items(apub: ArticleCollection, expected_domain: &str) -> (r: Result<
        Vec<Article>,
        Error,
    >)
        ensures
            r is Ok <==> domains_match(apub.id@, expected_domain@),
            r matches Ok(items) ==> items@ == apub.items@,
            r matches Err(e) ==> e == Error::VerificationFailed,
    {
        Self::verify(&apub, expected_domain)?;
        Ok(apub.items)
    }

    /// Merges the conversions of a verified collection's items, given in
    /// collection order, into the store, and returns the merged articles in
    /// that order. A failed conversion fails the whole import and leaves the
    /// store as it was.
    pub fn from_json(converted: Vec<Result<DbArticle, String>>, store: &mut ArticleStore) -> (r:
        Result<DbArticleCollection, Error>)
        requires
            old(store).wf(),
        ensures
            final(store).wf(),
            r is Ok <==> all_ok(converted@),
            r matches Ok(c) ==> c.0@ == ok_values(converted@),
            r is Ok ==> final(store)@ == merge_all(old(store)@, ok_values(converted@)),
            r is Err ==> r == Err::<DbArticleCollection, Error>(
                Error::ItemConversionFailed(first_failure(converted@)),
            ),
            r is Err ==> final(store)@ == old(store)@,
    {
        match join_ordered(converted) {
            Ok(articles) => {
                store.merge(&articles);
                Ok(DbArticleCollection(articles))
            },
            Err(e) => Err(Error::ItemConversionFailed(e)),
        }
    }
}

} // verus!
