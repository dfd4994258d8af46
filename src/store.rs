use vstd::prelude::*;
use crate::article::DbArticle;

verus! {

/// No two entries share a canonical identifier.
pub open spec fn ids_unique(s: Seq<DbArticle>) -> bool {
    forall|i: int, j: int|
        0 <= i < s.len() && 0 <= j < s.len() && i != j ==> #[trigger] s[i].ap_id@
            != #[trigger] s[j].ap_id@
}

/// Some entry carries the identifier `id`.
pub open spec fn has_id(s: Seq<DbArticle>, id: Seq<char>) -> bool {
    exists|i: int| 0 <= i < s.len() && #[trigger] s[i].ap_id@ == id
}

/// The entries authored on this instance, in store order.
pub open spec fn local_entries(s: Seq<DbArticle>) -> Seq<DbArticle> {
    s.filter(|a: DbArticle| a.local)
}

/// Merging one article: it replaces, in place, the entry with its identifier;
/// when there is none it is appended.
pub open spec fn upsert(s: Seq<DbArticle>, a: DbArticle) -> Seq<DbArticle> {
    if has_id(s, a.ap_id@) {
        s.update(choose|i: int| 0 <= i < s.len() && #[trigger] s[i].ap_id@ == a.ap_id@, a)
    } else {
        s.push(a)
    }
}

/// Merging a batch: its articles one after another, in batch order.
pub open spec fn merge_all(s: Seq<DbArticle>, batch: Seq<DbArticle>) -> Seq<DbArticle>
    decreases batch.len(),
{
    if batch.len() == 0 {
        s
    } else {
        upsert(merge_all(s, batch.drop_last()), batch.last())
    }
}

/// Every article this instance knows, authored here or imported, at most one
/// entry per canonical identifier.
pub struct ArticleStore {
    articles: Vec<DbArticle>,
}

impl View for ArticleStore {
    type V = Seq<DbArticle>;

    closed spec fn view(&self) -> Seq<DbArticle> {
        self.articles@
    }
}

impl ArticleStore {
    pub open spec fn wf(&self) -> bool {
        ids_unique(self@)
    }

    pub fn new() -> (r: ArticleStore)
        ensures
            r.wf(),
            r@ == Seq::<DbArticle>::empty(),
    {
        ArticleStore { articles: Vec::new() }
    }

    /// All entries, in store order.
    pub fn articles(&self) -> (r: &Vec<DbArticle>)
        ensures
            r@ == self@,
    {
        &self.articles
    }

    /// A copy of the entries authored on this instance, in store order.
    pub fn snapshot_local(&self) -> (r: Vec<DbArticle>)
        ensures
            r@ == local_entries(self@),
    {
        let mut out: Vec<DbArticle> = Vec::new();
        let n = self.articles.len();
        for i in 0..n
            invariant
                n == self@.len(),
                out@ == local_entries(self@.take(i as int)),
        {
            let a = &self.articles[i];
            proof {
                reveal(Seq::filter);
                assert(self@.take(i + 1).drop_last() =~= self@.take(i as int));
                assert(self@.take(i + 1).last() == self@[i as int]);
            }
            if a.local {
                out.push(a.clone());
            }
        }
        assert(self@.take(n as int) =~= self@);
        out
    }

    /// Merges one article: see `upsert`.
    pub fn upsert(&mut self, a: DbArticle)
        requires
            old(self).wf(),
        ensures
            final(self).wf(),
            final(self)@ == upsert(old(self)@, a),
    {
        let n = self.articles.len();
        for i in 0..n
            invariant
                n == self@.len(),
                self@ == old(self)@,
                ids_unique(self@),
                forall|j: int| 0 <= j < i ==> #[trigger] self@[j].ap_id@ != a.ap_id@,
        {
            if self.articles[i].ap_id == a.ap_id {
                proof {
                    let c = choose|c: int| 0 <= c < self@.len() && #[trigger] self@[c].ap_id@ == a.ap_id@;
                    assert(self@[i as int].ap_id@ == a.ap_id@);
                    assert(c == i);
                }
                self.articles.set(i, a);
                return;
            }
        }
        self.articles.push(a);
    }

    /// Merges a batch, article after article: an article whose identifier is
    /// already stored replaces that entry in place; any other is appended.
    pub fn merge(&mut self, batch: &Vec<DbArticle>)
        requires
            old(self).wf(),
        ensures
            final(self).wf(),
            final(self)@ == merge_all(old(self)@, batch@),
    {
        let n = batch.len();
        for i in 0..n
            invariant
                n == batch@.len(),
                self.wf(),
                self@ == merge_all(old(self)@, batch@.take(i as int)),
        {
            proof {
                assert(batch@.take(i + 1).drop_last() =~= batch@.take(i as int));
            }
            self.upsert(batch[i].clone());
        }
        assert(batch@.take(n as int) =~= batch@);
    }
}

} // verus!
