use vstd::prelude::*;

verus! {

/// An article as this instance keeps it.
#[derive(Debug, PartialEq, Eq)]
pub struct DbArticle {
    /// Canonical identifier: the article's absolute URL.
    pub ap_id: String,
    /// Identity URL of the instance the article originates from.
    pub instance: String,
    pub title: String,
    pub text: String,
    /// True for articles authored on this instance, false for imported ones.
    pub local: bool,
}

impl Clone for DbArticle {
    fn clone(&self) -> (r: Self)
        ensures
            r == *self,
    {
        DbArticle {
            ap_id: self.ap_id.clone(),
            instance: self.instance.clone(),
            title: self.title.clone(),
            text: self.text.clone(),
            local: self.local,
        }
    }
}

/// The wire form of an article, as it stands among a collection's items.
#[derive(Debug, PartialEq, Eq)]
pub struct Article {
    pub id: String,
    pub attributed_to: String,
    pub name: String,
    pub content: String,
}

impl Clone for Article {
    fn clone(&self) -> (r: Self)
        ensures
            r == *self,
    {
        Article {
            id: self.id.clone(),
            attributed_to: self.attributed_to.clone(),
            name: self.name.clone(),
            content: self.content.clone(),
        }
    }
}

} // verus!
