//! Export and import of a federated collection of articles: the local store,
//! the ordered fan-in of per-item conversions, the collection identifier and
//! the domain check that gates every import.

pub mod article;
pub mod collection;
pub mod error;
pub mod fan_in;
pub mod object_id;
pub mod store;

pub use article::{Article, DbArticle};
pub use collection::{ArticleCollection, CollectionType, DbArticleCollection};
pub use error::Error;
pub use store::ArticleStore;
