//! Sanitising, converting, folding and mining fetched page fragments.

pub mod article;
pub mod cleaner;
pub mod error;
pub mod fold;
pub mod patterns;
pub mod pipeline;
pub mod session;

pub use article::{extract_url_headline, NewsArticle};
pub use cleaner::{CleanerConfig, HtmlCleaner};
pub use error::GatherError;
pub use fold::fold_articles;
pub use pipeline::{clean_html, gather_article, gather_article_with, gather_google_articles};
