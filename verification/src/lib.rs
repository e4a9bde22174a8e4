//! Release-notes service core: a markdown-to-items reduction engine and a
//! bounded least-recently-used cache of release records, with the decision
//! logic that picks between a cached record and a fresh upstream fetch.

pub mod ast;
pub mod cache;
pub mod items;
pub mod record;

pub use ast::MdNode;
pub use cache::{Cache, RefreshStatus, UpstreamError};
pub use items::{Category, Item};
pub use record::{ApiResponse, AuthorInfo, FetchedRelease, Selector};
