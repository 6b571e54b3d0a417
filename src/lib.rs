//! Current-weather lookup for a city: the category classifier, the cache
//! freshness policy, the request flow and the text of the report.

pub mod cache;
pub mod flow;
pub mod report;
pub mod error;
pub mod synopsis;
pub mod weather;
