//! A small registry of summarizable items: heterogeneous kinds of content
//! (news articles, short posts) that each produce a human-readable summary,
//! consumed generically by callers that do not know the concrete kind.

pub mod back_of_house;
pub mod basics;
pub mod coins;
pub mod collections;
pub mod geometry;
pub mod summary;
pub mod users;

pub use basics::adder;
pub use summary::NewsArticle;
pub use summary::Summary;
pub use summary::Tweet;
