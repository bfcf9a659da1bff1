//! Verified core of a small media-catalog client.

pub mod date;
pub mod media;
pub mod normalize;
pub mod query;
pub mod response;
pub mod season;
pub mod text;

pub use date::Date;
pub use media::MediaQuery;
pub use normalize::{NormalizeError, RawItem};
pub use query::{MediaRequest, PageSize, Sort};
pub use response::response_to_records;
pub use season::Season;
