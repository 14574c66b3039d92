//! A client of a media catalogue's GraphQL query API, without the network.
//!
//! The catalogue answers three queries: every tag, every performer, and the
//! scene markers that a set of performers or of tags selects. For each of
//! them [`Api`] builds the request to send, and the query's `read_reply`
//! turns what came back into the records or into the reason there are none.
//! Sending the request and decoding the response are left to the caller.

pub mod api;
pub mod criteria;
pub mod paging;
pub mod query;
pub mod records;
pub mod reply;

pub use api::{Api, Config, Request};
pub use criteria::FilterMode;
pub use query::{FindMarkersQuery, FindPerformersQuery, FindTagsQuery};
pub use records::{GqlMarker, Performer, SceneMarker, Tag};
pub use reply::{ApiError, Body, Envelope, Reply};
