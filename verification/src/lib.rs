//! A sans-I/O client for the speedrun.com REST API.
//!
//! The crate decides what to request and what a response means; sending
//! the request and reading the bytes is left to the caller. Every decision
//! is stated as a contract and proved.

pub mod categories;
pub mod common;
pub mod cursor;
pub mod endpoint;
pub mod error;
pub mod games;
pub mod leaderboards;
pub mod page;
pub mod platforms;
pub mod regions;
pub mod response;
pub mod runs;
pub mod sequence;
pub mod status;
pub mod text;

pub use categories::Category;
pub use cursor::{Action, Cursor};
pub use endpoint::{Endpoint, Resource};
pub use error::{Error, JsonError, TransportError};
pub use games::Game;
pub use leaderboards::Leaderboard;
pub use page::{Page, Pagination, PaginationLink};
pub use platforms::Platform;
pub use regions::Region;
pub use response::{ApiError, Body, Data, Expect};
pub use runs::Run;
pub use sequence::{Event, Replay};
pub use status::StatusCode;
