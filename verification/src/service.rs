//! The service around the records: what is cached after routing, which
//! routes and preflight answers a page gets, how a request walks its
//! template tree, and how a request value is read.

pub mod cache;
pub mod media;
pub mod routes;
pub mod index;
pub mod request;
pub mod auth;
pub mod id_auth;
pub mod database;

pub use self::cache::RWCache;
pub use self::routes::RWRouter;
pub use self::index::RWIndex;
pub use self::auth::{RWAuth, RWAuthServer, RWJWTClient};
pub use self::database::RWDatabase;
pub use self::request::{RequestConfig, RequestValue, Subval, RequestState};
