//! What the library needs to talk to the Brawl Stars API over HTTP.

pub mod client;
pub mod headers;
pub mod request;
pub mod response;
pub mod routes;

pub use client::Client;
pub use response::{Response, StatusCode};
pub use routes::Route;
