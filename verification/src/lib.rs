//! Client library for a music-streaming service's undocumented web API.
//!
//! The heart of the crate is the access-token acquisition and self-healing
//! request pipeline: a token is discovered by scanning the host site's
//! landing page and script bundles (`scrape`), held in a credential store
//! (`credential`), attached to every outgoing request (`request`), and
//! re-acquired and retried transparently when a request fails with an
//! authentication error (`retry`). The `client` module ties the pieces
//! together; `download` decides how a track download is carried out; the
//! remaining modules hold the typed query and payload shapes of the
//! individual endpoints.

pub mod client;
pub mod credential;
pub mod download;
pub mod error;
pub mod identifier;
pub mod numfmt;
pub mod paths;
pub mod query;
pub mod request;
pub mod response;
pub mod retry;
pub mod scrape;
pub mod types;
