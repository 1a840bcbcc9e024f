//! Core logic of a small greeting web server.
//!
//! The crate models the parts of such a server that make decisions: which
//! handler a request path is routed to, what the greeting endpoint and the
//! rendered error pages return, how the error-fallback layer rewrites a
//! response, and how the server moves through its lifecycle while shutting
//! down gracefully. Listening on a socket, serving the documentation UI and
//! static files, and waiting on OS signals are left to a thin binary built
//! around this crate.

pub mod fallback;
pub mod page;
pub mod response;
pub mod routing;
pub mod shutdown;
