//! Core logic of a URL-shortening service.
//!
//! The library covers the parts of the service whose behaviour is worth
//! stating precisely: the syntactic acceptance filter for submitted URLs,
//! the generation of short codes with bounded retry on collision, the
//! cache-aside resolution protocol that turns a short code back into its
//! destination URL, the per-client fixed-window rate limiter that guards
//! the creation path, and the mapping from classified errors to HTTP
//! status codes and messages.
//!
//! The persistent store and the cache are external collaborators: the
//! library speaks of them only through the replies they may give, and the
//! resolution and creation flows are written as step machines whose
//! transitions are verified for every possible reply.

pub mod codegen;
pub mod create;
pub mod models;
pub mod ratelimit;
pub mod resolve;
pub mod respond;
pub mod validate;
