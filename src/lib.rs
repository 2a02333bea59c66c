//! Body-forwarding policy of a small HTTP upload relay: how a multipart upload
//! becomes the body of a downstream request, buffered or streamed, together
//! with the replies, the sink handler and the startup configuration.

pub mod buffer;
pub mod config;
pub mod model;
pub mod relay;
pub mod reply;
pub mod text;
