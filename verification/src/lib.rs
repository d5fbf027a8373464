//! Engine and window lifecycle core: a single-threaded cooperative event-loop
//! model that owns screen registration state, accepts cross-thread screen
//! creation requests, negotiates window close with the host, and replaces
//! exceptions with an error-accounting protocol suitable for a flat call
//! boundary.

pub mod abi;
pub mod binding;
pub mod engine;
pub mod envelope;
pub mod error_handler;
pub mod input;
pub mod keycode;
pub mod proxy;
pub mod registry;
pub mod screen;
pub mod status_envelope;
pub mod tagged_union;
pub mod texture_format;
