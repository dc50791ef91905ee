//! A terminal HTTP client, without the terminal and without the network.
//!
//! The heart of the crate is the adaptive load test: waves of concurrent
//! requests at a throughput that rises from window to window, the failure
//! ratio of each window, the breaking point at which that ratio passes the
//! threshold, and the append-only status log that reports progress
//! ([`engine`], [`ramp`], [`scheduler`], [`outcome`], [`ratio`], [`status`]).
//! Around it stands the state of the screen: the request form, its fields
//! and what each key does to them ([`events`], [`display`], [`dropdown`],
//! [`tabs`], [`request`], [`headers`], [`url`]).
//!
//! Nothing here sends a request, sleeps or draws. Each decision is a
//! function from the state and what happened to the next state and what to
//! do; a driver performs what is asked and reports back.

pub mod display;
pub mod dropdown;
pub mod engine;
pub mod events;
pub mod headers;
pub mod outcome;
pub mod ramp;
pub mod ratio;
pub mod request;
pub mod scheduler;
pub mod status;
pub mod tabs;
pub mod text;
pub mod url;
