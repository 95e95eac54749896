//! A passive tap on desktop notification traffic: it classifies bus messages,
//! extracts the fields of each "show notification" call, and renders them as
//! newline-delimited JSON records for an append-only log.

pub mod arg;
pub mod text;
pub mod message;
pub mod record;
pub mod pipeline;
