//! A small library behind an HTTP proxy for the GitHub REST API: it reshapes
//! upstream search pages, enriches repository records with per-language byte
//! counts, maps upstream failures to error responses, and renders the JSON
//! bodies the service answers with. All transport (the actual HTTP calls)
//! lives outside; this crate works on the plain values those calls produce.

pub mod langs;
pub mod model;
pub mod respond;
pub mod serialize;
pub mod text;
