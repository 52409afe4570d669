//! Client library for the enka.network player-profile service: endpoint paths
//! and requests, classification of failed responses, and strict decoding of the
//! service's JSON payloads into typed records.
pub mod json;
pub mod decode;
pub mod gi;
