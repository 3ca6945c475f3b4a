//! Programming-language popularity rankings: a verified fetch-plan → parse →
//! fallback pipeline over an upstream HTML ranking table, and an enrichment
//! lookup that attaches static descriptive metadata to a ranking record.

pub mod detail;
pub mod fallback;
pub mod fetch;
pub mod parse;
pub mod pipeline;
pub mod ranking;
pub mod textops;
