//! A generic password-search engine: ordered, optionally capped password
//! sources are merged into one candidate sequence, and a search driver feeds
//! each candidate to a pluggable verification strategy until one matches or
//! every source is exhausted.

pub mod adaptor;
pub mod safe_cracker;
