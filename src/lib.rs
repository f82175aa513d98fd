//! The suggestion-serving core: the data model shared by every provider, the
//! keyword filter and cache decorators, provider chains, settings and the
//! registry that assembles chains and merges their answers.

pub mod blocklist;
pub mod cache;
pub mod filter;
pub mod model;
pub mod provider;
pub mod regex_set;
pub mod registry;
pub mod settings;
