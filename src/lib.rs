//! Link sanitization core: detection and rewriting of social-media links,
//! per-guild trigger policy, the bounded guild-policy cache and the checks
//! that decide whether a posted rewrite unfurled correctly.
pub mod author;
pub mod cache;
pub mod commands;
pub mod context;
pub mod guardian;
pub mod matcher;
pub mod models;
pub mod platform;
pub mod reprocess;
pub mod retry;
pub mod rewrite;
pub mod text;
pub mod trigger;
