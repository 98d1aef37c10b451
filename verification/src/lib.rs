//! A verified core for a small order-document service: the document model
//! with its validation rules, the partial-update merge, the JSON row codec,
//! the process-local cache and its coherence with the authoritative store,
//! and the four request handlers.
pub mod model;
pub mod table;
pub mod validate;
pub mod cache;
pub mod store;
pub mod service;
pub mod strutil;
pub mod codec;
