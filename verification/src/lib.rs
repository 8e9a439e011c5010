//! An ordered key-value storage library built on composite, order-preserving
//! binary keys.
//!
//! Keys are byte sequences assembled from typed segments (strings, 64-bit
//! integers, booleans); their byte-wise lexicographic order is the store's
//! canonical ordering. A pluggable backend stores encoded keys and opaque
//! payload bytes; range and prefix queries are resolved into half-open byte
//! ranges against that backend.

pub mod backend;
pub mod bytes_order;
pub mod display;
pub mod key_decoder;
pub mod kv;
pub mod kv_error;
pub mod kv_key;
pub mod list_builder;
pub mod segment;
