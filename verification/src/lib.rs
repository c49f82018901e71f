//! Mirrors a curated part of a remote extension catalog.
//!
//! The catalog is a manifest of packages. This library narrows a manifest to
//! the packages and sources a caller wants, derives where each remaining
//! package's binary and icon are fetched from, and decides, step by step, how a
//! mirror run and each download in it proceed. Network and file access are
//! left to the caller: the library says what to do next and is told what
//! happened.

pub mod codec;
pub mod download;
pub mod error;
pub mod filter;
pub mod json;
pub mod locate;
pub mod manifest;
pub mod pipeline;
pub mod text;
pub mod views;

