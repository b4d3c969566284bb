//! The core of an RDAP toolkit, with machine-checked contracts.
//!
//! - [`json`], [`codec`], [`decode`], [`response`], [`lenient`]: the responses
//!   of RFC 9083, read from JSON with tolerance and written canonically.
//! - [`contact`], [`vcard`]: contacts and their jCard.
//! - [`check`]: the conformance checker.
//! - [`query`], [`ip`]: the queries of a client and their URLs.
//! - [`storage`], [`bootstrap`], [`router`]: the store that answers with the
//!   most specific entry, its loading from the IANA registries, and the
//!   routing of requests.
//! - [`client`]: the decisions of the request engine of a client.
//! - [`md`], [`gtld`]: renderings.

pub mod bootstrap;
pub mod check;
pub mod client;
pub mod codec;
pub mod contact;
pub mod decode;
pub mod gtld;
pub mod httpdata;
pub mod ip;
pub mod json;
pub mod lenient;
pub mod md;
pub mod query;
pub mod response;
pub mod router;
pub mod storage;
pub mod text;
pub mod vcard;
