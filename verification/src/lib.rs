//! A stateless library of text and data utility operations: JSON
//! pretty-printing and minification, Base64 and percent-encoding codecs,
//! Unix-timestamp and date conversion, regular-expression matching,
//! identifier generation, and cryptographic digests.
//!
//! Every operation is a pure function from its explicit inputs to either a
//! success value or a descriptive error; no state outlives a call.

pub mod b64;
pub mod digest;
pub mod errors;
pub mod ident;
pub mod jsonfmt;
pub mod pattern;
pub mod textutil;
pub mod timeconv;
pub mod urlcodec;
