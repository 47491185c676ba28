//! Verified core of the Java bindings for the quiche QUIC and HTTP/3 library.
//!
//! The Java side talks to this crate through small integers: negative numbers
//! for errors, non-negative numbers for byte counts and stream identifiers.
//! The modules below hold the rules that produce those numbers, the decoding
//! of the raw values that Java hands over, and the calls into quiche that the
//! bindings make.

pub mod addr;
pub mod codes;
pub mod config;
pub mod connection;
pub mod http3;
pub mod outcome;
pub mod packet;
pub mod settings;

