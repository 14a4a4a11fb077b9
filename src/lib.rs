//! A FastCGI responder that serves xz-compressed files decompressed.
//!
//! The library holds the decisions: decoding a compressed payload, the
//! per-request protocol (which parameter names the file, what is written and
//! in which order, how failures are classified and reported), the server's
//! lifecycle, and the command line. Socket, file and signal handling are left
//! to the caller, which feeds the outcomes back as plain values.
pub mod cli;
pub mod codec;
pub mod error;
pub mod lifecycle;
pub mod request;
