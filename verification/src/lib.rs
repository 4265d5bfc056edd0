//! Issuance of a private certificate authority and of server certificates
//! signed by it, and the start-up rules of an HTTPS listener that serves them.
//!
//! The parts follow the order of start-up:
//!
//! - [`request`] says what a certificate is asked to state, and [`ip`] reads
//!   the IP literals among its names;
//! - [`issuer`] has the generator make an authority and the certificates it
//!   signs, through the interface in [`generator`];
//! - [`persist`] names the files that keep them;
//! - [`tls`] makes the listener's TLS configuration of certificate and key;
//! - [`connection`] decides what the listener and each connection do next,
//!   and [`response`] is what every request is answered with;
//! - [`profile`] holds the usual set-up, and [`error`] every failure.
//!
//! Keys, signatures, PEM and TLS are the work of other crates. What is proved
//! here is what they are asked for and what is made of their answers.

pub mod connection;
pub mod error;
pub mod generator;
pub mod ip;
pub mod issuer;
pub mod persist;
pub mod profile;
pub mod request;
pub mod response;
pub mod tls;
