//! Serving HTTP over TCP, Unix domain and passed sockets.
//!
//! * [`listen`] goes from the URL under which a server is to listen to its
//!   listener,
//! * [`server`] decides which connections a running server admits, and when it
//!   stops,
//! * [`certificate`] makes the TLS identity of a server of its certificate, with
//!   the help of [`tls`],
//! * [`identity_certificate_request`] is what a module asks for a certificate
//!   with.

pub mod address;
pub mod certificate;
pub mod error;
pub mod identity_certificate_request;
pub mod listen;
pub mod server;
pub mod text;
pub mod tls;

pub use address::{LocalEndpoint, SocketAddress};
pub use certificate::PemCertificate;
pub use error::{BindListenerType, Error, ErrorKind, InvalidUrlReason};
pub use identity_certificate_request::IdentityCertificateRequest;
pub use server::ConcurrencyThrottling;
