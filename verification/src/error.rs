//! What can go wrong.

use vstd::prelude::*;

use crate::address::SocketAddress;

verus! {

/// Why a URL is of no use for listening.
#[derive(Clone, Copy, Debug, PartialEq, Eq, Structural)]
pub enum InvalidUrlReason {
    /// Its host and port stand for no address.
    NoAddress,
    /// It has no host.
    NoHost,
    /// Its host is neither the number nor the name of a passed socket.
    FdNeitherNumberNorName,
    /// The socket that it stands for is of no known kind.
    UnrecognizedSocket,
    /// Nothing can listen under its scheme.
    InvalidScheme,
}

/// What a listener was to be bound to.
#[derive(Debug, PartialEq, Eq)]
pub enum BindListenerType {
    /// A network address.
    Address(SocketAddress),
    /// A file descriptor that was passed to the process.
    Fd(i32),
    /// The path of a Unix domain socket.
    Path(String),
}

/// What went wrong.
#[derive(Debug, PartialEq, Eq)]
pub enum ErrorKind {
    /// A listener could not be bound.
    BindListener(BindListenerType),
    /// The identity certificate could not be used.
    IdentityCertificate,
    /// There is no private key for the identity.
    IdentityPrivateKey,
    /// The private key of the identity could not be read; with the reason.
    IdentityPrivateKeyRead(String),
    /// A URL could not be used.
    InvalidUrl(String),
    /// A URL could not be used, and it is known why.
    InvalidUrlWithReason(String, InvalidUrlReason),
    /// The archive of an identity could not be opened; with the reason.
    PKCS12Identity(String),
    /// A server could not go on.
    ServiceError,
}

/// An error of this crate: what went wrong and, where another error is behind
/// it, that error.
#[derive(Debug, PartialEq, Eq)]
pub struct Error<C> {
    /// What went wrong.
    pub kind: ErrorKind,
    /// The error behind it.
    pub cause: Option<C>,
}

/// [`BindListenerType`] as contracts see it.
pub enum BindListenerTypeView {
    Address(SocketAddress),
    Fd(i32),
    Path(Seq<char>),
}

/// [`ErrorKind`] as contracts see it.
pub enum ErrorKindView {
    BindListener(BindListenerTypeView),
    IdentityCertificate,
    IdentityPrivateKey,
    IdentityPrivateKeyRead(Seq<char>),
    InvalidUrl(Seq<char>),
    InvalidUrlWithReason(Seq<char>, InvalidUrlReason),
    PKCS12Identity(Seq<char>),
    ServiceError,
}

impl View for BindListenerType {
    type V = BindListenerTypeView;

    open spec fn view(&self) -> BindListenerTypeView {
        match self {
            BindListenerType::Address(address) => BindListenerTypeView::Address(*address),
            BindListenerType::Fd(fd) => BindListenerTypeView::Fd(*fd),
            BindListenerType::Path(path) => BindListenerTypeView::Path(path@),
        }
    }
}

impl View for ErrorKind {
    type V = ErrorKindView;

    open spec fn view(&self) -> ErrorKindView {
        match self {
            ErrorKind::BindListener(kind) => ErrorKindView::BindListener(kind@),
            ErrorKind::IdentityCertificate => ErrorKindView::IdentityCertificate,
            ErrorKind::IdentityPrivateKey => ErrorKindView::IdentityPrivateKey,
            ErrorKind::IdentityPrivateKeyRead(reason) => ErrorKindView::IdentityPrivateKeyRead(
                reason@,
            ),
            ErrorKind::InvalidUrl(url) => ErrorKindView::InvalidUrl(url@),
            ErrorKind::InvalidUrlWithReason(url, reason) => ErrorKindView::InvalidUrlWithReason(
                url@,
                *reason,
            ),
            ErrorKind::PKCS12Identity(reason) => ErrorKindView::PKCS12Identity(reason@),
            ErrorKind::ServiceError => ErrorKindView::ServiceError,
        }
    }
}

/// [`Error`] as contracts see it.
pub struct ErrorView<C> {
    pub kind: ErrorKindView,
    pub cause: Option<C>,
}

impl<C> View for Error<C> {
    type V = ErrorView<C>;

    open spec fn view(&self) -> ErrorView<C> {
        ErrorView { kind: self.kind@, cause: self.cause }
    }
}

/// Contracts see all of an error: its kind with every text, number and address
/// in it, and the error behind it.
pub proof fn law_error_is_seen_whole<C>(error: Error<C>)
    ensures
        error@.cause == error.cause,
        match error.kind {
            ErrorKind::BindListener(BindListenerType::Address(address)) => error@.kind
                == ErrorKindView::BindListener(BindListenerTypeView::Address(address)),
            ErrorKind::BindListener(BindListenerType::Fd(fd)) => error@.kind
                == ErrorKindView::BindListener(BindListenerTypeView::Fd(fd)),
            ErrorKind::BindListener(BindListenerType::Path(path)) => error@.kind
                == ErrorKindView::BindListener(BindListenerTypeView::Path(path@)),
            ErrorKind::IdentityCertificate => error@.kind is IdentityCertificate,
            ErrorKind::IdentityPrivateKey => error@.kind is IdentityPrivateKey,
            ErrorKind::IdentityPrivateKeyRead(reason) => error@.kind
                == ErrorKindView::IdentityPrivateKeyRead(reason@),
            ErrorKind::InvalidUrl(url) => error@.kind == ErrorKindView::InvalidUrl(url@),
            ErrorKind::InvalidUrlWithReason(url, reason) => error@.kind
                == ErrorKindView::InvalidUrlWithReason(url@, reason),
            ErrorKind::PKCS12Identity(reason) => error@.kind == ErrorKindView::PKCS12Identity(
                reason@,
            ),
            ErrorKind::ServiceError => error@.kind is ServiceError,
        },
{
}

} // verus!
