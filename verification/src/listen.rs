//! From the URL under which a server is to listen to its listener.

use vstd::prelude::*;

use crate::address::SocketAddress;
#[allow(unused_imports)]
use crate::address::{may_listen_on, LocalEndpoint};
use crate::error::{BindListenerType, Error, ErrorKind, InvalidUrlReason};
#[allow(unused_imports)]
use crate::error::{BindListenerTypeView, ErrorKindView, ErrorView};
use crate::text::parse_i32;
#[allow(unused_imports)]
use crate::text::{i32_value, optional_text};

verus! {

/// Listen for HTTP on a network address.
pub const HTTP_SCHEME: &'static str = "http";

/// Listen on a network address.
pub const TCP_SCHEME: &'static str = "tcp";

/// Listen on a Unix domain socket.
pub const UNIX_SCHEME: &'static str = "unix";

/// Listen on a socket that was passed to the process, where the system passes
/// sockets.
pub const FD_SCHEME: &'static str = "fd";

/// `url::ParseError`, why a text is no URL.
#[verifier::external_type_specification]
#[verifier::external_body]
pub struct ExParseError(url::ParseError);

/// What `url::Url::parse` makes of a text: its error, or the URL in its normal
/// form (`Url::as_str`) with its scheme (`Url::scheme`) and its host
/// (`Url::host_str`).
pub uninterp spec fn url_parts(text: Seq<char>) -> Result<
    (Seq<char>, Seq<char>, Option<Seq<char>>),
    url::ParseError,
>;

/// Calls `url::Url::parse` and takes the URL apart with `Url::as_str`,
/// `Url::scheme` and `Url::host_str`. What these give depends on the text alone
/// and is called [`url_parts`]; nothing else is claimed of it.
#[verifier::external_body]
fn parse_url(text: &str) -> (r: Result<(String, String, Option<String>), url::ParseError>)
    ensures
        match r {
            Ok((text_in_full, scheme, host)) => url_parts(text@) == Ok::<_, url::ParseError>(
                (text_in_full@, scheme@, optional_text(host)),
            ),
            Err(error) => url_parts(text@) == Err::<
                (Seq<char>, Seq<char>, Option<Seq<char>>),
                url::ParseError,
            >(error),
        },
{
    let url = url::Url::parse(text)?;
    let host = url.host_str().map(str::to_owned);
    Ok((url.as_str().to_owned(), url.scheme().to_owned(), host))
}

/// What listening needs to know of a URL.
#[derive(Debug, PartialEq, Eq)]
pub struct ListenUrl {
    /// The whole URL.
    pub text: String,
    /// Its scheme.
    pub scheme: String,
    /// Its host, if it has one.
    pub host: Option<String>,
}

/// [`ListenUrl`] as contracts see it.
pub struct ListenUrlView {
    pub text: Seq<char>,
    pub scheme: Seq<char>,
    pub host: Option<Seq<char>>,
}

impl View for ListenUrl {
    type V = ListenUrlView;

    open spec fn view(&self) -> ListenUrlView {
        ListenUrlView {
            text: self.text@,
            scheme: self.scheme@,
            host: optional_text(self.host),
        }
    }
}

impl ListenUrl {
    /// Reads a URL. A text that is none is an invalid URL.
    pub fn parse(text: &str) -> (r: Result<ListenUrl, Error<url::ParseError>>)
        ensures
            match url_parts(text@) {
                Ok((text_in_full, scheme, host)) => r matches Ok(url) && url@ == (ListenUrlView {
                    text: text_in_full,
                    scheme,
                    host,
                }),
                Err(cause) => r matches Err(error) && error@ == (ErrorView {
                    kind: ErrorKindView::InvalidUrl(text@),
                    cause: Some(cause),
                }),
            },
    {
        match parse_url(text) {
            Ok((text, scheme, host)) => Ok(ListenUrl { text, scheme, host }),
            Err(cause) => Err(
                Error { kind: ErrorKind::InvalidUrl(text.to_owned()), cause: Some(cause) },
            ),
        }
    }
}

/// What kind of socket a listener listens on.
#[derive(Clone, Copy, Debug, PartialEq, Eq, Structural)]
pub enum ListenerKind {
    /// A TCP socket.
    Tcp,
    /// A Unix domain socket.
    Unix,
}

/// A socket that was passed to the process, by its file descriptor.
#[derive(Clone, Copy, Debug, PartialEq, Eq, Structural)]
pub enum PassedSocket {
    /// A TCP socket.
    Inet(i32),
    /// A Unix domain socket.
    Unix(i32),
    /// A socket of another kind.
    Unknown,
}

/// What is to be done next on the way to a listener, or what it all came to.
#[derive(Debug, PartialEq, Eq)]
pub enum BindStage<C> {
    /// Find the addresses that the URL's host and port stand for.
    Resolve,
    /// Bind a TCP listener to an address.
    BindTcp(SocketAddress),
    /// Find the file path that the URL stands for.
    FindSocketPath,
    /// Make a Unix domain socket with these permissions and listen on it.
    ListenUnix { path: String, permission: u32 },
    /// Look for the passed socket with this number, and with this name after
    /// that.
    ListenerByNumber { number: i32, name: String },
    /// Look for the passed socket with this name.
    ListenerByName(String),
    /// Take over a TCP socket.
    AdoptTcp(i32),
    /// Take over a Unix domain socket.
    AdoptUnix(i32),
    /// Nothing: there is a listener.
    Bound(ListenerKind),
    /// Nothing: there will be no listener.
    Failed(Error<C>),
}

/// [`BindStage`] as contracts see it.
pub enum BindStageView<C> {
    Resolve,
    BindTcp(SocketAddress),
    FindSocketPath,
    ListenUnix { path: Seq<char>, permission: u32 },
    ListenerByNumber { number: i32, name: Seq<char> },
    ListenerByName(Seq<char>),
    AdoptTcp(i32),
    AdoptUnix(i32),
    Bound(ListenerKind),
    Failed(ErrorView<C>),
}

impl<C> View for BindStage<C> {
    type V = BindStageView<C>;

    open spec fn view(&self) -> BindStageView<C> {
        match self {
            BindStage::Resolve => BindStageView::Resolve,
            BindStage::BindTcp(address) => BindStageView::BindTcp(*address),
            BindStage::FindSocketPath => BindStageView::FindSocketPath,
            BindStage::ListenUnix { path, permission } => BindStageView::ListenUnix {
                path: path@,
                permission: *permission,
            },
            BindStage::ListenerByNumber { number, name } => BindStageView::ListenerByNumber {
                number: *number,
                name: name@,
            },
            BindStage::ListenerByName(name) => BindStageView::ListenerByName(name@),
            BindStage::AdoptTcp(fd) => BindStageView::AdoptTcp(*fd),
            BindStage::AdoptUnix(fd) => BindStageView::AdoptUnix(*fd),
            BindStage::Bound(kind) => BindStageView::Bound(*kind),
            BindStage::Failed(error) => BindStageView::Failed(error@),
        }
    }
}

/// What came of the thing that was to be done. Where it failed, the error is
/// given.
#[derive(Debug, PartialEq, Eq)]
pub enum BindOutcome<C> {
    /// The addresses that were found.
    Resolved(Result<Vec<SocketAddress>, C>),
    /// The TCP listener was bound.
    TcpBound(Result<(), C>),
    /// The file path, if the URL stands for one.
    SocketPath(Option<String>),
    /// The Unix domain socket was made.
    UnixListening(Result<(), Error<C>>),
    /// The passed socket of that number or name.
    Listener(Result<PassedSocket, C>),
    /// The socket was taken over.
    Adopted(Result<(), C>),
}

/// [`BindOutcome`] as contracts see it.
pub enum BindOutcomeView<C> {
    Resolved(Result<Seq<SocketAddress>, C>),
    TcpBound(Result<(), C>),
    SocketPath(Option<Seq<char>>),
    UnixListening(Result<(), ErrorView<C>>),
    Listener(Result<PassedSocket, C>),
    Adopted(Result<(), C>),
}

impl<C> View for BindOutcome<C> {
    type V = BindOutcomeView<C>;

    open spec fn view(&self) -> BindOutcomeView<C> {
        match self {
            BindOutcome::Resolved(Ok(addresses)) => BindOutcomeView::Resolved(Ok(addresses@)),
            BindOutcome::Resolved(Err(cause)) => BindOutcomeView::Resolved(Err(*cause)),
            BindOutcome::TcpBound(bound) => BindOutcomeView::TcpBound(*bound),
            BindOutcome::SocketPath(path) => BindOutcomeView::SocketPath(optional_text(*path)),
            BindOutcome::UnixListening(Ok(())) => BindOutcomeView::UnixListening(Ok(())),
            BindOutcome::UnixListening(Err(error)) => BindOutcomeView::UnixListening(Err(error@)),
            BindOutcome::Listener(socket) => BindOutcomeView::Listener(*socket),
            BindOutcome::Adopted(adopted) => BindOutcomeView::Adopted(*adopted),
        }
    }
}

/// A failure with the error behind it, if there is one.
pub open spec fn failure<C>(kind: ErrorKindView, cause: Option<C>) -> BindStageView<C> {
    BindStageView::Failed(ErrorView { kind, cause })
}

/// The failure of a URL for the given reason. No other error is behind it.
pub open spec fn invalid_url<C>(url: ListenUrlView, reason: InvalidUrlReason) -> BindStageView<C> {
    failure(ErrorKindView::InvalidUrlWithReason(url.text, reason), None)
}

/// What is to be done first about a URL. Its scheme decides; `fd` is a scheme
/// to listen under only where the system passes sockets.
pub open spec fn bind_first<C>(url: ListenUrlView, sockets_passed: bool) -> BindStageView<C> {
    if url.scheme == HTTP_SCHEME@ || url.scheme == TCP_SCHEME@ {
        BindStageView::Resolve
    } else if url.scheme == UNIX_SCHEME@ {
        BindStageView::FindSocketPath
    } else if url.scheme == FD_SCHEME@ && sockets_passed {
        match url.host {
            None => invalid_url(url, InvalidUrlReason::NoHost),
            Some(host) => match i32_value(host) {
                Some(number) => BindStageView::ListenerByNumber { number, name: host },
                None => BindStageView::ListenerByName(host),
            },
        }
    } else {
        invalid_url(url, InvalidUrlReason::InvalidScheme)
    }
}

/// What is to be done about a passed socket. Its kind decides.
pub open spec fn bind_passed<C>(url: ListenUrlView, socket: PassedSocket) -> BindStageView<C> {
    match socket {
        PassedSocket::Inet(fd) => BindStageView::AdoptTcp(fd),
        PassedSocket::Unix(fd) => BindStageView::AdoptUnix(fd),
        PassedSocket::Unknown => invalid_url(url, InvalidUrlReason::UnrecognizedSocket),
    }
}

/// What is to be done after a stage had the given outcome. An outcome that does
/// not belong to the stage changes nothing.
pub open spec fn bind_next<C>(
    url: ListenUrlView,
    permission: u32,
    stage: BindStageView<C>,
    outcome: BindOutcomeView<C>,
) -> BindStageView<C> {
    match (stage, outcome) {
        (BindStageView::Resolve, BindOutcomeView::Resolved(Err(cause))) => failure(
            ErrorKindView::InvalidUrl(url.text),
            Some(cause),
        ),
        (BindStageView::Resolve, BindOutcomeView::Resolved(Ok(addresses))) =>
            if addresses.len() == 0 {
                invalid_url(url, InvalidUrlReason::NoAddress)
            } else {
                BindStageView::BindTcp(addresses[0])
            },
        (BindStageView::BindTcp(_), BindOutcomeView::TcpBound(Ok(()))) => BindStageView::Bound(
            ListenerKind::Tcp,
        ),
        (BindStageView::BindTcp(address), BindOutcomeView::TcpBound(Err(cause))) => failure(
            ErrorKindView::BindListener(BindListenerTypeView::Address(address)),
            Some(cause),
        ),
        (BindStageView::FindSocketPath, BindOutcomeView::SocketPath(None)) => failure(
            ErrorKindView::InvalidUrl(url.text),
            None,
        ),
        (BindStageView::FindSocketPath, BindOutcomeView::SocketPath(Some(path))) =>
            BindStageView::ListenUnix { path, permission },
        (BindStageView::ListenUnix { .. }, BindOutcomeView::UnixListening(Ok(()))) =>
            BindStageView::Bound(ListenerKind::Unix),
        (BindStageView::ListenUnix { .. }, BindOutcomeView::UnixListening(Err(error))) =>
            BindStageView::Failed(error),
        (BindStageView::ListenerByNumber { .. }, BindOutcomeView::Listener(Ok(socket))) =>
            bind_passed(url, socket),
        (BindStageView::ListenerByNumber { name, .. }, BindOutcomeView::Listener(Err(_))) =>
            BindStageView::ListenerByName(name),
        (BindStageView::ListenerByName(_), BindOutcomeView::Listener(Ok(socket))) =>
            bind_passed(url, socket),
        (BindStageView::ListenerByName(_), BindOutcomeView::Listener(Err(cause))) => failure(
            ErrorKindView::InvalidUrlWithReason(
                url.text,
                InvalidUrlReason::FdNeitherNumberNorName,
            ),
            Some(cause),
        ),
        (BindStageView::AdoptTcp(_), BindOutcomeView::Adopted(Ok(()))) => BindStageView::Bound(
            ListenerKind::Tcp,
        ),
        (BindStageView::AdoptUnix(_), BindOutcomeView::Adopted(Ok(()))) => BindStageView::Bound(
            ListenerKind::Unix,
        ),
        (BindStageView::AdoptTcp(fd), BindOutcomeView::Adopted(Err(cause))) => failure(
            ErrorKindView::BindListener(BindListenerTypeView::Fd(fd)),
            Some(cause),
        ),
        (BindStageView::AdoptUnix(fd), BindOutcomeView::Adopted(Err(cause))) => failure(
            ErrorKindView::BindListener(BindListenerTypeView::Fd(fd)),
            Some(cause),
        ),
        _ => stage,
    }
}

/// A listener in the making. Errors of the system are of type `C`; they are
/// handed on as the causes of errors of this crate.
pub struct Bind<C> {
    url: ListenUrl,
    unix_socket_permission: u32,
    stage: BindStage<C>,
}

/// [`Bind`] as contracts see it.
pub struct BindView<C> {
    pub url: ListenUrlView,
    pub permission: u32,
    pub stage: BindStageView<C>,
}

impl<C> View for Bind<C> {
    type V = BindView<C>;

    closed spec fn view(&self) -> BindView<C> {
        BindView {
            url: self.url@,
            permission: self.unix_socket_permission,
            stage: self.stage@,
        }
    }
}

impl<C> Bind<C> {
    /// Begins to make the listener for a URL. If it is to be a Unix domain
    /// socket, it will have the given permissions. `sockets_passed` says whether
    /// the system is one that passes sockets to processes, as Linux is; on
    /// another, `fd` is no scheme to listen under.
    pub fn new(url: ListenUrl, unix_socket_permission: u32, sockets_passed: bool) -> (r: Bind<C>)
        ensures
            r@ == (BindView {
                url: url@,
                permission: unix_socket_permission,
                stage: bind_first::<C>(url@, sockets_passed),
            }),
    {
        let stage = if url.scheme == HTTP_SCHEME.to_owned() || url.scheme == TCP_SCHEME.to_owned() {
            BindStage::Resolve
        } else if url.scheme == UNIX_SCHEME.to_owned() {
            BindStage::FindSocketPath
        } else if url.scheme == FD_SCHEME.to_owned() && sockets_passed {
            match &url.host {
                None => Self::invalid_url(&url, InvalidUrlReason::NoHost),
                Some(host) => {
                    let name = host.clone();
                    match parse_i32(host.as_str()) {
                        Some(number) => BindStage::ListenerByNumber { number, name },
                        None => BindStage::ListenerByName(name),
                    }
                },
            }
        } else {
            Self::invalid_url(&url, InvalidUrlReason::InvalidScheme)
        };
        Bind { url, unix_socket_permission, stage }
    }

    /// What is to be done next, or what it all came to.
    pub fn stage(&self) -> (r: &BindStage<C>)
        ensures
            r@ == self@.stage,
    {
        &self.stage
    }

    /// A failure with the error behind it, if there is one.
    fn failure(kind: ErrorKind, cause: Option<C>) -> (r: BindStage<C>)
        ensures
            r@ == failure(kind@, cause),
    {
        BindStage::Failed(Error { kind, cause })
    }

    /// The failure of a URL for the given reason.
    fn invalid_url(url: &ListenUrl, reason: InvalidUrlReason) -> (r: BindStage<C>)
        ensures
            r@ == invalid_url::<C>(url@, reason),
    {
        Self::failure(ErrorKind::InvalidUrlWithReason(url.text.clone(), reason), None)
    }

    /// What is to be done about a passed socket.
    fn passed(url: &ListenUrl, socket: PassedSocket) -> (r: BindStage<C>)
        ensures
            r@ == bind_passed::<C>(url@, socket),
    {
        match socket {
            PassedSocket::Inet(fd) => BindStage::AdoptTcp(fd),
            PassedSocket::Unix(fd) => BindStage::AdoptUnix(fd),
            PassedSocket::Unknown => Self::invalid_url(url, InvalidUrlReason::UnrecognizedSocket),
        }
    }

    /// Takes note of what came of the thing that was to be done.
    pub fn advance(self, outcome: BindOutcome<C>) -> (r: Bind<C>)
        ensures
            r@.url == self@.url,
            r@.permission == self@.permission,
            r@.stage == bind_next(self@.url, self@.permission, self@.stage, outcome@),
    {
        let Bind { url, unix_socket_permission, stage } = self;
        let next = match (stage, outcome) {
            (BindStage::Resolve, BindOutcome::Resolved(Err(cause))) => Self::failure(
                ErrorKind::InvalidUrl(url.text.clone()),
                Some(cause),
            ),
            (BindStage::Resolve, BindOutcome::Resolved(Ok(addresses))) => if addresses.len()
                == 0 {
                Self::invalid_url(&url, InvalidUrlReason::NoAddress)
            } else {
                BindStage::BindTcp(addresses[0])
            },
            (BindStage::BindTcp(_), BindOutcome::TcpBound(Ok(()))) => BindStage::Bound(
                ListenerKind::Tcp,
            ),
            (BindStage::BindTcp(address), BindOutcome::TcpBound(Err(cause))) => Self::failure(
                ErrorKind::BindListener(BindListenerType::Address(address)),
                Some(cause),
            ),
            (BindStage::FindSocketPath, BindOutcome::SocketPath(None)) => Self::failure(
                ErrorKind::InvalidUrl(url.text.clone()),
                None,
            ),
            (BindStage::FindSocketPath, BindOutcome::SocketPath(Some(path))) =>
                BindStage::ListenUnix { path, permission: unix_socket_permission },
            (BindStage::ListenUnix { .. }, BindOutcome::UnixListening(Ok(()))) =>
                BindStage::Bound(ListenerKind::Unix),
            (BindStage::ListenUnix { .. }, BindOutcome::UnixListening(Err(error))) =>
                BindStage::Failed(error),
            (BindStage::ListenerByNumber { .. }, BindOutcome::Listener(Ok(socket))) =>
                Self::passed(&url, socket),
            (BindStage::ListenerByNumber { name, .. }, BindOutcome::Listener(Err(_))) =>
                BindStage::ListenerByName(name),
            (BindStage::ListenerByName(_), BindOutcome::Listener(Ok(socket))) => Self::passed(
                &url,
                socket,
            ),
            (BindStage::ListenerByName(_), BindOutcome::Listener(Err(cause))) => Self::failure(
                ErrorKind::InvalidUrlWithReason(
                    url.text.clone(),
                    InvalidUrlReason::FdNeitherNumberNorName,
                ),
                Some(cause),
            ),
            (BindStage::AdoptTcp(_), BindOutcome::Adopted(Ok(()))) => BindStage::Bound(
                ListenerKind::Tcp,
            ),
            (BindStage::AdoptUnix(_), BindOutcome::Adopted(Ok(()))) => BindStage::Bound(
                ListenerKind::Unix,
            ),
            (BindStage::AdoptTcp(fd), BindOutcome::Adopted(Err(cause))) => Self::failure(
                ErrorKind::BindListener(BindListenerType::Fd(fd)),
                Some(cause),
            ),
            (BindStage::AdoptUnix(fd), BindOutcome::Adopted(Err(cause))) => Self::failure(
                ErrorKind::BindListener(BindListenerType::Fd(fd)),
                Some(cause),
            ),
            (stage, _) => stage,
        };
        Bind { url, unix_socket_permission, stage: next }
    }

    /// What it all came to, once it has come to something.
    pub fn into_result(self) -> (r: Option<Result<ListenerKind, Error<C>>>)
        ensures
            match self@.stage {
                BindStageView::Bound(kind) => r == Some(Ok::<ListenerKind, Error<C>>(kind)),
                BindStageView::Failed(error) => r matches Some(Err(e)) && e@ == error,
                _ => r is None,
            },
    {
        match self.stage {
            BindStage::Bound(kind) => Some(Ok(kind)),
            BindStage::Failed(error) => Some(Err(error)),
            _ => None,
        }
    }
}

/// The stage that is reached when the stages have the given outcomes, one after
/// the other.
pub open spec fn bind_run<C>(
    url: ListenUrlView,
    permission: u32,
    sockets_passed: bool,
    outcomes: Seq<BindOutcomeView<C>>,
) -> BindStageView<C>
    decreases outcomes.len(),
{
    if outcomes.len() == 0 {
        bind_first(url, sockets_passed)
    } else {
        bind_next(
            url,
            permission,
            bind_run(url, permission, sockets_passed, outcomes.drop_last()),
            outcomes.last(),
        )
    }
}

/// The outcome is one that the stage can have.
pub open spec fn answers<C>(stage: BindStageView<C>, outcome: BindOutcomeView<C>) -> bool {
    match stage {
        BindStageView::Resolve => outcome is Resolved,
        BindStageView::BindTcp(_) => outcome is TcpBound,
        BindStageView::FindSocketPath => outcome is SocketPath,
        BindStageView::ListenUnix { .. } => outcome is UnixListening,
        BindStageView::ListenerByNumber { .. } => outcome is Listener,
        BindStageView::ListenerByName(_) => outcome is Listener,
        BindStageView::AdoptTcp(_) => outcome is Adopted,
        BindStageView::AdoptUnix(_) => outcome is Adopted,
        BindStageView::Bound(_) => false,
        BindStageView::Failed(_) => false,
    }
}

/// It has come to something.
pub open spec fn settled<C>(stage: BindStageView<C>) -> bool {
    stage is Bound || stage is Failed
}

/// How many outcomes there can be at most until it comes to something.
pub open spec fn outcomes_left<C>(stage: BindStageView<C>) -> nat {
    match stage {
        BindStageView::ListenerByNumber { .. } => 3,
        BindStageView::Resolve => 2,
        BindStageView::FindSocketPath => 2,
        BindStageView::ListenerByName(_) => 2,
        BindStageView::BindTcp(_) => 1,
        BindStageView::ListenUnix { .. } => 1,
        BindStageView::AdoptTcp(_) => 1,
        BindStageView::AdoptUnix(_) => 1,
        BindStageView::Bound(_) => 0,
        BindStageView::Failed(_) => 0,
    }
}

/// An outcome that belongs to the stage brings the matter nearer to its end;
/// one that does not changes nothing. What is settled stays so.
pub proof fn law_bind_progress<C>(
    url: ListenUrlView,
    permission: u32,
    stage: BindStageView<C>,
    outcome: BindOutcomeView<C>,
)
    ensures
        answers(stage, outcome) ==> outcomes_left(bind_next(url, permission, stage, outcome))
            < outcomes_left(stage),
        !answers(stage, outcome) ==> bind_next(url, permission, stage, outcome) == stage,
        settled(stage) ==> bind_next(url, permission, stage, outcome) == stage,
        settled(stage) <==> outcomes_left(stage) == 0,
{
}

/// Whatever the outcomes, there is a listener or an error after at most three.
pub proof fn law_bind_comes_to_an_end<C>(
    url: ListenUrlView,
    permission: u32,
    sockets_passed: bool,
    outcomes: Seq<BindOutcomeView<C>>,
)
    requires
        forall|n: int| 0 <= n < outcomes.len() ==> answers(
            bind_run(url, permission, sockets_passed, #[trigger] outcomes.take(n)),
            outcomes[n],
        ),
    ensures
        outcomes.len() + outcomes_left(bind_run(url, permission, sockets_passed, outcomes)) <= 3,
        outcomes.len() == 3 ==> settled(bind_run(url, permission, sockets_passed, outcomes)),
    decreases outcomes.len(),
{
    if outcomes.len() > 0 {
        let earlier = outcomes.drop_last();
        assert forall|n: int| 0 <= n < earlier.len() implies answers(
            bind_run(url, permission, sockets_passed, #[trigger] earlier.take(n)),
            earlier[n],
        ) by {
            assert(earlier.take(n) =~= outcomes.take(n));
        }
        law_bind_comes_to_an_end(url, permission, sockets_passed, earlier);
        assert(outcomes.take(outcomes.len() - 1) =~= earlier);
        let reached = bind_run(url, permission, sockets_passed, earlier);
        law_bind_progress(url, permission, reached, outcomes.last());
    }
}

/// The stage is one on the way that the URL's scheme asks for.
pub open spec fn fits_scheme<C>(
    url: ListenUrlView,
    permission: u32,
    sockets_passed: bool,
    stage: BindStageView<C>,
) -> bool {
    let network = url.scheme == "http"@ || url.scheme == "tcp"@;
    let unix = url.scheme == "unix"@;
    let fd = url.scheme == "fd"@ && sockets_passed;
    match stage {
        BindStageView::Resolve => network,
        BindStageView::BindTcp(_) => network,
        BindStageView::FindSocketPath => unix,
        BindStageView::ListenUnix { path: _, permission: given } => unix && given == permission,
        BindStageView::ListenerByNumber { number, name } => fd && url.host == Some(name)
            && i32_value(name) == Some(number),
        BindStageView::ListenerByName(name) => fd && url.host == Some(name),
        BindStageView::AdoptTcp(_) => fd,
        BindStageView::AdoptUnix(_) => fd,
        BindStageView::Bound(ListenerKind::Tcp) => network || fd,
        BindStageView::Bound(ListenerKind::Unix) => unix || fd,
        BindStageView::Failed(_) => true,
    }
}

/// The scheme decides what is done about a URL: addresses are looked up and
/// bound for `http` and `tcp` alone; a socket file is made, with the wanted
/// permissions, for `unix` alone; and passed sockets are looked for, by the
/// URL's own host, for `fd` alone and only where the system passes sockets.
pub proof fn law_bind_follows_scheme<C>(
    url: ListenUrlView,
    permission: u32,
    sockets_passed: bool,
    outcomes: Seq<BindOutcomeView<C>>,
)
    ensures
        fits_scheme(
            url,
            permission,
            sockets_passed,
            bind_run(url, permission, sockets_passed, outcomes),
        ),
    decreases outcomes.len(),
{
    if outcomes.len() > 0 {
        law_bind_follows_scheme(url, permission, sockets_passed, outcomes.drop_last());
    }
}

/// A URL with another scheme is refused before anything is done about it, and
/// so is an `fd` URL where the system passes no sockets.
pub proof fn law_other_schemes_refused<C>(
    url: ListenUrlView,
    permission: u32,
    sockets_passed: bool,
    outcomes: Seq<BindOutcomeView<C>>,
)
    requires
        url.scheme != "http"@,
        url.scheme != "tcp"@,
        url.scheme != "unix"@,
        url.scheme != "fd"@ || !sockets_passed,
    ensures
        bind_run(url, permission, sockets_passed, outcomes) == BindStageView::<C>::Failed(
            ErrorView {
                kind: ErrorKindView::InvalidUrlWithReason(
                    url.text,
                    InvalidUrlReason::InvalidScheme,
                ),
                cause: None,
            },
        ),
    decreases outcomes.len(),
{
    if outcomes.len() > 0 {
        law_other_schemes_refused(url, permission, sockets_passed, outcomes.drop_last());
    }
}

/// The URL that an error speaks of, if it speaks of one.
pub open spec fn blamed_url(error: ErrorKindView) -> Option<Seq<char>> {
    match error {
        ErrorKindView::InvalidUrl(text) => Some(text),
        ErrorKindView::InvalidUrlWithReason(text, _) => Some(text),
        _ => None,
    }
}

/// An error that speaks of a URL speaks of the one that was given, in full,
/// unless it came from the making of a Unix domain socket and was handed on.
pub proof fn law_error_names_the_url<C>(
    url: ListenUrlView,
    permission: u32,
    sockets_passed: bool,
    outcomes: Seq<BindOutcomeView<C>>,
    error: ErrorView<C>,
)
    requires
        bind_run(url, permission, sockets_passed, outcomes) == BindStageView::Failed(error),
        blamed_url(error.kind) is Some,
    ensures
        blamed_url(error.kind) == Some(url.text) || outcomes.contains(
            BindOutcomeView::UnixListening(Err(error)),
        ),
    decreases outcomes.len(),
{
    if outcomes.len() > 0 {
        let earlier = outcomes.drop_last();
        if bind_run(url, permission, sockets_passed, earlier) == BindStageView::Failed(error) {
            law_error_names_the_url(url, permission, sockets_passed, earlier, error);
            let handed_on = BindOutcomeView::UnixListening(Err(error));
            if earlier.contains(handed_on) {
                assert(outcomes[earlier.index_of(handed_on)] == handed_on);
            }
        } else {
            assert(outcomes.last() == outcomes[outcomes.len() - 1]);
        }
    }
}

/// The host of an `fd` URL is tried as a number first if it is one, then as a
/// name. Only when both fail is it neither, and the error behind that is the one
/// of the name.
pub proof fn law_fd_number_then_name<C>(
    url: ListenUrlView,
    permission: u32,
    host: Seq<char>,
    by_number: Result<PassedSocket, C>,
    by_name: Result<PassedSocket, C>,
)
    requires
        url.scheme == "fd"@,
        url.host == Some(host),
    ensures
        bind_first::<C>(url, true) == match i32_value(host) {
            Some(number) => BindStageView::<C>::ListenerByNumber { number, name: host },
            None => BindStageView::<C>::ListenerByName(host),
        },
        i32_value(host) matches Some(number) ==> bind_next(
            url,
            permission,
            BindStageView::ListenerByNumber { number, name: host },
            BindOutcomeView::Listener(by_number),
        ) == match by_number {
            Ok(PassedSocket::Inet(fd)) => BindStageView::<C>::AdoptTcp(fd),
            Ok(PassedSocket::Unix(fd)) => BindStageView::<C>::AdoptUnix(fd),
            Ok(PassedSocket::Unknown) => BindStageView::<C>::Failed(
                ErrorView {
                    kind: ErrorKindView::InvalidUrlWithReason(
                        url.text,
                        InvalidUrlReason::UnrecognizedSocket,
                    ),
                    cause: None,
                },
            ),
            Err(_) => BindStageView::<C>::ListenerByName(host),
        },
        bind_next(
            url,
            permission,
            BindStageView::ListenerByName(host),
            BindOutcomeView::Listener(by_name),
        ) == match by_name {
            Ok(PassedSocket::Inet(fd)) => BindStageView::<C>::AdoptTcp(fd),
            Ok(PassedSocket::Unix(fd)) => BindStageView::<C>::AdoptUnix(fd),
            Ok(PassedSocket::Unknown) => BindStageView::<C>::Failed(
                ErrorView {
                    kind: ErrorKindView::InvalidUrlWithReason(
                        url.text,
                        InvalidUrlReason::UnrecognizedSocket,
                    ),
                    cause: None,
                },
            ),
            Err(cause) => BindStageView::<C>::Failed(
                ErrorView {
                    kind: ErrorKindView::InvalidUrlWithReason(
                        url.text,
                        InvalidUrlReason::FdNeitherNumberNorName,
                    ),
                    cause: Some(cause),
                },
            ),
        },
{
    reveal_strlit("http");
    reveal_strlit("tcp");
    reveal_strlit("unix");
    reveal_strlit("fd");
    assert(FD_SCHEME@.len() == 2 && HTTP_SCHEME@.len() == 4 && TCP_SCHEME@.len() == 3
        && UNIX_SCHEME@.len() == 4);
}

/// A URL whose scheme is `http` and one whose scheme is `tcp` are treated alike:
/// the listener is bound to the first address that is found. Without any, the
/// URL has no address.
pub proof fn law_first_address_is_bound<C>(
    url: ListenUrlView,
    permission: u32,
    sockets_passed: bool,
    addresses: Seq<SocketAddress>,
    bound: Result<(), C>,
)
    requires
        url.scheme == "http"@ || url.scheme == "tcp"@,
    ensures
        bind_run(
            url,
            permission,
            sockets_passed,
            seq![BindOutcomeView::<C>::Resolved(Ok(addresses))],
        ) == if addresses.len() == 0 {
            BindStageView::<C>::Failed(
                ErrorView {
                    kind: ErrorKindView::InvalidUrlWithReason(
                        url.text,
                        InvalidUrlReason::NoAddress,
                    ),
                    cause: None,
                },
            )
        } else {
            BindStageView::<C>::BindTcp(addresses[0])
        },
        addresses.len() > 0 ==> bind_run(
            url,
            permission,
            sockets_passed,
            seq![BindOutcomeView::Resolved(Ok(addresses)), BindOutcomeView::TcpBound(bound)],
        ) == match bound {
            Ok(()) => BindStageView::<C>::Bound(ListenerKind::Tcp),
            Err(cause) => BindStageView::<C>::Failed(
                ErrorView {
                    kind: ErrorKindView::BindListener(BindListenerTypeView::Address(addresses[0])),
                    cause: Some(cause),
                },
            ),
        },
{
    reveal_with_fuel(bind_run, 3);
    let resolved = seq![BindOutcomeView::<C>::Resolved(Ok(addresses))];
    let both = seq![BindOutcomeView::Resolved(Ok(addresses)), BindOutcomeView::TcpBound(bound)];
    assert(resolved.drop_last() =~= Seq::<BindOutcomeView<C>>::empty());
    assert(both.drop_last() =~= resolved);
}

/// A server whose URL stands for an address with a certain port, and whose
/// listener was bound, reports that port. If the port is zero, it reports the
/// one that the system chose, which is not zero. In both cases the system must
/// say on which address the listener listens, and say the truth.
pub proof fn law_server_reports_its_port<C>(
    url: ListenUrlView,
    permission: u32,
    sockets_passed: bool,
    addresses: Seq<SocketAddress>,
    port: u16,
    local: SocketAddress,
)
    requires
        url.scheme == "http"@ || url.scheme == "tcp"@,
        addresses.len() > 0,
        addresses[0].spec_port() == port,
        may_listen_on(addresses[0], local),
    ensures
        bind_run(
            url,
            permission,
            sockets_passed,
            seq![BindOutcomeView::<C>::Resolved(Ok(addresses))],
        ) == BindStageView::<C>::BindTcp(addresses[0]),
        bind_run(
            url,
            permission,
            sockets_passed,
            seq![BindOutcomeView::<C>::Resolved(Ok(addresses)), BindOutcomeView::TcpBound(Ok(()))],
        ) == BindStageView::<C>::Bound(ListenerKind::Tcp),
        port != 0 ==> LocalEndpoint::Tcp(Some(local)).spec_port() == Some(port),
        port == 0 ==> (LocalEndpoint::Tcp(Some(local)).spec_port() matches Some(chosen) && chosen
            != 0),
{
    law_first_address_is_bound(url, permission, sockets_passed, addresses, Ok::<(), C>(()));
}

/// The error of the system in an outcome, if there is one.
pub open spec fn outcome_error<C>(outcome: BindOutcomeView<C>) -> Option<C> {
    match outcome {
        BindOutcomeView::Resolved(Err(cause)) => Some(cause),
        BindOutcomeView::TcpBound(Err(cause)) => Some(cause),
        BindOutcomeView::Listener(Err(cause)) => Some(cause),
        BindOutcomeView::Adopted(Err(cause)) => Some(cause),
        _ => None,
    }
}

/// An error of the system ends the matter and is the cause of the error in which
/// it ends, unless it only says that there is no passed socket of a number.
pub proof fn law_cause_is_kept<C>(
    url: ListenUrlView,
    permission: u32,
    stage: BindStageView<C>,
    outcome: BindOutcomeView<C>,
)
    requires
        answers(stage, outcome),
        outcome_error(outcome) is Some,
        !(stage is ListenerByNumber),
    ensures
        bind_next(url, permission, stage, outcome) matches BindStageView::Failed(error)
            && error.cause == outcome_error(outcome),
{
}

/// A text that is a URL is read as that URL, with the whole of its normal form,
/// its scheme and its host. Any other text is named whole in the error, with the
/// reason behind it.
pub proof fn law_url_is_read_whole(text: &str, r: Result<ListenUrl, Error<url::ParseError>>)
    requires
        call_ensures(ListenUrl::parse, (text,), r),
    ensures
        url_parts(text@) is Ok <==> r is Ok,
        r matches Ok(url) ==> {
            &&& url.text@ == url_parts(text@)->Ok_0.0
            &&& url.scheme@ == url_parts(text@)->Ok_0.1
            &&& url_parts(text@)->Ok_0.2 is Some <==> url.host is Some
            &&& url.host matches Some(host) ==> url_parts(text@)->Ok_0.2 == Some(host@)
        },
        r matches Err(error) ==> {
            &&& error.kind matches ErrorKind::InvalidUrl(named) && named@ == text@
            &&& url_parts(text@) is Err
            &&& error.cause == Some(url_parts(text@)->Err_0)
        },
{
}

/// Contracts see all of a URL.
pub proof fn law_url_is_seen_whole(url: ListenUrl)
    ensures
        url@.text == url.text@,
        url@.scheme == url.scheme@,
        url.host is None ==> url@.host is None,
        url.host matches Some(host) ==> url@.host == Some(host@),
{
}

/// Contracts see all of a stage: every address, path, permission, number, name
/// and error in it.
pub proof fn law_stage_is_seen_whole<C>(stage: BindStage<C>)
    ensures
        match stage {
            BindStage::Resolve => stage@ is Resolve,
            BindStage::BindTcp(address) => stage@ == BindStageView::<C>::BindTcp(address),
            BindStage::FindSocketPath => stage@ is FindSocketPath,
            BindStage::ListenUnix { path, permission } => stage@
                == (BindStageView::<C>::ListenUnix { path: path@, permission }),
            BindStage::ListenerByNumber { number, name } => stage@
                == (BindStageView::<C>::ListenerByNumber { number, name: name@ }),
            BindStage::ListenerByName(name) => stage@ == BindStageView::<C>::ListenerByName(name@),
            BindStage::AdoptTcp(fd) => stage@ == BindStageView::<C>::AdoptTcp(fd),
            BindStage::AdoptUnix(fd) => stage@ == BindStageView::<C>::AdoptUnix(fd),
            BindStage::Bound(kind) => stage@ == BindStageView::<C>::Bound(kind),
            BindStage::Failed(error) => stage@ == BindStageView::Failed(error@),
        },
{
}

/// Contracts see all of an outcome: every address, path, socket and error in it.
pub proof fn law_outcome_is_seen_whole<C>(outcome: BindOutcome<C>)
    ensures
        match outcome {
            BindOutcome::Resolved(Ok(addresses)) => outcome@ == BindOutcomeView::<C>::Resolved(
                Ok(addresses@),
            ),
            BindOutcome::Resolved(Err(cause)) => outcome@ == BindOutcomeView::Resolved(Err(cause)),
            BindOutcome::TcpBound(bound) => outcome@ == BindOutcomeView::TcpBound(bound),
            BindOutcome::SocketPath(Some(path)) => outcome@ == BindOutcomeView::<C>::SocketPath(
                Some(path@),
            ),
            BindOutcome::SocketPath(None) => outcome@ == BindOutcomeView::<C>::SocketPath(None),
            BindOutcome::UnixListening(Ok(())) => outcome@ == BindOutcomeView::<
                C,
            >::UnixListening(Ok(())),
            BindOutcome::UnixListening(Err(error)) => outcome@ == BindOutcomeView::UnixListening(
                Err(error@),
            ),
            BindOutcome::Listener(socket) => outcome@ == BindOutcomeView::Listener(socket),
            BindOutcome::Adopted(adopted) => outcome@ == BindOutcomeView::Adopted(adopted),
        },
{
}

/// To make a listener is to go through the stages of a run: it begins where the
/// run begins, each outcome takes it where the run goes, and the URL and the
/// wanted permissions stay what they are.
pub proof fn law_bind_runs<C>(
    url: ListenUrl,
    permission: u32,
    sockets_passed: bool,
    begun: Bind<C>,
    outcomes: Seq<BindOutcomeView<C>>,
    reached: Bind<C>,
    outcome: BindOutcome<C>,
    next: Bind<C>,
)
    requires
        call_ensures(Bind::<C>::new, (url, permission, sockets_passed), begun),
        reached@.url == begun@.url,
        reached@.permission == begun@.permission,
        reached@.stage == bind_run(url@, permission, sockets_passed, outcomes),
        call_ensures(Bind::<C>::advance, (reached, outcome), next),
    ensures
        begun@.url == url@,
        begun@.permission == permission,
        begun@.stage == bind_run(url@, permission, sockets_passed, Seq::<BindOutcomeView<C>>::empty()),
        next@.url == url@,
        next@.permission == permission,
        next@.stage == bind_run(url@, permission, sockets_passed, outcomes.push(outcome@)),
{
    assert(outcomes.push(outcome@).drop_last() =~= outcomes);
}

/// What is done first about a URL: under `http` and `tcp` its addresses are
/// looked up; under `unix` its path is found; under `fd`, where the system passes
/// sockets, its host is looked for among them, whole, and as a number if it
/// reads as one. An `fd` URL without a host, and a URL under any other scheme, is
/// refused, by its full text.
pub proof fn law_scheme_decides<C>(
    url: ListenUrl,
    permission: u32,
    sockets_passed: bool,
    begun: Bind<C>,
    first: &BindStage<C>,
)
    requires
        call_ensures(Bind::<C>::new, (url, permission, sockets_passed), begun),
        call_ensures(Bind::<C>::stage, (&begun,), first),
    ensures
        url.scheme@ == "http"@ || url.scheme@ == "tcp"@ ==> first is Resolve,
        url.scheme@ == "unix"@ ==> first is FindSocketPath,
        url.scheme@ == "fd"@ && sockets_passed ==> match url.host {
            Some(host) => match i32_value(host@) {
                Some(wanted) => *first matches BindStage::ListenerByNumber { number, name }
                    && number == wanted && name@ == host@,
                None => *first matches BindStage::ListenerByName(name) && name@ == host@,
            },
            None => *first matches BindStage::Failed(error) && error@ == (ErrorView::<C> {
                kind: ErrorKindView::InvalidUrlWithReason(url.text@, InvalidUrlReason::NoHost),
                cause: None,
            }),
        },
        url.scheme@ != "http"@ && url.scheme@ != "tcp"@ && url.scheme@ != "unix"@ && (
        url.scheme@ != "fd"@ || !sockets_passed) ==> (*first matches BindStage::Failed(error)
            && error@ == (ErrorView::<C> {
            kind: ErrorKindView::InvalidUrlWithReason(url.text@, InvalidUrlReason::InvalidScheme),
            cause: None,
        })),
{
    reveal_strlit("http");
    reveal_strlit("tcp");
    reveal_strlit("unix");
    reveal_strlit("fd");
    assert("unix"@[0] != "http"@[0]);
    assert("fd"@.len() == 2 && "http"@.len() == 4 && "tcp"@.len() == 3 && "unix"@.len() == 4);
}

/// A Unix domain socket is made at the very path that the URL stands for,
/// whatever path that is, and with the wanted permissions. When it is made, it is
/// the listener; if it cannot be made, the error is handed on as it is. A `unix`
/// URL that stands for no path is refused, by its full text.
pub proof fn law_unix_socket_is_made_at_its_path<C>(
    url: ListenUrlView,
    permission: u32,
    sockets_passed: bool,
    path: Seq<char>,
    error: ErrorView<C>,
)
    requires
        url.scheme == "unix"@,
    ensures
        bind_run(
            url,
            permission,
            sockets_passed,
            seq![BindOutcomeView::<C>::SocketPath(Some(path))],
        ) == (BindStageView::<C>::ListenUnix { path, permission }),
        bind_run(
            url,
            permission,
            sockets_passed,
            seq![
                BindOutcomeView::<C>::SocketPath(Some(path)),
                BindOutcomeView::UnixListening(Ok(())),
            ],
        ) == BindStageView::<C>::Bound(ListenerKind::Unix),
        bind_run(
            url,
            permission,
            sockets_passed,
            seq![
                BindOutcomeView::<C>::SocketPath(Some(path)),
                BindOutcomeView::UnixListening(Err(error)),
            ],
        ) == BindStageView::Failed(error),
        bind_run(
            url,
            permission,
            sockets_passed,
            seq![BindOutcomeView::<C>::SocketPath(None)],
        ) == BindStageView::<C>::Failed(
            ErrorView { kind: ErrorKindView::InvalidUrl(url.text), cause: None },
        ),
{
    reveal_with_fuel(bind_run, 3);
    reveal_strlit("http");
    reveal_strlit("tcp");
    reveal_strlit("unix");
    assert("unix"@[0] != "http"@[0]);
    assert("tcp"@.len() == 3 && "unix"@.len() == 4);
    let none = Seq::<BindOutcomeView<C>>::empty();
    let found = seq![BindOutcomeView::<C>::SocketPath(Some(path))];
    assert(found.drop_last() =~= none);
    assert(found.push(BindOutcomeView::UnixListening(Ok(()))).drop_last() =~= found);
    assert(found.push(BindOutcomeView::UnixListening(Err(error))).drop_last() =~= found);
    assert(seq![
        BindOutcomeView::<C>::SocketPath(Some(path)),
        BindOutcomeView::UnixListening(Ok(())),
    ] =~= found.push(BindOutcomeView::UnixListening(Ok(()))));
    assert(seq![
        BindOutcomeView::<C>::SocketPath(Some(path)),
        BindOutcomeView::UnixListening(Err(error)),
    ] =~= found.push(BindOutcomeView::UnixListening(Err(error))));
    assert(seq![BindOutcomeView::<C>::SocketPath(None)].drop_last() =~= none);
}

/// A listener for a `unix` URL, call by call: the path and the permissions that
/// come out are the ones that went in, and so is the error.
pub proof fn law_unix_listener<C>(
    url: ListenUrl,
    permission: u32,
    sockets_passed: bool,
    begun: Bind<C>,
    path: String,
    found: Bind<C>,
    to_do: &BindStage<C>,
    made: Result<(), Error<C>>,
    done: Bind<C>,
    r: Option<Result<ListenerKind, Error<C>>>,
)
    requires
        url.scheme@ == "unix"@,
        call_ensures(Bind::<C>::new, (url, permission, sockets_passed), begun),
        call_ensures(Bind::<C>::advance, (begun, BindOutcome::SocketPath(Some(path))), found),
        call_ensures(Bind::<C>::stage, (&found,), to_do),
        call_ensures(Bind::<C>::advance, (found, BindOutcome::UnixListening(made)), done),
        call_ensures(Bind::<C>::into_result, (done,), r),
    ensures
        *to_do matches BindStage::ListenUnix { path: at, permission: with } && at@ == path@ && with
            == permission,
        made is Ok ==> r == Some(Ok::<ListenerKind, Error<C>>(ListenerKind::Unix)),
        made matches Err(error) ==> (r matches Some(Err(e)) && e@ == error@),
{
    law_unix_socket_is_made_at_its_path::<C>(
        url@,
        permission,
        sockets_passed,
        path@,
        made->Err_0@,
    );
    let none = Seq::<BindOutcomeView<C>>::empty();
    let path_found = BindOutcome::<C>::SocketPath(Some(path));
    let socket_made = BindOutcome::UnixListening(made);
    law_bind_runs(url, permission, sockets_passed, begun, none, begun, path_found, found);
    assert(none.push(path_found@) =~= seq![BindOutcomeView::<C>::SocketPath(Some(path@))]);
    let one = seq![BindOutcomeView::<C>::SocketPath(Some(path@))];
    law_bind_runs(url, permission, sockets_passed, begun, one, found, socket_made, done);
    assert(one.push(socket_made@) =~= seq![
        BindOutcomeView::<C>::SocketPath(Some(path@)),
        socket_made@,
    ]);
}

/// A listener for an `http` or `tcp` URL, call by call: it is bound to the very
/// address that was found first. A failure to find addresses is blamed on the
/// URL, and a failure to bind on the address, each with its cause.
pub proof fn law_network_listener<C>(
    url: ListenUrl,
    permission: u32,
    sockets_passed: bool,
    begun: Bind<C>,
    addresses: Result<Vec<SocketAddress>, C>,
    found: Bind<C>,
    to_do: &BindStage<C>,
    early: Option<Result<ListenerKind, Error<C>>>,
    bound: Result<(), C>,
    done: Bind<C>,
    r: Option<Result<ListenerKind, Error<C>>>,
)
    requires
        url.scheme@ == "http"@ || url.scheme@ == "tcp"@,
        call_ensures(Bind::<C>::new, (url, permission, sockets_passed), begun),
        call_ensures(Bind::<C>::advance, (begun, BindOutcome::Resolved(addresses)), found),
        call_ensures(Bind::<C>::stage, (&found,), to_do),
        call_ensures(Bind::<C>::into_result, (found,), early),
        call_ensures(Bind::<C>::advance, (found, BindOutcome::TcpBound(bound)), done),
        call_ensures(Bind::<C>::into_result, (done,), r),
    ensures
        match addresses {
            Ok(all) => if all@.len() > 0 {
                &&& *to_do == BindStage::<C>::BindTcp(all@[0])
                &&& early is None
                &&& bound is Ok ==> r == Some(Ok::<ListenerKind, Error<C>>(ListenerKind::Tcp))
                &&& bound matches Err(cause) ==> (r matches Some(Err(error)) && error@ == (
                ErrorView::<C> {
                    kind: ErrorKindView::BindListener(BindListenerTypeView::Address(all@[0])),
                    cause: Some(cause),
                }))
            } else {
                early matches Some(Err(error)) && error@ == (ErrorView::<C> {
                    kind: ErrorKindView::InvalidUrlWithReason(
                        url.text@,
                        InvalidUrlReason::NoAddress,
                    ),
                    cause: None,
                })
            },
            Err(cause) => early matches Some(Err(error)) && error@ == (ErrorView::<C> {
                kind: ErrorKindView::InvalidUrl(url.text@),
                cause: Some(cause),
            }),
        },
{
}

/// What becomes of a socket that was passed, under whichever number or name it
/// was found: it is taken over by its own file descriptor, as what it is, and is
/// then the listener. If it cannot be taken over, that is blamed on its file
/// descriptor, with the cause. One of no known kind is refused, by the URL's full
/// text.
pub proof fn law_passed_listener<C>(
    looking: Bind<C>,
    wanted: &BindStage<C>,
    socket: PassedSocket,
    found: Bind<C>,
    to_do: &BindStage<C>,
    early: Option<Result<ListenerKind, Error<C>>>,
    adopted: Result<(), C>,
    done: Bind<C>,
    r: Option<Result<ListenerKind, Error<C>>>,
)
    requires
        call_ensures(Bind::<C>::stage, (&looking,), wanted),
        wanted is ListenerByNumber || wanted is ListenerByName,
        call_ensures(Bind::<C>::advance, (looking, BindOutcome::Listener(Ok(socket))), found),
        call_ensures(Bind::<C>::stage, (&found,), to_do),
        call_ensures(Bind::<C>::into_result, (found,), early),
        call_ensures(Bind::<C>::advance, (found, BindOutcome::Adopted(adopted)), done),
        call_ensures(Bind::<C>::into_result, (done,), r),
    ensures
        socket matches PassedSocket::Inet(fd) ==> {
            &&& *to_do == BindStage::<C>::AdoptTcp(fd)
            &&& adopted is Ok ==> r == Some(Ok::<ListenerKind, Error<C>>(ListenerKind::Tcp))
            &&& adopted matches Err(cause) ==> (r matches Some(Err(error)) && error@ == (ErrorView::<C> {
                kind: ErrorKindView::BindListener(BindListenerTypeView::Fd(fd)),
                cause: Some(cause),
            }))
        },
        socket matches PassedSocket::Unix(fd) ==> {
            &&& *to_do == BindStage::<C>::AdoptUnix(fd)
            &&& adopted is Ok ==> r == Some(Ok::<ListenerKind, Error<C>>(ListenerKind::Unix))
            &&& adopted matches Err(cause) ==> (r matches Some(Err(error)) && error@ == (ErrorView::<C> {
                kind: ErrorKindView::BindListener(BindListenerTypeView::Fd(fd)),
                cause: Some(cause),
            }))
        },
        socket == PassedSocket::Unknown ==> (early matches Some(Err(error)) && error@ == (ErrorView::<C> {
            kind: ErrorKindView::InvalidUrlWithReason(
                looking@.url.text,
                InvalidUrlReason::UnrecognizedSocket,
            ),
            cause: None,
        })),
{
}

/// Where no passed socket has the wanted number, one with the same host for its
/// name is looked for; where none has the name either, the URL is refused, by its
/// full text, with the cause.
pub proof fn law_no_passed_socket<C>(
    looking: Bind<C>,
    wanted: &BindStage<C>,
    cause: C,
    next: Bind<C>,
    to_do: &BindStage<C>,
)
    requires
        call_ensures(Bind::<C>::stage, (&looking,), wanted),
        call_ensures(Bind::<C>::advance, (looking, BindOutcome::Listener(Err(cause))), next),
        call_ensures(Bind::<C>::stage, (&next,), to_do),
    ensures
        *wanted matches BindStage::ListenerByNumber { number: _, name } ==> (
        *to_do matches BindStage::ListenerByName(tried) && tried@ == name@),
        wanted is ListenerByName ==> (*to_do matches BindStage::Failed(error) && error@ == (
        ErrorView::<C> {
            kind: ErrorKindView::InvalidUrlWithReason(
                looking@.url.text,
                InvalidUrlReason::FdNeitherNumberNorName,
            ),
            cause: Some(cause),
        })),
{
}

/// Only the outcome of what was to be done counts; and once there is a listener
/// or an error, that does not change any more.
pub proof fn law_only_what_was_to_be_done_counts<C>(
    at: Bind<C>,
    to_do: &BindStage<C>,
    outcome: BindOutcome<C>,
    next: Bind<C>,
)
    requires
        call_ensures(Bind::<C>::stage, (&at,), to_do),
        call_ensures(Bind::<C>::advance, (at, outcome), next),
        !(to_do is Resolve && outcome is Resolved),
        !(to_do is BindTcp && outcome is TcpBound),
        !(to_do is FindSocketPath && outcome is SocketPath),
        !(to_do is ListenUnix && outcome is UnixListening),
        !(to_do is ListenerByNumber && outcome is Listener),
        !(to_do is ListenerByName && outcome is Listener),
        !(to_do is AdoptTcp && outcome is Adopted),
        !(to_do is AdoptUnix && outcome is Adopted),
    ensures
        next@ == at@,
{
}

/// There is a result when, and only when, there is a listener or an error, and it
/// is that listener or that error.
pub proof fn law_result_is_the_end<C>(
    at: Bind<C>,
    to_do: &BindStage<C>,
    r: Option<Result<ListenerKind, Error<C>>>,
)
    requires
        call_ensures(Bind::<C>::stage, (&at,), to_do),
        call_ensures(Bind::<C>::into_result, (at,), r),
    ensures
        r is Some <==> to_do is Bound || to_do is Failed,
        r matches Some(Ok(kind)) ==> *to_do == BindStage::<C>::Bound(kind),
        r matches Some(Err(error)) ==> (*to_do matches BindStage::Failed(e) && e@ == error@),
        *to_do matches BindStage::Bound(kind) ==> r == Some(Ok::<ListenerKind, Error<C>>(kind)),
        *to_do matches BindStage::Failed(_) ==> r matches Some(Err(_)),
{
}

} // verus!
