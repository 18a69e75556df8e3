use edgelet_http::listen::{
    Bind, BindOutcome, BindStage, ListenUrl, ListenerKind, PassedSocket,
};
use edgelet_http::text::parse_i32;
use edgelet_http::{
    BindListenerType, Error, ErrorKind, InvalidUrlReason, LocalEndpoint, SocketAddress,
};

const FIRST: SocketAddress = SocketAddress::V4 { ipv4: 0x7f00_0001, port: 8080 };
const SECOND: SocketAddress =
    SocketAddress::V6 { ipv6: 1, port: 8080, flowinfo: 0, scope_id: 0 };

type Outcome = Option<Result<ListenerKind, Error<&'static str>>>;

fn bind(url: &str) -> Bind<&'static str> {
    Bind::new(ListenUrl::parse(url).unwrap(), 0o660, true)
}

fn failed(kind: ErrorKind, cause: Option<&'static str>) -> Outcome {
    Some(Err(Error { kind, cause }))
}

fn invalid(url: &str, reason: InvalidUrlReason) -> Outcome {
    failed(ErrorKind::InvalidUrlWithReason(url.to_string(), reason), None)
}

#[test]
fn a_url_is_read_in_its_normal_form() {
    let url = ListenUrl::parse("HTTP://LocalHost:80").unwrap();
    assert_eq!(url.text, "http://localhost/");
    assert_eq!(url.scheme, "http");
    assert_eq!(url.host, Some("localhost".to_string()));
    let url = ListenUrl::parse("unix:///var/run/iotedge.sock").unwrap();
    assert_eq!(url.text, "unix:///var/run/iotedge.sock");
    assert_eq!(url.scheme, "unix");
    assert_eq!(url.host, None);
}

#[test]
fn a_text_that_is_no_url_is_refused() {
    assert_eq!(
        ListenUrl::parse("no url"),
        Err(Error {
            kind: ErrorKind::InvalidUrl("no url".to_string()),
            cause: Some(url::ParseError::RelativeUrlWithoutBase),
        })
    );
}

#[test]
fn a_network_url_is_bound_to_its_first_address() {
    for url in ["http://localhost:8080", "tcp://localhost:8080"] {
        let bind = bind(url);
        assert_eq!(bind.stage(), &BindStage::Resolve);
        let bind = bind.advance(BindOutcome::Resolved(Ok(vec![FIRST, SECOND])));
        assert_eq!(bind.stage(), &BindStage::BindTcp(FIRST));
        let bind = bind.advance(BindOutcome::TcpBound(Ok(())));
        assert_eq!(bind.stage(), &BindStage::Bound(ListenerKind::Tcp));
        assert_eq!(bind.into_result(), Some(Ok(ListenerKind::Tcp)));
    }
}

#[test]
fn a_network_url_may_fail() {
    let unresolved = bind("http://nowhere:1/").advance(BindOutcome::Resolved(Err("no answer")));
    assert_eq!(
        unresolved.into_result(),
        failed(ErrorKind::InvalidUrl("http://nowhere:1/".to_string()), Some("no answer"))
    );
    let empty = bind("http://nowhere:1/").advance(BindOutcome::Resolved(Ok(Vec::new())));
    assert_eq!(
        empty.into_result(),
        invalid("http://nowhere:1/", InvalidUrlReason::NoAddress)
    );
    let unbound = bind("tcp://host:1")
        .advance(BindOutcome::Resolved(Ok(vec![SECOND, FIRST])))
        .advance(BindOutcome::TcpBound(Err("in use")));
    assert_eq!(
        unbound.into_result(),
        failed(ErrorKind::BindListener(BindListenerType::Address(SECOND)), Some("in use"))
    );
}

#[test]
fn a_unix_url_is_bound_to_its_path() {
    let bind = bind("unix:///run/edge.sock");
    assert_eq!(bind.stage(), &BindStage::FindSocketPath);
    let bind = bind.advance(BindOutcome::SocketPath(Some("/run/edge.sock".to_string())));
    assert_eq!(
        bind.stage(),
        &BindStage::ListenUnix { path: "/run/edge.sock".to_string(), permission: 0o660 }
    );
    let bind = bind.advance(BindOutcome::UnixListening(Ok(())));
    assert_eq!(bind.into_result(), Some(Ok(ListenerKind::Unix)));
}

#[test]
fn a_unix_url_may_fail() {
    let pathless = bind("unix:///run/edge.sock").advance(BindOutcome::SocketPath(None));
    assert_eq!(
        pathless.into_result(),
        failed(ErrorKind::InvalidUrl("unix:///run/edge.sock".to_string()), None)
    );
    let path = "/run/edge.sock".to_string();
    let refused = bind("unix:///run/edge.sock")
        .advance(BindOutcome::SocketPath(Some(path)))
        .advance(BindOutcome::UnixListening(Err(Error {
            kind: ErrorKind::BindListener(BindListenerType::Path("/run/edge.sock".to_string())),
            cause: Some("denied"),
        })));
    assert_eq!(
        refused.into_result(),
        failed(
            ErrorKind::BindListener(BindListenerType::Path("/run/edge.sock".to_string())),
            Some("denied")
        )
    );
}

#[test]
fn a_passed_socket_is_looked_for_by_number_and_then_by_name() {
    let bind_by_number = bind("fd://3");
    assert_eq!(
        bind_by_number.stage(),
        &BindStage::ListenerByNumber { number: 3, name: "3".to_string() }
    );
    let found = bind("fd://3").advance(BindOutcome::Listener(Ok(PassedSocket::Inet(7))));
    assert_eq!(found.stage(), &BindStage::AdoptTcp(7));
    let by_name = bind_by_number.advance(BindOutcome::Listener(Err("no such number")));
    assert_eq!(by_name.stage(), &BindStage::ListenerByName("3".to_string()));
    let neither = by_name.advance(BindOutcome::Listener(Err("no such name")));
    assert_eq!(
        neither.into_result(),
        failed(
            ErrorKind::InvalidUrlWithReason(
                "fd://3".to_string(),
                InvalidUrlReason::FdNeitherNumberNorName
            ),
            Some("no such name")
        )
    );
}

#[test]
fn a_passed_socket_with_a_name_is_looked_for_by_it() {
    let bind = bind("fd://iotedge.mgmt.socket");
    assert_eq!(bind.stage(), &BindStage::ListenerByName("iotedge.mgmt.socket".to_string()));
    let bind = bind.advance(BindOutcome::Listener(Ok(PassedSocket::Unix(4))));
    assert_eq!(bind.stage(), &BindStage::AdoptUnix(4));
    let bind = bind.advance(BindOutcome::Adopted(Ok(())));
    assert_eq!(bind.into_result(), Some(Ok(ListenerKind::Unix)));
}

#[test]
fn a_passed_socket_may_be_of_no_use() {
    let unknown = bind("fd://0").advance(BindOutcome::Listener(Ok(PassedSocket::Unknown)));
    assert_eq!(
        unknown.into_result(),
        invalid("fd://0", InvalidUrlReason::UnrecognizedSocket)
    );
    for socket in [PassedSocket::Inet(5), PassedSocket::Unix(5)] {
        let kept = bind("fd://0")
            .advance(BindOutcome::Listener(Ok(socket)))
            .advance(BindOutcome::Adopted(Err("not open")));
        assert_eq!(
            kept.into_result(),
            failed(ErrorKind::BindListener(BindListenerType::Fd(5)), Some("not open"))
        );
    }
    assert_eq!(bind("fd:3").into_result(), invalid("fd:3", InvalidUrlReason::NoHost));
}

#[test]
fn other_schemes_are_refused_at_once() {
    assert_eq!(
        bind("https://localhost/").into_result(),
        invalid("https://localhost/", InvalidUrlReason::InvalidScheme)
    );
}

#[test]
fn fd_is_no_scheme_where_no_sockets_are_passed() {
    for url in ["fd://3", "fd://iotedge.socket", "fd:3"] {
        let bind = Bind::<&str>::new(ListenUrl::parse(url).unwrap(), 0o660, false);
        assert_eq!(bind.into_result(), invalid(url, InvalidUrlReason::InvalidScheme));
    }
    let unix = Bind::<&str>::new(ListenUrl::parse("unix:///s").unwrap(), 0o660, false);
    assert_eq!(unix.stage(), &BindStage::FindSocketPath);
    let http = Bind::<&str>::new(ListenUrl::parse("http://h:1").unwrap(), 0o660, false);
    assert_eq!(http.stage(), &BindStage::Resolve);
}

#[test]
fn a_server_reports_the_port_it_was_bound_to() {
    let bind = bind("tcp://127.0.0.1:8080").advance(BindOutcome::Resolved(Ok(vec![FIRST])));
    match bind.stage() {
        BindStage::BindTcp(address) => {
            assert_eq!(address.port(), 8080);
            assert_eq!(LocalEndpoint::Tcp(Some(*address)).port(), Some(8080));
        }
        other => panic!("expected an address, got {:?}", other),
    }
}

#[test]
fn an_outcome_of_another_stage_changes_nothing() {
    let bind = bind("http://localhost:8080")
        .advance(BindOutcome::Adopted(Ok(())))
        .advance(BindOutcome::TcpBound(Ok(())))
        .advance(BindOutcome::Listener(Err("none")));
    assert_eq!(bind.stage(), &BindStage::Resolve);
    assert_eq!(bind.into_result(), None);
}

#[test]
fn what_is_settled_stays_so() {
    let bind = bind("unix:///s")
        .advance(BindOutcome::SocketPath(Some("/s".to_string())))
        .advance(BindOutcome::UnixListening(Ok(())))
        .advance(BindOutcome::UnixListening(Err(Error {
            kind: ErrorKind::ServiceError,
            cause: None,
        })));
    assert_eq!(bind.into_result(), Some(Ok(ListenerKind::Unix)));
}

#[test]
fn numbers_are_read_like_any_other() {
    for text in [
        "", "0", "3", "42", "+7", "-7", "-0", "+", "-", "--1", "+-1", "007", "2147483647",
        "2147483648", "-2147483648", "-2147483649", "99999999999999999999999999", " 1", "1 ",
        "1_000", "0x10", "1.0", "name", "\u{661}", "00000000000000000000000000000001",
    ] {
        assert_eq!(parse_i32(text), text.parse::<i32>().ok(), "{:?}", text);
    }
}
