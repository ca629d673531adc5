use dns_protocol::{Flags, Message, MessageType, Question, ResourceRecord, ResourceType};
use psp_net::dns::error::DnsError;
use psp_net::dns::utils::{
    create_a_type_query, create_ptr_type_query, google_dns_host, ResourceType as QueryType,
    DNS_PORT,
};
use psp_net::dns::{first_answer_address, parse_response, DnsResolver, Stage};
use psp_net::netc::in_addr;
use psp_net::socket::checked::UdpSocketState;
use psp_net::socket::sce::{Answer, Progress, Status, Syscall, Transfer};
use psp_net::socket::{Ipv4Addr, Ipv6Addr, SocketAddr, SocketAddrV4, SocketAddrV6};
use psp_net::traits::dns::ResolveHostname;

const OK: Status = Status { value: 0, errno: 0 };

const EXAMPLE_QUERY: [u8; 29] = [
    0x00, 0x42, 0x01, 0x00, 0x00, 0x01, 0x00, 0x00, 0x00, 0x00, 0x00, 0x00, 7, b'e', b'x', b'a',
    b'm', b'p', b'l', b'e', 3, b'c', b'o', b'm', 0, 0x00, 0x01, 0x00, 0x01,
];

/// A response to the query for example.com whose answer names the question
/// by a pointer and gives 93.184.216.34.
const EXAMPLE_RESPONSE: [u8; 45] = [
    0x00, 0x42, 0x81, 0x80, 0x00, 0x01, 0x00, 0x01, 0x00, 0x00, 0x00, 0x00, 7, b'e', b'x', b'a',
    b'm', b'p', b'l', b'e', 3, b'c', b'o', b'm', 0, 0x00, 0x01, 0x00, 0x01, 0xc0, 0x0c, 0x00,
    0x01, 0x00, 0x01, 0x00, 0x00, 0x0e, 0x10, 0x00, 0x04, 93, 184, 216, 34,
];

fn failed(text: &str) -> DnsError {
    DnsError::HostnameResolutionFailed(text.to_string())
}

fn response(answers: &[&[u8]]) -> Vec<u8> {
    let mut questions = [Question::new("example.com", ResourceType::A, 1)];
    let mut records: Vec<ResourceRecord> = answers
        .iter()
        .map(|data| ResourceRecord::new("example.com", ResourceType::A, 1, 300, data))
        .collect();
    let mut flags = Flags::standard_query();
    flags.set_qr(MessageType::Reply);
    let message = Message::new(0x42, flags, &mut questions, &mut records, &mut [], &mut []);
    let mut buffer = vec![0u8; message.space_needed()];
    let written = message.write(&mut buffer).unwrap();
    buffer.truncate(written);
    buffer
}

fn default_resolver() -> DnsResolver {
    DnsResolver::try_default(&[Status { value: 5, errno: 0 }, OK]).unwrap()
}

/// Runs a resolution against a server that answers with `reply`.
fn resolve_with(resolver: &mut DnsResolver, host: &str, reply: &[u8]) -> Result<in_addr, DnsError> {
    let mut buffer = [0u8; 1024];
    let mut received = Transfer { count: 0, errno: 0 };
    let mut answer = Answer::Start;
    let mut stage = 0;
    loop {
        let progress = resolver.resolve(host, answer);
        match progress {
            Progress::Done(result) => return result,
            Progress::Call(Syscall::Connect { .. }) => {
                stage = 1;
            }
            Progress::Call(Syscall::Send { len, .. }) => {
                assert_eq!(len, resolver.socket().buffer().len());
                received.count = len as isize;
                stage = 2;
            }
            Progress::Call(Syscall::Recv { len, .. }) => {
                assert_eq!(len, 1024);
                buffer[..reply.len()].copy_from_slice(reply);
                stage = 3;
            }
            Progress::Call(other) => panic!("unexpected call {:?}", other),
        }
        answer = match stage {
            1 => Answer::Status(OK),
            2 => Answer::Transfer(received),
            _ => Answer::Received(Transfer { count: reply.len() as isize, errno: 0 }, &buffer),
        };
    }
}

#[test]
fn resolver_is_created_by_two_calls() {
    assert!(matches!(
        DnsResolver::try_default_call(&[]),
        Some(Syscall::Socket { domain: 2, kind: 2, protocol: 0 })
    ));
    match DnsResolver::try_default_call(&[Status { value: 5, errno: 0 }]) {
        Some(Syscall::Bind { fd, addr, addr_len }) => {
            assert_eq!((fd, addr_len), (5, 16));
            assert_eq!(addr.sa_data, [0u8; 14]);
        }
        other => panic!("unexpected call {:?}", other),
    }
    assert!(DnsResolver::try_default_call(&[Status { value: 5, errno: 0 }, OK]).is_none());
    assert!(DnsResolver::try_default_call(&[Status { value: -1, errno: 1 }]).is_none());
    // a socket that cannot be bound is closed
    let refused = Status { value: -1, errno: 98 };
    assert!(matches!(
        DnsResolver::try_default_call(&[Status { value: 5, errno: 0 }, refused]),
        Some(Syscall::Close { fd: 5 })
    ));
    assert!(DnsResolver::try_default_call(&[Status { value: 5, errno: 0 }, refused, OK]).is_none());

    let resolver = default_resolver();
    assert_eq!(resolver.dns(), google_dns_host());
    assert_eq!(
        resolver.dns(),
        SocketAddr::V4(SocketAddrV4::new(Ipv4Addr::new(8, 8, 8, 8), DNS_PORT))
    );
    assert_eq!(resolver.query_id(), 0x42);
    assert_eq!(resolver.stage(), Stage::Idle);
    assert_eq!(resolver.socket().state(), UdpSocketState::Bound);
    assert_eq!(resolver.socket().fd(), 5);
    assert!(matches!(resolver.close(), Syscall::Close { fd: 5 }));
}

#[test]
fn resolver_for_a_server_binds_to_its_address() {
    let dns = SocketAddr::V4(SocketAddrV4::new(Ipv4Addr::new(1, 1, 1, 1), 53));
    match DnsResolver::new_call(dns, &[Status { value: 6, errno: 0 }]) {
        Some(Syscall::Bind { fd, addr, .. }) => {
            assert_eq!(fd, 6);
            assert_eq!(addr.sa_data[..6], [0, 53, 1, 1, 1, 1]);
        }
        other => panic!("unexpected call {:?}", other),
    }
    let resolver = DnsResolver::new(dns, &[Status { value: 6, errno: 0 }, OK]).unwrap();
    assert_eq!(resolver.dns(), dns);
    assert_eq!(resolver.socket().remote().unwrap().sa_data[..6], [0, 53, 1, 1, 1, 1]);
}

#[test]
fn resolver_fails_to_create() {
    let dns = SocketAddr::V4(SocketAddrV4::new(Ipv4Addr::new(1, 1, 1, 1), 53));
    let created = Status { value: 6, errno: 0 };
    let refused = Status { value: -1, errno: 13 };
    assert_eq!(DnsResolver::new(dns, &[]).unwrap_err(), DnsError::FailedToCreate);
    assert_eq!(DnsResolver::new(dns, &[created]).unwrap_err(), DnsError::FailedToCreate);
    assert_eq!(DnsResolver::new(dns, &[refused, OK]).unwrap_err(), DnsError::FailedToCreate);
    assert_eq!(
        DnsResolver::new(dns, &[created, refused]).unwrap_err(),
        DnsError::FailedToCreate
    );
    assert_eq!(
        DnsResolver::try_default(&[created, refused]).unwrap_err(),
        DnsError::FailedToCreate
    );
    assert_eq!(
        DnsResolver::new(dns, &[created, refused, OK]).unwrap_err(),
        DnsError::FailedToCreate
    );
    let v6 = SocketAddr::V6(SocketAddrV6 { ip: Ipv6Addr { octets: [0; 16] }, port: 53 });
    assert!(matches!(DnsResolver::new_call(v6, &[created]), Some(Syscall::Close { fd: 6 })));
    assert!(DnsResolver::new_call(v6, &[created, OK]).is_none());
    assert_eq!(DnsResolver::new(v6, &[created, OK]).unwrap_err(), DnsError::FailedToCreate);
}

#[test]
fn resolve_connects_sends_the_query_and_reads_the_answer() {
    let mut resolver = default_resolver();

    match resolver.resolve("example.com", Answer::Start) {
        Progress::Call(Syscall::Connect { fd, addr, addr_len }) => {
            assert_eq!((fd, addr_len), (5, 16));
            assert_eq!(addr.sa_data[..6], [0, 53, 8, 8, 8, 8]);
        }
        other => panic!("unexpected step {:?}", other),
    }
    assert_eq!(resolver.stage(), Stage::Connecting);

    match resolver.resolve("example.com", Answer::Status(OK)) {
        Progress::Call(Syscall::Send { fd, len, flags }) => {
            assert_eq!((fd, len, flags), (5, 29, 0));
        }
        other => panic!("unexpected step {:?}", other),
    }
    assert_eq!(resolver.stage(), Stage::Sending);
    assert_eq!(resolver.socket().state(), UdpSocketState::Connected);
    assert_eq!(resolver.socket().buffer(), EXAMPLE_QUERY);

    match resolver.resolve("example.com", Answer::Transfer(Transfer { count: 29, errno: 0 })) {
        Progress::Call(Syscall::Recv { fd, len, flags }) => {
            assert_eq!((fd, len, flags), (5, 1024, 0));
        }
        other => panic!("unexpected step {:?}", other),
    }
    assert_eq!(resolver.stage(), Stage::Receiving);
    assert!(resolver.socket().buffer().is_empty());

    let mut buffer = [0u8; 1024];
    buffer[..45].copy_from_slice(&EXAMPLE_RESPONSE);
    let received = Answer::Received(Transfer { count: 45, errno: 0 }, &buffer);
    match resolver.resolve("example.com", received) {
        Progress::Done(Ok(addr)) => assert_eq!(addr, in_addr(0x5db8_d822)),
        other => panic!("unexpected step {:?}", other),
    }
    assert_eq!(resolver.stage(), Stage::Idle);
}

#[test]
fn resolve_gives_the_address_of_a_single_answer() {
    let mut resolver = default_resolver();
    let reply = response(&[&[93, 184, 216, 34]]);
    assert_eq!(
        resolve_with(&mut resolver, "example.com", &reply),
        Ok(in_addr(u32::from_be_bytes([93, 184, 216, 34])))
    );
}

#[test]
fn resolve_takes_the_first_of_several_answers() {
    let mut resolver = default_resolver();
    let reply = response(&[&[10, 1, 2, 3], &[93, 184, 216, 34]]);
    assert_eq!(
        resolve_with(&mut resolver, "example.com", &reply),
        Ok(in_addr(0x0a01_0203))
    );
}

#[test]
fn resolve_without_answers_fails() {
    let mut resolver = default_resolver();
    let reply = response(&[]);
    assert_eq!(
        resolve_with(&mut resolver, "example.com", &reply),
        Err(failed("No answers received"))
    );
}

#[test]
fn resolve_with_six_bytes_of_address_fails() {
    let mut resolver = default_resolver();
    let reply = response(&[&[1, 2, 3, 4, 5, 6]]);
    assert_eq!(
        resolve_with(&mut resolver, "example.com", &reply),
        Err(failed("Could not parse IP address"))
    );
}

#[test]
fn resolve_without_data_fails_before_parsing() {
    let mut resolver = default_resolver();
    assert_eq!(
        resolve_with(&mut resolver, "example.com", &[]),
        Err(failed("No data received"))
    );
    assert_eq!(parse_response(&[]), Err(failed("No data received")));
}

#[test]
fn resolve_with_a_broken_response_fails() {
    let mut resolver = default_resolver();
    assert_eq!(
        resolve_with(&mut resolver, "example.com", &EXAMPLE_RESPONSE[..20]),
        Err(failed("Could not parse response"))
    );
    assert_eq!(parse_response(&[1, 2, 3]), Err(failed("Could not parse response")));
}

#[test]
fn resolve_reuses_the_connected_socket() {
    let mut resolver = default_resolver();
    let reply = response(&[&[93, 184, 216, 34]]);
    resolve_with(&mut resolver, "example.com", &reply).unwrap();
    assert_eq!(resolver.socket().state(), UdpSocketState::Connected);
    // the second resolution begins with the send, not with a connect
    assert!(matches!(
        resolver.resolve("example.org", Answer::Start),
        Progress::Call(Syscall::Send { fd: 5, len: 29, flags: 0 })
    ));
}

#[test]
fn resolve_fails_where_the_platform_fails() {
    let mut resolver = default_resolver();
    resolver.resolve("example.com", Answer::Start);
    let refused = Answer::Status(Status { value: -1, errno: 101 });
    match resolver.resolve("example.com", refused) {
        Progress::Done(Err(e)) => assert_eq!(e, failed("Errno: 101")),
        other => panic!("unexpected step {:?}", other),
    }
    assert_eq!(resolver.stage(), Stage::Idle);
    assert_eq!(resolver.socket().state(), UdpSocketState::Bound);

    resolver.resolve("example.com", Answer::Start);
    resolver.resolve("example.com", Answer::Status(OK));
    let unsent = Answer::Transfer(Transfer { count: -1, errno: 65 });
    match resolver.resolve("example.com", unsent) {
        Progress::Done(Err(e)) => assert_eq!(e, failed("Errno: 65")),
        other => panic!("unexpected step {:?}", other),
    }

    resolver.resolve("example.com", Answer::Start);
    resolver.resolve("example.com", Answer::Transfer(Transfer { count: 58, errno: 0 }));
    let buffer = [0u8; 1024];
    let unread = Answer::Received(Transfer { count: -1, errno: -7 }, &buffer);
    match resolver.resolve("example.com", unread) {
        Progress::Done(Err(e)) => assert_eq!(e, failed("Errno: -7")),
        other => panic!("unexpected step {:?}", other),
    }
    assert_eq!(resolver.stage(), Stage::Idle);
}

#[test]
fn resolve_fails_on_an_answer_of_the_wrong_kind() {
    let mut resolver = default_resolver();
    resolver.resolve("example.com", Answer::Start);
    match resolver.resolve("example.com", Answer::Transfer(Transfer { count: 1, errno: 0 })) {
        Progress::Done(Err(e)) => assert_eq!(e, failed("Unexpected answer")),
        other => panic!("unexpected step {:?}", other),
    }
    assert_eq!(resolver.stage(), Stage::Idle);
}

#[test]
fn resolve_fails_on_a_name_that_cannot_be_written() {
    let mut resolver = default_resolver();
    let long = "a".repeat(64) + ".com";
    resolver.resolve(&long, Answer::Start);
    match resolver.resolve(&long, Answer::Status(OK)) {
        Progress::Done(Err(e)) => assert_eq!(e, failed("Could not serialize query")),
        other => panic!("unexpected step {:?}", other),
    }
    assert_eq!(resolver.stage(), Stage::Idle);
}

#[test]
fn resolve_to_an_ipv6_server_fails_without_a_call() {
    let v4 = SocketAddr::V4(SocketAddrV4::new(Ipv4Addr::new(1, 1, 1, 1), 53));
    let mut resolver = DnsResolver::new(v4, &[Status { value: 6, errno: 0 }, OK]).unwrap();
    resolver.set_query_id(7);
    assert_eq!(resolver.query_id(), 7);
    resolver.resolve("a.b", Answer::Start);
    resolver.resolve("a.b", Answer::Status(OK));
    assert_eq!(
        resolver.socket().buffer(),
        [0, 7, 1, 0, 0, 1, 0, 0, 0, 0, 0, 0, 1, b'a', 1, b'b', 0, 0, 1, 0, 1]
    );
}

#[test]
fn resolve_hostname_gives_a_socket_address() {
    let mut resolver = default_resolver();
    let mut buffer = [0u8; 1024];
    buffer[..45].copy_from_slice(&EXAMPLE_RESPONSE);
    resolver.resolve_hostname("example.com", Answer::Start);
    resolver.resolve_hostname("example.com", Answer::Status(OK));
    resolver.resolve_hostname("example.com", Answer::Transfer(Transfer { count: 29, errno: 0 }));
    let received = Answer::Received(Transfer { count: 45, errno: 0 }, &buffer);
    match resolver.resolve_hostname("example.com", received) {
        Progress::Done(Ok(addr)) => assert_eq!(
            addr,
            SocketAddr::V4(SocketAddrV4::new(Ipv4Addr::new(93, 184, 216, 34), 0))
        ),
        other => panic!("unexpected step {:?}", other),
    }
}

#[test]
fn first_answer_decides() {
    assert_eq!(first_answer_address(&None), Err(failed("Could not parse response")));
    assert_eq!(first_answer_address(&Some(vec![])), Err(failed("No answers received")));
    assert_eq!(
        first_answer_address(&Some(vec![vec![1, 2, 3]])),
        Err(failed("Could not parse IP address"))
    );
    assert_eq!(
        first_answer_address(&Some(vec![vec![], vec![1, 2, 3, 4]])),
        Err(failed("Could not parse IP address"))
    );
    assert_eq!(
        first_answer_address(&Some(vec![vec![255, 0, 1, 2], vec![9]])),
        Ok(in_addr(0xff00_0102))
    );
    assert_eq!(parse_response(&EXAMPLE_RESPONSE), Ok(in_addr(0x5db8_d822)));
}

#[test]
fn questions_ask_for_the_class_of_the_internet() {
    let question = create_a_type_query("example.com");
    assert_eq!(question.name, "example.com");
    assert_eq!(question.ty, QueryType::A);
    assert_eq!(question.ty.code(), 1);
    assert_eq!(question.class, 1);
    let question = create_ptr_type_query("1.2.3.4");
    assert_eq!(question.name, "1.2.3.4");
    assert_eq!(question.ty, QueryType::Ptr);
    assert_eq!(question.ty.code(), 12);
    assert_eq!(question.class, 1);
}
