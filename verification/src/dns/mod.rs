//! The DNS resolver.
//!
//! A resolver owns one UDP socket and the address of a DNS server. It asks the
//! server for the A record of a host name and gives the address of the first
//! answer. It keeps no answers and tries nothing twice.

use crate::netc::in_addr;
use crate::socket::checked::{
    connect_refusal, CheckedUdpSocket, CheckedUdpSocketView, UdpSocketState,
};
use crate::socket::error::SocketError;
use crate::socket::sce::{Answer, Progress, Status, Syscall, Transfer};
use crate::socket::tcp::buffer_after_send;
use crate::socket::udp::{bind_address, connected_view, UdpSocketView};
use crate::socket::{
    be_bytes_u32, is_sockaddr_of, u32_of_be_bytes, SocketAddr, ToSocketAddr,
};
use vstd::prelude::*;
use vstd::slice::slice_subrange;
use vstd::string::*;

pub mod error;
pub mod utils;
pub mod wire;

use error::{DnsError, DnsErrorView};
use utils::{create_a_type_query, google_dns_host, Question, DEFAULT_QUERY_ID};
use wire::{message_answers, read_answers, records_view, standard_query_wire, write_standard_query};

verus! {

/// The number of bytes that the resolver receives of a response, at most
pub const RESPONSE_CAPACITY: usize = 1024;

/// The number of questions that the resolver reads of a response, at most
pub const QUESTION_CAPACITY: u16 = 1;

/// The number of records that the resolver reads of each of the three record
/// sections of a response, at most
pub const RECORD_CAPACITY: u16 = 16;

/// How far a resolution has come
#[derive(Debug, Clone, Copy, PartialEq, Eq, Structural)]
pub enum Stage {
    /// No resolution is under way
    Idle,
    /// The connect to the server was asked for
    Connecting,
    /// The send of the query was asked for
    Sending,
    /// The receipt of the response was asked for
    Receiving,
}

/// What a [`DnsResolver`] stands for
pub struct DnsResolverView {
    /// The socket
    pub socket: CheckedUdpSocketView,
    /// The address of the server
    pub dns: SocketAddr,
    /// The identifier of the queries
    pub query_id: u16,
    /// How far the resolution under way has come
    pub stage: Stage,
}

/// What a step of a resolution gives, with the address as a number and the
/// text of an error as characters
pub enum ProgressView {
    /// The call to make next
    Call(Syscall),
    /// The end of the resolution
    Done(Result<u32, DnsErrorView>),
}

/// The failure of a resolution with the text `text`
pub open spec fn failed(text: Seq<char>) -> ProgressView {
    ProgressView::Done(Err(DnsErrorView::HostnameResolutionFailed(text)))
}

/// The view of a step that gives an address as [`in_addr`]
pub open spec fn progress_view(p: Progress<in_addr, DnsError>) -> ProgressView {
    match p {
        Progress::Call(call) => ProgressView::Call(call),
        Progress::Done(Ok(addr)) => ProgressView::Done(Ok(addr.0)),
        Progress::Done(Err(e)) => ProgressView::Done(Err(e@)),
    }
}

/// The view of the result of reading a response
pub open spec fn resolution_view(r: Result<in_addr, DnsError>) -> Result<u32, DnsErrorView> {
    match r {
        Ok(addr) => Ok(addr.0),
        Err(e) => Err(e@),
    }
}

/// The address that the answers of a response give: that of the first answer,
/// whose data has to be the four bytes of an IPv4 address, the most
/// significant first. `None` stands for a response that could not be read.
pub open spec fn address_of_answers(answers: Option<Seq<Seq<u8>>>) -> Result<u32, DnsErrorView> {
    match answers {
        None => Err(DnsErrorView::HostnameResolutionFailed("Could not parse response"@)),
        Some(records) => if records.len() == 0 {
            Err(DnsErrorView::HostnameResolutionFailed("No answers received"@))
        } else if records[0].len() == 4 {
            Ok(u32_of_be_bytes(records[0]))
        } else {
            Err(DnsErrorView::HostnameResolutionFailed("Could not parse IP address"@))
        },
    }
}

/// The address that the bytes of a response give. Nothing is read of a
/// response without bytes.
pub open spec fn response_address(data: Seq<u8>) -> Result<u32, DnsErrorView> {
    if data.len() == 0 {
        Err(DnsErrorView::HostnameResolutionFailed("No data received"@))
    } else {
        address_of_answers(message_answers(data, 1, 16, 16, 16))
    }
}

/// The view of the answers that were read of a response
pub open spec fn answers_view(answers: Option<Vec<Vec<u8>>>) -> Option<Seq<Seq<u8>>> {
    match answers {
        Some(records) => Some(records_view(records)),
        None => None,
    }
}

/// The failure of a resolution with the text `text`
fn resolution_failed(text: &str) -> (e: DnsError)
    ensures
        e@ == DnsErrorView::HostnameResolutionFailed(text@),
{
    DnsError::HostnameResolutionFailed(String::from_str(text))
}

/// The address that the answers of a response give
///
/// # Parameters
/// - `answers`: The data of each answer of the response, or `None` where the
///   response could not be read
///
/// # Errors
/// [`DnsError::HostnameResolutionFailed`], with the text
/// - `Could not parse response` if `answers` is `None`
/// - `No answers received` if there is no answer
/// - `Could not parse IP address` if the data of the first answer is not four
///   bytes long
pub fn first_answer_address(answers: &Option<Vec<Vec<u8>>>) -> (r: Result<in_addr, DnsError>)
    ensures
        resolution_view(r) == address_of_answers(answers_view(*answers)),
{
    match answers {
        None => Err(resolution_failed("Could not parse response")),
        Some(records) => {
            if records.len() == 0 {
                return Err(resolution_failed("No answers received"));
            }
            let answer = &records[0];
            assert(records_view(*records)[0] == answer@);
            if answer.len() == 4 {
                let addr: u32 = (answer[3] as u32) + (answer[2] as u32) * 0x100 + (answer[1] as u32)
                    * 0x1_0000 + (answer[0] as u32) * 0x100_0000;
                Ok(in_addr(addr))
            } else {
                Err(resolution_failed("Could not parse IP address"))
            }
        },
    }
}

/// The address that the bytes of a response give
///
/// # Errors
/// [`DnsError::HostnameResolutionFailed`], with the text `No data received`
/// if `data` is empty, else with the texts of
/// [`first_answer_address`].
pub fn parse_response(data: &[u8]) -> (r: Result<in_addr, DnsError>)
    ensures
        resolution_view(r) == response_address(data@),
{
    if data.len() == 0 {
        return Err(resolution_failed("No data received"));
    }
    let answers = read_answers(
        data,
        QUESTION_CAPACITY,
        RECORD_CAPACITY,
        RECORD_CAPACITY,
        RECORD_CAPACITY,
    );
    first_answer_address(&answers)
}

/// A DNS resolver
#[derive(Debug)]
pub struct DnsResolver {
    /// The UDP socket that is used to send and receive DNS messages
    udp_socket: CheckedUdpSocket,
    /// The DNS server address
    dns: SocketAddr,
    /// The identifier of the queries
    query_id: u16,
    /// How far the resolution under way has come
    stage: Stage,
}

impl View for DnsResolver {
    type V = DnsResolverView;

    closed spec fn view(&self) -> DnsResolverView {
        DnsResolverView {
            socket: self.udp_socket@,
            dns: self.dns,
            query_id: self.query_id,
            stage: self.stage,
        }
    }
}

/// The next call of a creation that binds the socket to `bind_to`, once the
/// calls before it were answered with `answers`: the creation of the socket;
/// then its bind, or the close of its descriptor if the address cannot be
/// bound to; then the close of its descriptor if the bind failed.
pub open spec fn creation_call(
    bind_to: Option<SocketAddr>,
    answers: Seq<Status>,
    call: Option<Syscall>,
) -> bool {
    if answers.len() == 0 {
        call == Some(Syscall::Socket { domain: 2, kind: 2, protocol: 0 })
    } else if answers.len() > 2 || answers[0].value < 0 {
        call is None
    } else {
        match bind_address(bind_to) {
            SocketAddr::V6(_) => if answers.len() == 1 {
                call == Some(Syscall::Close { fd: answers[0].value })
            } else {
                call is None
            },
            SocketAddr::V4(v4) => if answers.len() == 1 {
                &&& call matches Some(Syscall::Bind { fd, addr, addr_len })
                &&& fd == answers[0].value
                &&& is_sockaddr_of(addr, v4)
                &&& addr_len == 16
            } else if answers[1].value != 0 {
                call == Some(Syscall::Close { fd: answers[0].value })
            } else {
                call is None
            },
        }
    }
}

/// Whether the answers to the calls of a creation say that the socket was
/// created and bound
pub open spec fn creation_succeeded(bind_to: Option<SocketAddr>, answers: Seq<Status>) -> bool {
    &&& answers.len() >= 2
    &&& answers[0].value >= 0
    &&& bind_address(bind_to) is V4
    &&& answers[1].value == 0
}

/// What the resolver stands for with `queued` as the bytes that wait in its
/// socket
pub open spec fn with_queue(v: DnsResolverView, queued: Seq<u8>) -> DnsResolverView {
    DnsResolverView {
        socket: CheckedUdpSocketView {
            socket: UdpSocketView { buffer: queued, ..v.socket.socket },
            ..v.socket
        },
        ..v
    }
}

/// What the resolver stands for at the stage `stage`
pub open spec fn at_stage(v: DnsResolverView, stage: Stage) -> DnsResolverView {
    DnsResolverView { stage, ..v }
}

/// The step that sends the query for `host`: the query is written and queued
/// in the socket, and the send of the queue is asked for.
pub open spec fn query_step(v: DnsResolverView, host: Seq<char>) -> (DnsResolverView, ProgressView) {
    match standard_query_wire(v.query_id, host, 1, 1) {
        None => (at_stage(v, Stage::Idle), failed("Could not serialize query"@)),
        Some(wire) => if v.socket.state != UdpSocketState::Connected {
            (at_stage(v, Stage::Idle), failed(SocketError::NotConnected.message()))
        } else {
            (
                at_stage(with_queue(v, v.socket.socket.buffer + wire), Stage::Sending),
                ProgressView::Call(
                    Syscall::Send {
                        fd: v.socket.socket.fd,
                        len: (v.socket.socket.buffer.len() + wire.len()) as usize,
                        flags: v.socket.socket.send_flags as i32,
                    },
                ),
            )
        },
    }
}

/// The step from the stage [`Stage::Idle`]: the connect to the server where
/// the socket is not connected yet, else the send of the query.
pub open spec fn idle_step(
    before: DnsResolverView,
    host: Seq<char>,
    after: DnsResolverView,
    progress: ProgressView,
) -> bool {
    if before.socket.state == UdpSocketState::Connected {
        (after, progress) == query_step(before, host)
    } else {
        match connect_refusal(before.socket.state, before.dns) {
            Some(refusal) => after == before && progress == failed(refusal.message()),
            None => {
                &&& after == at_stage(before, Stage::Connecting)
                &&& before.dns matches SocketAddr::V4(v4)
                &&& progress matches ProgressView::Call(Syscall::Connect { fd, addr, addr_len })
                &&& fd == before.socket.socket.fd
                &&& is_sockaddr_of(addr, v4)
                &&& addr_len == 16
            },
        }
    }
}

/// The step from the stage [`Stage::Connecting`], with the answer `ret` to
/// the connect: the send of the query where the connect succeeded.
pub open spec fn connecting_step(
    before: DnsResolverView,
    host: Seq<char>,
    ret: Status,
    after: DnsResolverView,
    progress: ProgressView,
) -> bool {
    match connect_refusal(before.socket.state, before.dns) {
        Some(refusal) => after == at_stage(before, Stage::Idle) && progress == failed(
            refusal.message(),
        ),
        None => if ret.value != 0 {
            after == at_stage(before, Stage::Idle) && progress == failed(
                SocketError::Errno(ret.errno).message(),
            )
        } else {
            &&& before.dns matches SocketAddr::V4(v4)
            &&& after.socket.socket.remote matches Some(to)
            &&& is_sockaddr_of(to, v4)
            &&& (after, progress) == query_step(
                DnsResolverView {
                    socket: CheckedUdpSocketView {
                        state: UdpSocketState::Connected,
                        socket: connected_view(before.socket.socket, to, Seq::<u8>::empty()),
                    },
                    stage: Stage::Idle,
                    ..before
                },
                host,
            )
        },
    }
}

/// The step from the stage [`Stage::Sending`], with the answer `ret` to the
/// send: the receipt of the response where the send succeeded.
pub open spec fn sending_step(before: DnsResolverView, ret: Transfer) -> (
    DnsResolverView,
    ProgressView,
) {
    if before.socket.state != UdpSocketState::Connected {
        (at_stage(before, Stage::Idle), failed(SocketError::NotConnected.message()))
    } else if ret.count < 0 {
        (at_stage(before, Stage::Idle), failed(SocketError::Errno(ret.errno).message()))
    } else {
        (
            at_stage(
                with_queue(before, buffer_after_send(before.socket.socket.buffer, ret)),
                Stage::Receiving,
            ),
            ProgressView::Call(
                Syscall::Recv {
                    fd: before.socket.socket.fd,
                    len: 1024,
                    flags: before.socket.socket.recv_flags as i32,
                },
            ),
        )
    }
}

/// The bytes that were received into `buffer` by a call that answered `ret`
pub open spec fn received_bytes(ret: Transfer, buffer: Seq<u8>) -> Seq<u8> {
    if ret.count < 0 {
        Seq::<u8>::empty()
    } else if ret.count < buffer.len() {
        buffer.take(ret.count as int)
    } else {
        buffer
    }
}

/// The step from the stage [`Stage::Receiving`], with the answer `ret` to the
/// receipt into `buffer`: the end of the resolution.
pub open spec fn receiving_step(before: DnsResolverView, ret: Transfer, buffer: Seq<u8>) -> (
    DnsResolverView,
    ProgressView,
) {
    if before.socket.state != UdpSocketState::Connected {
        (at_stage(before, Stage::Idle), failed(SocketError::NotConnected.message()))
    } else if ret.count < 0 {
        (at_stage(before, Stage::Idle), failed(SocketError::Errno(ret.errno).message()))
    } else {
        (
            at_stage(before, Stage::Idle),
            ProgressView::Done(response_address(received_bytes(ret, buffer))),
        )
    }
}

/// One step of a resolution: from what the resolver stood for, the name of
/// the host and the answer to the last call, to what the resolver stands for
/// now and what it asks or gives. An answer of the wrong kind ends the
/// resolution.
pub open spec fn resolve_step(
    before: DnsResolverView,
    host: Seq<char>,
    answer: Answer<'_>,
    after: DnsResolverView,
    progress: ProgressView,
) -> bool {
    match before.stage {
        Stage::Idle => idle_step(before, host, after, progress),
        Stage::Connecting => match answer {
            Answer::Status(ret) => connecting_step(before, host, ret, after, progress),
            _ => after == at_stage(before, Stage::Idle) && progress == failed(
                "Unexpected answer"@,
            ),
        },
        Stage::Sending => match answer {
            Answer::Transfer(ret) => (after, progress) == sending_step(before, ret),
            _ => after == at_stage(before, Stage::Idle) && progress == failed(
                "Unexpected answer"@,
            ),
        },
        Stage::Receiving => match answer {
            Answer::Received(ret, buffer) => (after, progress) == receiving_step(
                before,
                ret,
                buffer@,
            ),
            _ => after == at_stage(before, Stage::Idle) && progress == failed(
                "Unexpected answer"@,
            ),
        },
    }
}

impl DnsResolver {
    /// The next call of the creation of a resolver that binds its socket to
    /// `dns`, once the calls before it were answered with `answers`: the
    /// creation of the socket, then its bind, and then, if the socket could
    /// not be bound, the close of its descriptor. `None` says that no
    /// further call is needed, and that [`new`](Self::new) can be given
    /// `answers`.
    pub fn new_call(dns: SocketAddr, answers: &[Status]) -> (r: Option<Syscall>)
        ensures
            creation_call(Some(dns), answers@, r),
    {
        Self::create_call(Some(dns), answers)
    }

    /// Create a new DNS resolver
    ///
    /// # Parameters
    /// - `dns`: The [`SocketAddr`] of the DNS server, which the socket is
    ///   also bound to
    /// - `answers`: The answers to the calls that
    ///   [`new_call`](Self::new_call) asked for, in order
    ///
    /// # Errors
    /// - [`DnsError::FailedToCreate`]: The DNS resolver failed to create. This
    ///   happens if the socket could not be created or bound to the specified
    ///   address, or if `answers` does not hold the answers to both calls.
    ///   The descriptor of a socket that was created is closed by the last
    ///   call that [`new_call`](Self::new_call) asks for.
    pub fn new(dns: SocketAddr, answers: &[Status]) -> (r: Result<Self, DnsError>)
        ensures
            !creation_succeeded(Some(dns), answers@) ==> (r matches Err(e) && e
                == DnsError::FailedToCreate),
            dns matches SocketAddr::V4(v4) ==> (creation_succeeded(Some(dns), answers@) ==> (
            r matches Ok(resolver) && resolver@.socket.socket.remote matches Some(to)
                && is_sockaddr_of(to, v4) && resolver@ == DnsResolverView {
                socket: CheckedUdpSocketView {
                    state: UdpSocketState::Bound,
                    socket: UdpSocketView {
                        fd: answers@[0].value,
                        remote: Some(to),
                        buffer: Seq::<u8>::empty(),
                        send_flags: 0,
                        recv_flags: 0,
                    },
                },
                dns,
                query_id: 0x42,
                stage: Stage::Idle,
            })),
    {
        Self::create(dns, Some(dns), answers)
    }

    /// The next call of the creation of a resolver with default settings,
    /// once the calls before it were answered with `answers`: the creation of
    /// the socket, then its bind to `0.0.0.0:0`, and then, if the socket
    /// could not be bound, the close of its descriptor. `None` says that no
    /// further call is needed, and that [`try_default`](Self::try_default)
    /// can be given `answers`.
    pub fn try_default_call(answers: &[Status]) -> (r: Option<Syscall>)
        ensures
            creation_call(None, answers@, r),
    {
        Self::create_call(None, answers)
    }

    /// Try to create a new DNS resolver with default settings
    /// The default settings are to use Google's DNS server at `8.8.8.8:53`
    ///
    /// # Parameters
    /// - `answers`: The answers to the calls that
    ///   [`try_default_call`](Self::try_default_call) asked for, in order
    ///
    /// # Errors
    /// - [`DnsError::FailedToCreate`]: The DNS resolver failed to create. This
    ///   happens if the socket could not be created or bound, or if `answers`
    ///   does not hold the answers to both calls
    pub fn try_default(answers: &[Status]) -> (r: Result<Self, DnsError>)
        ensures
            !creation_succeeded(None, answers@) ==> (r matches Err(e) && e
                == DnsError::FailedToCreate),
            creation_succeeded(None, answers@) ==> (r matches Ok(resolver)
                && resolver@.socket.socket.remote matches Some(to) && is_sockaddr_of(
                to,
                crate::socket::udp::wildcard_address(),
            ) && (resolver@.dns matches SocketAddr::V4(v4) && v4.port == 53 && v4.ip.octets@
                == seq![8u8, 8u8, 8u8, 8u8]) && resolver@ == DnsResolverView {
                socket: CheckedUdpSocketView {
                    state: UdpSocketState::Bound,
                    socket: UdpSocketView {
                        fd: answers@[0].value,
                        remote: Some(to),
                        buffer: Seq::<u8>::empty(),
                        send_flags: 0,
                        recv_flags: 0,
                    },
                },
                dns: resolver@.dns,
                query_id: 0x42,
                stage: Stage::Idle,
            }),
    {
        let dns = google_dns_host();
        Self::create(dns, None, answers)
    }

    /// The next call of a creation that binds the socket to `bind_to`
    fn create_call(bind_to: Option<SocketAddr>, answers: &[Status]) -> (r: Option<Syscall>)
        ensures
            creation_call(bind_to, answers@, r),
    {
        if answers.len() == 0 {
            Some(CheckedUdpSocket::new_call())
        } else if answers.len() <= 2 {
            match CheckedUdpSocket::new(answers[0]) {
                Ok(mut socket) => if answers.len() == 1 {
                    match socket.bind_call(bind_to) {
                        Ok(call) => Some(call),
                        Err(_) => Some(socket.close()),
                    }
                } else {
                    match socket.bind(bind_to, answers[1]) {
                        Ok(()) => None,
                        Err(SocketError::Errno(_)) => Some(socket.close()),
                        Err(_) => None,
                    }
                },
                Err(_) => None,
            }
        } else {
            None
        }
    }

    /// The resolver for the server `dns` whose socket is bound to `bind_to`
    fn create(dns: SocketAddr, bind_to: Option<SocketAddr>, answers: &[Status]) -> (r: Result<
        Self,
        DnsError,
    >)
        ensures
            !creation_succeeded(bind_to, answers@) ==> (r matches Err(e) && e
                == DnsError::FailedToCreate),
            bind_address(bind_to) matches SocketAddr::V4(v4) ==> (creation_succeeded(
                bind_to,
                answers@,
            ) ==> (r matches Ok(resolver) && resolver@.socket.socket.remote matches Some(to)
                && is_sockaddr_of(to, v4) && resolver@ == DnsResolverView {
                socket: CheckedUdpSocketView {
                    state: UdpSocketState::Bound,
                    socket: UdpSocketView {
                        fd: answers@[0].value,
                        remote: Some(to),
                        buffer: Seq::<u8>::empty(),
                        send_flags: 0,
                        recv_flags: 0,
                    },
                },
                dns,
                query_id: 0x42,
                stage: Stage::Idle,
            })),
    {
        if answers.len() < 2 {
            return Err(DnsError::FailedToCreate);
        }
        let mut udp_socket = match CheckedUdpSocket::new(answers[0]) {
            Ok(socket) => socket,
            Err(_) => {
                return Err(DnsError::FailedToCreate);
            },
        };
        match udp_socket.bind(bind_to, answers[1]) {
            Ok(()) => {},
            Err(_) => {
                return Err(DnsError::FailedToCreate);
            },
        }
        Ok(DnsResolver { udp_socket, dns, query_id: DEFAULT_QUERY_ID, stage: Stage::Idle })
    }

    /// The socket of the resolver. Where the resolver asks for a send, the
    /// bytes to send are those that wait in this socket.
    pub fn socket(&self) -> (r: &CheckedUdpSocket)
        ensures
            r@ == self@.socket,
    {
        &self.udp_socket
    }

    /// The address of the DNS server
    pub fn dns(&self) -> (r: SocketAddr)
        ensures
            r == self@.dns,
    {
        self.dns
    }

    /// How far the resolution under way has come
    pub fn stage(&self) -> (r: Stage)
        ensures
            r == self@.stage,
    {
        self.stage
    }

    /// The identifier of the queries
    pub fn query_id(&self) -> (r: u16)
        ensures
            r == self@.query_id,
    {
        self.query_id
    }

    /// Set the identifier of the queries to come
    pub fn set_query_id(&mut self, query_id: u16)
        ensures
            final(self)@ == (DnsResolverView { query_id, ..old(self)@ }),
    {
        self.query_id = query_id;
    }

    /// Give the resolver up. The result is the call that closes the
    /// descriptor of its socket.
    pub fn close(self) -> (call: Syscall)
        ensures
            call == (Syscall::Close { fd: self@.socket.socket.fd }),
    {
        self.udp_socket.close()
    }

    /// Resolve a hostname to an IP address, one step at a time
    ///
    /// A resolution begins with a resolver at the stage [`Stage::Idle`]. Each
    /// call of this function gives either the call that the driver has to
    /// make next, whose answer goes to the next call of this function, or the
    /// end of the resolution. The calls are, in order: the connect to the DNS
    /// server, unless the socket is connected already; the send of the query;
    /// the receipt of up to 1024 bytes of response.
    ///
    /// # Parameters
    /// - `host`: The hostname to resolve
    /// - `answer`: The answer to the call that the step before asked for; it
    ///   is not looked at where the resolution begins
    ///
    /// # Returns
    /// - `Progress::Call(call)`: The call to make next
    /// - `Progress::Done(Ok(in_addr))`: The IP address of the hostname, that
    ///   of the first answer of the response
    ///
    /// # Errors
    /// - [`DnsError::HostnameResolutionFailed`]: The hostname could not be resolved.
    ///   This happens if the connection of the socket fails, if the query
    ///   cannot be written, if the send or the receipt fails, if no byte is
    ///   received, if the response cannot be read, if it holds no answer, or
    ///   if the data of its first answer is not four bytes long. The text
    ///   says which. The resolver is then at the stage [`Stage::Idle`].
    pub fn resolve(&mut self, host: &str, answer: Answer<'_>) -> (p: Progress<in_addr, DnsError>)
        ensures
            resolve_step(old(self)@, host@, answer, final(self)@, progress_view(p)),
    {
        match self.stage {
            Stage::Idle => self.connect_if_not_already(host),
            Stage::Connecting => {
                self.stage = Stage::Idle;
                match answer {
                    Answer::Status(ret) => match self.udp_socket.connect(self.dns, ret) {
                        Ok(()) => self.send_query(host),
                        Err(e) => Progress::Done(
                            Err(DnsError::HostnameResolutionFailed(e.to_string())),
                        ),
                    },
                    _ => Progress::Done(Err(resolution_failed("Unexpected answer"))),
                }
            },
            Stage::Sending => {
                self.stage = Stage::Idle;
                match answer {
                    Answer::Transfer(ret) => self.query_sent(ret),
                    _ => Progress::Done(Err(resolution_failed("Unexpected answer"))),
                }
            },
            Stage::Receiving => {
                self.stage = Stage::Idle;
                match answer {
                    Answer::Received(ret, buffer) => Progress::Done(
                        self.response_received(ret, buffer),
                    ),
                    _ => Progress::Done(Err(resolution_failed("Unexpected answer"))),
                }
            },
        }
    }

    /// Begin a resolution: ask for the connect to the DNS server where the
    /// socket is not connected yet, else send the query.
    fn connect_if_not_already(&mut self, host: &str) -> (p: Progress<in_addr, DnsError>)
        requires
            old(self)@.stage == Stage::Idle,
        ensures
            idle_step(old(self)@, host@, final(self)@, progress_view(p)),
    {
        if self.udp_socket.state() != UdpSocketState::Connected {
            match self.udp_socket.connect_call(self.dns) {
                Ok(call) => {
                    self.stage = Stage::Connecting;
                    Progress::Call(call)
                },
                Err(e) => Progress::Done(Err(DnsError::HostnameResolutionFailed(e.to_string()))),
            }
        } else {
            self.send_query(host)
        }
    }

    /// The bytes of the query for `question`
    fn serialise_query(&self, question: &Question) -> (r: Result<Vec<u8>, DnsError>)
        ensures
            match r {
                Ok(bytes) => standard_query_wire(
                    self@.query_id,
                    question.name@,
                    question.ty.spec_code(),
                    question.class,
                ) == Some(bytes@),
                Err(e) => e@ == DnsErrorView::HostnameResolutionFailed(
                    "Could not serialize query"@,
                ) && standard_query_wire(
                    self@.query_id,
                    question.name@,
                    question.ty.spec_code(),
                    question.class,
                ) is None,
            },
    {
        match write_standard_query(
            self.query_id,
            question.name.as_str(),
            question.ty.code(),
            question.class,
        ) {
            Some(tx_buf) => Ok(tx_buf),
            None => Err(resolution_failed("Could not serialize query")),
        }
    }

    /// Write the query for the A record of `host`, queue it in the socket and
    /// ask for the send.
    fn send_query(&mut self, host: &str) -> (p: Progress<in_addr, DnsError>)
        requires
            old(self)@.stage == Stage::Idle,
        ensures
            (final(self)@, progress_view(p)) == query_step(old(self)@, host@),
    {
        let question = create_a_type_query(host);
        let tx_buf = match self.serialise_query(&question) {
            Ok(bytes) => bytes,
            Err(e) => {
                return Progress::Done(Err(e));
            },
        };
        match self.udp_socket.write_call(tx_buf.as_slice()) {
            Ok(call) => {
                self.stage = Stage::Sending;
                Progress::Call(call)
            },
            Err(e) => Progress::Done(Err(DnsError::HostnameResolutionFailed(e.to_string()))),
        }
    }

    /// Take the answer to the send of the query, and ask for the receipt of
    /// the response.
    fn query_sent(&mut self, ret: Transfer) -> (p: Progress<in_addr, DnsError>)
        requires
            old(self)@.stage == Stage::Idle,
        ensures
            (final(self)@, progress_view(p)) == sending_step(old(self)@, ret),
    {
        match self.udp_socket.write(ret) {
            Ok(_) => {},
            Err(e) => {
                return Progress::Done(Err(DnsError::HostnameResolutionFailed(e.to_string())));
            },
        }
        match self.udp_socket.read_call(RESPONSE_CAPACITY) {
            Ok(call) => {
                self.stage = Stage::Receiving;
                Progress::Call(call)
            },
            Err(e) => Progress::Done(Err(DnsError::HostnameResolutionFailed(e.to_string()))),
        }
    }

    /// Take the answer to the receipt of the response into `buffer`, and read
    /// the address that the response gives.
    fn response_received(&mut self, ret: Transfer, buffer: &[u8]) -> (r: Result<
        in_addr,
        DnsError,
    >)
        requires
            old(self)@.stage == Stage::Idle,
        ensures
            (final(self)@, ProgressView::Done(resolution_view(r))) == receiving_step(
                old(self)@,
                ret,
                buffer@,
            ),
    {
        let data_len = match self.udp_socket.read(ret) {
            Ok(n) => n,
            Err(e) => {
                return Err(DnsError::HostnameResolutionFailed(e.to_string()));
            },
        };
        let received = if data_len < buffer.len() {
            slice_subrange(buffer, 0, data_len)
        } else {
            buffer
        };
        assert(received@ =~= received_bytes(ret, buffer@));
        parse_response(received)
    }
}

/// The view of a step that gives an address as [`SocketAddr`]: the address
/// as the number whose bytes, the most significant first, are its octets
pub open spec fn hostname_progress_view(p: Progress<SocketAddr, DnsError>) -> ProgressView {
    match p {
        Progress::Call(call) => ProgressView::Call(call),
        Progress::Done(Ok(SocketAddr::V4(v4))) => ProgressView::Done(
            Ok(u32_of_be_bytes(v4.ip.octets@)),
        ),
        Progress::Done(Ok(SocketAddr::V6(_))) => ProgressView::Done(Ok(0)),
        Progress::Done(Err(e)) => ProgressView::Done(Err(e@)),
    }
}

impl crate::traits::dns::ResolveHostname for DnsResolver {
    type Error = DnsError;

    /// Resolve a hostname to an IP address, one step at a time, as
    /// [`DnsResolver::resolve`] does
    ///
    /// # Returns
    /// - `Progress::Call(call)`: The call to make next
    /// - `Progress::Done(Ok(SocketAddr))`: The IP address of the hostname,
    ///   with the port 0
    ///
    /// # Errors
    /// - [`DnsError::HostnameResolutionFailed`]: The hostname could not be resolved.
    fn resolve_hostname(&mut self, hostname: &str, answer: Answer<'_>) -> (p: Progress<
        SocketAddr,
        DnsError,
    >)
        ensures
            resolve_step(old(self)@, hostname@, answer, final(self)@, hostname_progress_view(p)),
            p matches Progress::Done(Ok(addr)) ==> (addr matches SocketAddr::V4(v4) && v4.port
                == 0),
    {
        match self.resolve(hostname, answer) {
            Progress::Call(call) => Progress::Call(call),
            Progress::Done(Ok(addr)) => {
                let socket_addr = addr.to_socket_addr();
                proof {
                    crate::socket::lemma_be_bytes_round_trip(be_bytes_u32(addr.0), addr.0);
                }
                Progress::Done(Ok(socket_addr))
            },
            Progress::Done(Err(e)) => Progress::Done(Err(e)),
        }
    }
}

} // verus!
