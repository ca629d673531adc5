//! The TCP socket.
#![allow(clippy::module_name_repetitions)]

use super::error::{failure, Failure, SocketError};
use super::sce::{SocketFileDescriptor, Status, Syscall, Transfer};
use super::state::{Connected, SocketState, Unbound};
use super::{is_sockaddr_of, SocketAddr, ToSockaddr};
use crate::netc;
use crate::traits::io::{EasySocket, ErrorType, Open, OptionType, Read, Write};
use crate::traits::{shifted_left, SocketBuffer};
use crate::types::{SocketOptions, SocketRecvFlags, SocketSendFlags};
use vstd::prelude::*;

verus! {

/// What a [`TcpSocket`] stands for
pub struct TcpSocketView {
    /// The number of the descriptor
    pub fd: i32,
    /// The bytes that wait to be sent, oldest first
    pub buffer: Seq<u8>,
    /// The bits of the flags for send calls
    pub send_flags: u32,
    /// The bits of the flags for receive calls
    pub recv_flags: u32,
}

/// A TCP socket
///
/// The state of the socket is part of its type: an unbound socket can only be
/// connected, and only a connected socket reads and writes.
///
/// The socket does not call the platform. For each operation it describes the
/// call to make, and takes the platform's answer:
/// ```no_run
/// let socket = TcpSocket::new(platform.perform(TcpSocket::new_call()))?;
/// let call = socket.connect_call(remote)?;
/// let mut socket = socket.connect(remote, platform.perform(call))?;
/// let call = socket.internal_write_call(b"hello world");
/// socket.internal_write(platform.send(call, socket.buffer()))?;
/// ```
#[derive(Debug)]
pub struct TcpSocket<S: SocketState = Unbound, B: SocketBuffer = Vec<u8>> {
    /// The socket file descriptor
    fd: SocketFileDescriptor,
    /// The buffer to store data to send
    buffer: B,
    /// flags for send calls
    send_flags: SocketSendFlags,
    /// flags for recv calls
    recv_flags: SocketRecvFlags,
    /// marker for the socket state
    _marker: core::marker::PhantomData<S>,
}

impl<S: SocketState, B: SocketBuffer> View for TcpSocket<S, B> {
    type V = TcpSocketView;

    closed spec fn view(&self) -> TcpSocketView {
        TcpSocketView {
            fd: self.fd@,
            buffer: self.buffer.bytes(),
            send_flags: self.send_flags@,
            recv_flags: self.recv_flags@,
        }
    }
}

/// The result of a call that moves bytes: the count, or the platform's error
/// number where the count is negative
pub open spec fn transfer_result(ret: Transfer) -> Result<usize, SocketError> {
    if ret.count < 0 {
        Err(SocketError::Errno(ret.errno))
    } else {
        Ok(ret.count as usize)
    }
}

/// The outbound bytes after a send was answered with `ret`: unchanged where
/// the send failed, else without the bytes that were sent
pub open spec fn buffer_after_send(buffer: Seq<u8>, ret: Transfer) -> Seq<u8> {
    if ret.count < 0 {
        buffer
    } else {
        shifted_left(buffer, ret.count as nat)
    }
}

/// The bytes that the platform took of the queue by a send that it answered
/// with `ret`: none where the send failed, else the first bytes of the queue,
/// as many as it counted, and not more than were queued
pub open spec fn accepted(queue: Seq<u8>, ret: Transfer) -> Seq<u8> {
    if ret.count < 0 {
        Seq::<u8>::empty()
    } else if ret.count >= queue.len() {
        queue
    } else {
        queue.take(ret.count as int)
    }
}

/// The queue after the sends that the platform answered with `answers`, in
/// order, each send offering all that was queued then
pub open spec fn queue_after_sends(queue: Seq<u8>, answers: Seq<Transfer>) -> Seq<u8>
    decreases answers.len(),
{
    if answers.len() == 0 {
        queue
    } else {
        queue_after_sends(buffer_after_send(queue, answers[0]), answers.skip(1))
    }
}

/// The bytes that the platform took by the sends that it answered with
/// `answers`, in the order in which it took them
pub open spec fn accepted_by_sends(queue: Seq<u8>, answers: Seq<Transfer>) -> Seq<u8>
    decreases answers.len(),
{
    if answers.len() == 0 {
        Seq::<u8>::empty()
    } else {
        accepted(queue, answers[0]) + accepted_by_sends(
            buffer_after_send(queue, answers[0]),
            answers.skip(1),
        )
    }
}

/// One send splits the queue: what the platform took, and then what stays
/// queued, are the queue.
pub proof fn lemma_send_splits_the_queue(queue: Seq<u8>, ret: Transfer)
    ensures
        accepted(queue, ret) + buffer_after_send(queue, ret) == queue,
{
    assert(accepted(queue, ret) + buffer_after_send(queue, ret) =~= queue);
}

/// A write and the sends of a flush, of a TCP socket or of a connected UDP
/// socket, lose no byte and send no byte twice:
/// whatever the platform answers, the bytes that it took, in order, and then
/// the bytes that are still queued, are the bytes that were queued at first.
/// So once the queue is empty, which is when the flush asks for no further
/// call, the platform has taken exactly the queued bytes, once and in order.
/// A send that fails takes nothing and leaves the queue.
pub proof fn lemma_sends_lose_and_repeat_nothing(queue: Seq<u8>, answers: Seq<Transfer>)
    ensures
        accepted_by_sends(queue, answers) + queue_after_sends(queue, answers) == queue,
        queue_after_sends(queue, answers).len() == 0 ==> accepted_by_sends(queue, answers)
            == queue,
    decreases answers.len(),
{
    if answers.len() == 0 {
        assert(accepted_by_sends(queue, answers) + queue_after_sends(queue, answers) =~= queue);
    } else {
        let rest = buffer_after_send(queue, answers[0]);
        lemma_send_splits_the_queue(queue, answers[0]);
        lemma_sends_lose_and_repeat_nothing(rest, answers.skip(1));
        assert(accepted_by_sends(queue, answers) + queue_after_sends(queue, answers) =~= accepted(
            queue,
            answers[0],
        ) + (accepted_by_sends(rest, answers.skip(1)) + queue_after_sends(
            rest,
            answers.skip(1),
        )));
    }
    if queue_after_sends(queue, answers).len() == 0 {
        assert(accepted_by_sends(queue, answers) =~= accepted_by_sends(queue, answers)
            + queue_after_sends(queue, answers));
    }
}

/// A write into an empty queue and the flush that follows it deliver what
/// was written: where the write is answered with `first`, the sends of the
/// flush with `rest`, and the queue is empty in the end, the platform has
/// taken exactly `written`, once and in order. What the write sent is not
/// sent again, and what it did not send is not lost.
pub proof fn lemma_write_then_flush_delivers(
    written: Seq<u8>,
    first: Transfer,
    rest: Seq<Transfer>,
)
    requires
        queue_after_sends(buffer_after_send(Seq::<u8>::empty() + written, first), rest).len()
            == 0,
    ensures
        accepted(written, first) + accepted_by_sends(buffer_after_send(written, first), rest)
            == written,
{
    assert(Seq::<u8>::empty() + written =~= written);
    lemma_send_splits_the_queue(written, first);
    lemma_sends_lose_and_repeat_nothing(buffer_after_send(written, first), rest);
    assert(accepted(written, first) + accepted_by_sends(buffer_after_send(written, first), rest)
        =~= accepted(written, first) + buffer_after_send(written, first)) by {
        assert(accepted_by_sends(buffer_after_send(written, first), rest) == buffer_after_send(
            written,
            first,
        ));
    }
}

/// The sends of a flush that are answered with a count greater than 0 each
/// shorten the queue, so that a flush whose sends all take bytes comes to its
/// end.
pub proof fn lemma_send_that_takes_bytes_shortens(queue: Seq<u8>, ret: Transfer)
    requires
        ret.count > 0,
        queue.len() > 0,
    ensures
        buffer_after_send(queue, ret).len() < queue.len(),
{
}

/// What a socket stands for once it is connected: the same descriptor and
/// flags, and nothing queued
pub open spec fn connected_view(v: TcpSocketView) -> TcpSocketView {
    TcpSocketView { buffer: Seq::<u8>::empty(), ..v }
}

impl TcpSocket {
    /// The call that creates the descriptor of a TCP socket
    pub fn new_call() -> (call: Syscall)
        ensures
            call == (Syscall::Socket { domain: 2, kind: netc::SOCK_STREAM, protocol: 0 }),
    {
        Syscall::Socket { domain: netc::AF_INET as i32, kind: netc::SOCK_STREAM, protocol: 0 }
    }

    /// Create a TCP socket
    ///
    /// # Arguments
    /// - `ret`: the answer to [`new_call`](Self::new_call)
    ///
    /// # Returns
    /// A new TCP socket
    ///
    /// # Errors
    /// - [`SocketError::ErrnoWithDescription`] if the socket could not be created
    pub fn new(ret: Status) -> (r: Result<TcpSocket<Unbound>, SocketError>)
        ensures
            ret.value < 0 ==> (r matches Err(SocketError::ErrnoWithDescription(errno, text))
                && errno == ret.errno && text@ == "failed to create socket"@),
            ret.value >= 0 ==> (r matches Ok(socket) && socket@ == TcpSocketView {
                fd: ret.value,
                buffer: Seq::<u8>::empty(),
                send_flags: 0,
                recv_flags: 0,
            }),
    {
        if ret.value < 0 {
            Err(SocketError::new_errno_with_description(ret.errno, "failed to create socket"))
        } else {
            let fd = SocketFileDescriptor::new(ret.value);
            Ok(
                TcpSocket {
                    fd,
                    buffer: Vec::new(),
                    send_flags: SocketSendFlags::empty(),
                    recv_flags: SocketRecvFlags::empty(),
                    _marker: core::marker::PhantomData,
                },
            )
        }
    }
}

impl<S: SocketState, B: SocketBuffer> TcpSocket<S, B> {
    /// Return the underlying socket's file descriptor
    #[must_use]
    pub fn fd(&self) -> (r: i32)
        ensures
            r == self@.fd,
            r >= 0,
    {
        self.fd.as_raw()
    }

    /// Flags used when sending data
    #[must_use]
    pub fn send_flags(&self) -> (r: SocketSendFlags)
        ensures
            r@ == self@.send_flags,
    {
        self.send_flags
    }

    /// Set the flags used when sending data
    pub fn set_send_flags(&mut self, send_flags: SocketSendFlags)
        ensures
            final(self)@ == (TcpSocketView { send_flags: send_flags@, ..old(self)@ }),
    {
        self.send_flags = send_flags;
    }

    /// Flags used when receiving data
    #[must_use]
    pub fn recv_flags(&self) -> (r: SocketRecvFlags)
        ensures
            r@ == self@.recv_flags,
    {
        self.recv_flags
    }

    /// Set the flags used when receiving data
    pub fn set_recv_flags(&mut self, recv_flags: SocketRecvFlags)
        ensures
            final(self)@ == (TcpSocketView { recv_flags: recv_flags@, ..old(self)@ }),
    {
        self.recv_flags = recv_flags;
    }
}

impl<S: SocketState, B: SocketBuffer> TcpSocket<S, B> {
    /// Give the socket up. The result is the call that closes its descriptor.
    /// The socket is used up, so that no second close can be asked for.
    pub fn close(self) -> (call: Syscall)
        ensures
            call == (Syscall::Close { fd: self@.fd }),
    {
        Syscall::Close { fd: self.fd.as_raw() }
    }
}

impl<B: SocketBuffer> TcpSocket<Unbound, B> {
    /// The connected socket of the same descriptor and flags, with nothing
    /// queued
    #[must_use]
    fn transition(self) -> (r: TcpSocket<Connected, B>)
        ensures
            r@ == connected_view(self@),
    {
        TcpSocket {
            fd: self.fd,
            buffer: B::new(),
            send_flags: self.send_flags,
            recv_flags: self.recv_flags,
            _marker: core::marker::PhantomData,
        }
    }

    /// The call that connects the socket to `remote`
    ///
    /// # Errors
    /// - [`SocketError::UnsupportedAddressFamily`] if `remote` is not an IPv4
    ///   address: no call is to be made
    pub fn connect_call(&self, remote: SocketAddr) -> (r: Result<Syscall, SocketError>)
        ensures
            remote is V6 ==> r == Err::<Syscall, SocketError>(
                SocketError::UnsupportedAddressFamily,
            ),
            remote matches SocketAddr::V4(v4) ==> (r matches Ok(
                Syscall::Connect { fd, addr, addr_len },
            ) && fd == self@.fd && is_sockaddr_of(addr, v4) && addr_len == 16),
    {
        match remote {
            SocketAddr::V4(v4) => {
                let sockaddr = v4.to_sockaddr();
                Ok(
                    Syscall::Connect {
                        fd: self.fd.as_raw(),
                        addr: sockaddr,
                        addr_len: netc::SOCKADDR_LEN as u32,
                    },
                )
            },
            SocketAddr::V6(_) => Err(SocketError::UnsupportedAddressFamily),
        }
    }

    /// Connect to a remote host
    ///
    /// # Parameters
    /// - `remote`: The remote host to connect to
    /// - `ret`: The answer to [`connect_call`](Self::connect_call); it is not
    ///   looked at where that gave no call
    ///
    /// # Returns
    /// The connected socket, which has the descriptor and the flags of this one
    ///
    /// # Errors
    /// The socket is used up, and the failure holds the close of its
    /// descriptor, with
    /// - [`SocketError::UnsupportedAddressFamily`] if the address family is not supported (only IPv4 is supported)
    /// - [`SocketError::Errno`] if the platform refused the connection
    pub fn connect(self, remote: SocketAddr, ret: Status) -> (r: Result<
        TcpSocket<Connected, B>,
        Failure,
    >)
        ensures
            remote is V6 ==> (r matches Err(f) && f == failure(
                SocketError::UnsupportedAddressFamily,
                self@.fd,
            )),
            remote is V4 && ret.value < 0 ==> (r matches Err(f) && f == failure(
                SocketError::Errno(ret.errno),
                self@.fd,
            )),
            remote is V4 && ret.value >= 0 ==> (r matches Ok(socket) && socket@
                == connected_view(self@)),
    {
        match remote {
            SocketAddr::V4(_) => {
                if ret.value < 0 {
                    Err(Failure { error: SocketError::Errno(ret.errno), close: self.close() })
                } else {
                    Ok(self.transition())
                }
            },
            SocketAddr::V6(_) => Err(
                Failure { error: SocketError::UnsupportedAddressFamily, close: self.close() },
            ),
        }
    }
}

impl<B: SocketBuffer> TcpSocket<Connected, B> {
    /// The bytes that wait to be sent, oldest first
    pub fn buffer(&self) -> (r: &[u8])
        ensures
            r@ == self@.buffer,
    {
        self.buffer.as_slice()
    }

    /// The call that reads up to `len` bytes from the socket
    pub fn internal_read_call(&self, len: usize) -> (call: Syscall)
        ensures
            call == (Syscall::Recv { fd: self@.fd, len, flags: self@.recv_flags as i32 }),
    {
        Syscall::Recv { fd: self.fd.as_raw(), len, flags: self.recv_flags.as_i32() }
    }

    /// Read from the socket
    ///
    /// # Parameters
    /// - `ret`: The answer to [`internal_read_call`](Self::internal_read_call)
    ///
    /// # Returns
    /// - `Ok(usize)` if the read was successful. The number of bytes read,
    ///   which is 0 where the remote side closed the connection
    /// - `Err(SocketError)` if the read was unsuccessful.
    ///
    /// # Errors
    /// - [`SocketError::Errno`] if the read was unsuccessful
    pub fn internal_read(&self, ret: Transfer) -> (r: Result<usize, SocketError>)
        ensures
            r == transfer_result(ret),
    {
        if ret.count < 0 {
            Err(SocketError::Errno(ret.errno))
        } else {
            Ok(ret.count as usize)
        }
    }

    /// Queue `buf` behind what waits to be sent. The result is the call that
    /// attempts, once, to send all that is queued.
    pub fn internal_write_call(&mut self, buf: &[u8]) -> (call: Syscall)
        ensures
            final(self)@ == (TcpSocketView { buffer: old(self)@.buffer + buf@, ..old(self)@ }),
            call == (Syscall::Send {
                fd: old(self)@.fd,
                len: (old(self)@.buffer.len() + buf@.len()) as usize,
                flags: old(self)@.send_flags as i32,
            }),
    {
        self.buffer.append_buffer(buf);
        self.send_call()
    }

    /// Write to the socket
    ///
    /// # Parameters
    /// - `ret`: The answer to [`internal_write_call`](Self::internal_write_call)
    ///
    /// # Returns
    /// The number of bytes that were sent. They leave the queue; the rest
    /// stays for a later write or flush.
    ///
    /// # Errors
    /// - [`SocketError::Errno`] if the write was unsuccessful
    pub fn internal_write(&mut self, ret: Transfer) -> (r: Result<usize, SocketError>)
        ensures
            r == transfer_result(ret),
            final(self)@ == (TcpSocketView {
                buffer: buffer_after_send(old(self)@.buffer, ret),
                ..old(self)@
            }),
    {
        self.send(ret)
    }

    /// The next call of a flush: the send of all that is queued, or `None`
    /// where nothing is queued and the flush is complete.
    pub fn internal_flush_call(&self) -> (r: Option<Syscall>)
        ensures
            self@.buffer.len() == 0 ==> r is None,
            self@.buffer.len() > 0 ==> r == Some(
                Syscall::Send {
                    fd: self@.fd,
                    len: self@.buffer.len() as usize,
                    flags: self@.send_flags as i32,
                },
            ),
    {
        if self.buffer.is_empty() {
            None
        } else {
            Some(self.send_call())
        }
    }

    /// Take the answer to a call of a flush. The bytes that were sent leave
    /// the queue; [`internal_flush_call`](Self::internal_flush_call) then says
    /// whether the flush goes on.
    ///
    /// # Errors
    /// - [`SocketError::Errno`] if the send was unsuccessful
    pub fn internal_flush(&mut self, ret: Transfer) -> (r: Result<(), SocketError>)
        ensures
            ret.count < 0 ==> r == Err::<(), SocketError>(SocketError::Errno(ret.errno)),
            ret.count >= 0 ==> r is Ok,
            final(self)@ == (TcpSocketView {
                buffer: buffer_after_send(old(self)@.buffer, ret),
                ..old(self)@
            }),
    {
        match self.send(ret) {
            Ok(_) => Ok(()),
            Err(e) => Err(e),
        }
    }

    /// The call that sends all that is queued
    fn send_call(&self) -> (call: Syscall)
        ensures
            call == (Syscall::Send {
                fd: self@.fd,
                len: self@.buffer.len() as usize,
                flags: self@.send_flags as i32,
            }),
    {
        Syscall::Send {
            fd: self.fd.as_raw(),
            len: self.buffer.len(),
            flags: self.send_flags.as_i32(),
        }
    }

    /// Take the answer to a send: the bytes that were sent leave the queue.
    fn send(&mut self, ret: Transfer) -> (r: Result<usize, SocketError>)
        ensures
            r == transfer_result(ret),
            final(self)@ == (TcpSocketView {
                buffer: buffer_after_send(old(self)@.buffer, ret),
                ..old(self)@
            }),
    {
        if ret.count < 0 {
            Err(SocketError::Errno(ret.errno))
        } else {
            self.buffer.shift_left_buffer(ret.count as usize);
            Ok(ret.count as usize)
        }
    }
}

impl<S: SocketState, B: SocketBuffer> ErrorType for TcpSocket<S, B> {
    type Error = SocketError;
}

impl<S: SocketState, B: SocketBuffer> OptionType for TcpSocket<S, B> {
    type Options<'a> = SocketOptions;
}

impl<B: SocketBuffer> Open<'_, '_> for TcpSocket<Unbound, B> {
    type Return = TcpSocket<Connected, B>;

    type Call = Syscall;

    type Answer = Status;

    type Failure = Failure;

    /// Opening asks for one call: the connect to the remote of `options`.
    fn open_call(&self, options: &'_ Self::Options<'_>, answers: &[Status]) -> (r: Result<
        Option<Syscall>,
        SocketError,
    >)
        ensures
            options@ is V6 ==> (r matches Err(e) && e == SocketError::UnsupportedAddressFamily),
            options@ is V4 && answers@.len() > 0 ==> r == Ok::<Option<Syscall>, SocketError>(
                None,
            ),
            options@ matches SocketAddr::V4(v4) ==> (answers@.len() == 0 ==> (r matches Ok(
                Some(Syscall::Connect { fd, addr, addr_len }),
            ) && fd == self@.fd && is_sockaddr_of(addr, v4) && addr_len == 16)),
    {
        let call = self.connect_call(options.remote())?;
        if answers.len() == 0 {
            Ok(Some(call))
        } else {
            Ok(None)
        }
    }

    /// Return a TCP socket connected to the remote specified in `options`
    ///
    /// # Errors
    /// The socket is used up, and the failure holds the close of its
    /// descriptor, with
    /// - [`SocketError::UnsupportedAddressFamily`] if the remote is not an
    ///   IPv4 address
    /// - [`SocketError::NotConnected`] if `answers` is empty: the connect was
    ///   not made
    /// - [`SocketError::Errno`] if the platform refused the connection
    fn open(self, options: &'_ Self::Options<'_>, answers: &[Status]) -> (r: Result<
        Self::Return,
        Failure,
    >) where Self: Sized
        ensures
            options@ is V6 ==> (r matches Err(f) && f == failure(
                SocketError::UnsupportedAddressFamily,
                self@.fd,
            )),
            options@ is V4 && answers@.len() == 0 ==> (r matches Err(f) && f == failure(
                SocketError::NotConnected,
                self@.fd,
            )),
            options@ is V4 && answers@.len() > 0 && answers@[0].value < 0 ==> (r matches Err(f)
                && f == failure(SocketError::Errno(answers@[0].errno), self@.fd)),
            options@ is V4 && answers@.len() > 0 && answers@[0].value >= 0 ==> (r matches Ok(
                socket,
            ) && socket@ == connected_view(self@)),
    {
        let remote = options.remote();
        if answers.len() == 0 {
            let error = match remote {
                SocketAddr::V4(_) => SocketError::NotConnected,
                SocketAddr::V6(_) => SocketError::UnsupportedAddressFamily,
            };
            Err(Failure { error, close: self.close() })
        } else {
            let socket = self.connect(remote, answers[0])?;
            Ok(socket)
        }
    }
}

impl<B: SocketBuffer> Read for TcpSocket<Connected, B> {
    fn read_call(&self, len: usize) -> (call: Syscall)
        ensures
            call == (Syscall::Recv { fd: self@.fd, len, flags: self@.recv_flags as i32 }),
    {
        self.internal_read_call(len)
    }

    /// Read from the socket
    ///
    /// # Errors
    /// - [`SocketError::Errno`] if the read was unsuccessful
    fn read(&mut self, ret: Transfer) -> (r: Result<usize, Self::Error>)
        ensures
            r == transfer_result(ret),
            final(self)@ == old(self)@,
    {
        self.internal_read(ret)
    }
}

impl<B: SocketBuffer> Write for TcpSocket<Connected, B> {
    fn write_call(&mut self, buf: &[u8]) -> (call: Syscall)
        ensures
            final(self)@ == (TcpSocketView { buffer: old(self)@.buffer + buf@, ..old(self)@ }),
            call == (Syscall::Send {
                fd: old(self)@.fd,
                len: (old(self)@.buffer.len() + buf@.len()) as usize,
                flags: old(self)@.send_flags as i32,
            }),
    {
        self.internal_write_call(buf)
    }

    /// Write to the socket
    ///
    /// # Errors
    /// - [`SocketError::Errno`] if the write was unsuccessful
    fn write(&mut self, ret: Transfer) -> (r: Result<usize, Self::Error>)
        ensures
            r == transfer_result(ret),
            final(self)@ == (TcpSocketView {
                buffer: buffer_after_send(old(self)@.buffer, ret),
                ..old(self)@
            }),
    {
        self.internal_write(ret)
    }

    fn flush_call(&self) -> (r: Option<Syscall>)
        ensures
            self@.buffer.len() == 0 ==> r is None,
            self@.buffer.len() > 0 ==> r == Some(
                Syscall::Send {
                    fd: self@.fd,
                    len: self@.buffer.len() as usize,
                    flags: self@.send_flags as i32,
                },
            ),
    {
        self.internal_flush_call()
    }

    /// Flush the socket
    ///
    /// # Errors
    /// - [`SocketError::Errno`] if the flush was unsuccessful
    fn flush(&mut self, ret: Transfer) -> (r: Result<(), SocketError>)
        ensures
            ret.count < 0 ==> r == Err::<(), SocketError>(SocketError::Errno(ret.errno)),
            ret.count >= 0 ==> r is Ok,
            final(self)@ == (TcpSocketView {
                buffer: buffer_after_send(old(self)@.buffer, ret),
                ..old(self)@
            }),
    {
        self.internal_flush(ret)
    }
}

impl<B: SocketBuffer> EasySocket for TcpSocket<Connected, B> {

}

/// The descriptor of a socket leaves it once. A socket that was created with
/// a descriptor and then connected still has that descriptor, whatever was
/// written in between; the close that ends its life closes that descriptor;
/// and a connect that fails asks for the close of that descriptor.
pub proof fn lemma_descriptor_leaves_once(created: TcpSocketView, queued: Seq<u8>, error: SocketError)
    ensures
        connected_view(created).fd == created.fd,
        (TcpSocketView { buffer: queued, ..connected_view(created) }).fd == created.fd,
        connected_view(created).send_flags == created.send_flags,
        connected_view(created).recv_flags == created.recv_flags,
        failure(error, created.fd).close == (Syscall::Close { fd: created.fd }),
        failure(error, created.fd).error == error,
{
}

} // verus!
