//! The socket operations. Each is a decision over the registry and its plain arguments; what only
//! the system can do is handed back as a request, and the outcome of it comes back in.
use crate::address::{bind_endpoint, bind_target, send_endpoint, send_target, SocketAddress};
use crate::error::{Operation, Reason, Rejection};
use crate::ipv4::{ipv4_of_text, parse_ipv4, UNSPECIFIED};
use crate::ipv6::{ipv6_of_text, parse_ipv6};
use crate::registry::{Registry, RegistryView};
use crate::text::{parse_u32, read_str, text_of, text_or_empty, u32_of_text};
use crate::value::{address_info, incoming_message, Value};
use std::sync::Arc;
use tokio::net::UdpSocket;
use tokio::sync::{Mutex, Notify};
use vstd::prelude::*;
use vstd::slice::slice_to_vec;
use vstd::string::*;

verus! {

/// The largest receive buffer: no datagram is longer.
pub const MAX_DATAGRAM: usize = 65_536;

/// What an operation that answers at once does next: it has its answer, or it needs the system.
pub enum Step<Request, Answer> {
    Done(Answer),
    Perform(Request),
}

/// A datagram to be sent.
pub struct SendRequest {
    pub socket: Arc<UdpSocket>,
    pub payload: Vec<u8>,
    pub destination: String,
}

/// A datagram to be awaited: take the lock, then receive into a buffer of `capacity` bytes; `closing`
/// gives a sign when the socket is closed meanwhile.
pub struct RecvRequest {
    pub socket: Arc<UdpSocket>,
    pub recv_lock: Arc<Mutex<()>>,
    pub closing: Arc<Notify>,
    pub capacity: usize,
}

/// A buffer whose first `filled` bytes are a datagram that came from `from`.
pub struct Received {
    pub buffer: Vec<u8>,
    pub filled: usize,
    pub from: SocketAddress,
}

/// What a receive that waits is told.
pub enum RecvEvent {
    /// A datagram came in.
    Arrived(Received),
    /// The system reported an error.
    Failed(String),
    /// Nothing came in, but the socket may have been closed.
    Woken,
}

/// What becomes of a receive that waits.
pub enum RecvProgress {
    KeepWaiting,
    Settled(Result<Value, Rejection>),
}

/// A closed socket: the answer, and the signal to give to the receives that wait on it.
pub struct Closing {
    pub answer: Value,
    pub wake: Option<Arc<Notify>>,
}

/// The broadcast option to be set.
pub struct BroadcastRequest {
    pub socket: Arc<UdpSocket>,
    pub enabled: bool,
}

/// A multicast group to be joined or left.
pub enum MembershipRequest {
    V4(V4Membership),
    V6(V6Membership),
}

/// An IPv4 group to be joined or left on the interface that has the address `interface`; the
/// unspecified address lets the system pick one.
pub struct V4Membership {
    pub socket: Arc<UdpSocket>,
    pub group: u32,
    pub interface: u32,
    pub join: bool,
}

/// An IPv6 group to be joined or left on an interface; index 0 lets the system pick one.
pub struct V6Membership {
    pub socket: Arc<UdpSocket>,
    pub group: u128,
    pub interface_index: u32,
    pub join: bool,
}

/// Whether the socket type asked for is the IPv6 one.
pub open spec fn asks_ipv6(kind: Option<&[u8]>) -> bool {
    text_of(kind) == Some("udp6"@)
}

/// Registers an unbound socket, with a receive lock and a closing signal that no other open socket
/// has, and returns its handle. The type `udp6` gives an IPv6 socket; any other, and none, gives an
/// IPv4 one.
pub fn js_dgram_create_socket(registry: &mut Registry, kind: Option<&[u8]>) -> (handle: i64)
    requires
        old(registry)@.well_formed(),
        old(registry)@.next_id < i64::MAX,
    ensures
        handle == old(registry)@.next_id,
        handle > 0,
        !old(registry)@.is_open(handle),
        final(registry)@.is_open(handle),
        final(registry)@ == old(registry)@.opened(
            asks_ipv6(kind),
            final(registry)@.sockets[handle].recv_lock,
            final(registry)@.sockets[handle].closing,
        ),
        old(registry)@.is_fresh(
            final(registry)@.sockets[handle].recv_lock,
            final(registry)@.sockets[handle].closing,
        ),
        final(registry)@.well_formed(),
{
    let kind_text = match read_str(kind) {
        Some(text) => text,
        None => "udp4".to_owned(),
    };
    proof {
        reveal_strlit("udp4");
        reveal_strlit("udp6");
        assert("udp4"@[3] != "udp6"@[3]);
    }
    let ipv6: bool = kind_text == "udp6".to_owned();
    registry.open(ipv6)
}

/// Why a bind is refused; `None` when it goes ahead.
pub open spec fn bind_refusal(registry: RegistryView, handle: i64) -> Option<Reason> {
    if !registry.is_open(handle) {
        Some(Reason::InvalidHandle)
    } else if registry.sockets[handle].socket is Some {
        Some(Reason::AlreadyBound)
    } else {
        None
    }
}

/// Starts a bind: returns the endpoint to bind to, or why the bind is refused.
pub fn js_dgram_bind(
    registry: &Registry,
    handle: i64,
    port: u16,
    address: Option<&[u8]>,
) -> (target: Result<String, Rejection>)
    ensures
        match target {
            Ok(text) => {
                &&& bind_refusal(registry@, handle) is None
                &&& text@ == bind_endpoint(
                    registry@.sockets[handle].ipv6,
                    text_or_empty(address),
                    port,
                )
            },
            Err(rejection) => {
                &&& rejection.operation == Operation::Bind
                &&& bind_refusal(registry@, handle) == Some(rejection.reason)
            },
        },
{
    let ipv6: bool = match registry.get(handle) {
        Some(state) => {
            if state.socket.is_some() {
                return Err(Rejection::new(Operation::Bind, Reason::AlreadyBound));
            }
            state.ipv6
        },
        None => {
            return Err(Rejection::new(Operation::Bind, Reason::InvalidHandle));
        },
    };
    let address_text = match read_str(address) {
        Some(text) => text,
        None => String::new(),
    };
    Ok(bind_target(ipv6, address_text.as_str(), port))
}

/// Why a system socket that was bound for `handle` is turned away; `None` when it is recorded. Of
/// two binds that overlap, the one that ends second finds the socket bound.
pub open spec fn late_bind_refusal(registry: RegistryView, handle: i64) -> Option<Reason> {
    if !registry.is_open(handle) {
        Some(Reason::VanishedMidBind)
    } else if registry.sockets[handle].socket is Some {
        Some(Reason::AlreadyBound)
    } else {
        None
    }
}

/// Ends a bind: records the bound socket, unless there is one already or `handle` was closed
/// meanwhile, or passes on what the system reported.
pub fn finish_bind(
    registry: &mut Registry,
    handle: i64,
    outcome: Result<Arc<UdpSocket>, String>,
) -> (settled: Result<Value, Rejection>)
    requires
        old(registry)@.well_formed(),
    ensures
        final(registry)@.well_formed(),
        match outcome {
            Ok(socket) => final(registry)@ == old(registry)@.attached(handle, socket),
            Err(_) => final(registry)@ == old(registry)@,
        },
        settled == (match outcome {
            Ok(_) => match late_bind_refusal(old(registry)@, handle) {
                None => Ok(Value::Undefined),
                Some(reason) => Err((Rejection { operation: Operation::Bind, reason })),
            },
            Err(text) => Err(
                (Rejection { operation: Operation::Bind, reason: Reason::System(text) }),
            ),
        }),
{
    match outcome {
        Ok(socket) => {
            if registry.get(handle).is_none() {
                Err(Rejection::new(Operation::Bind, Reason::VanishedMidBind))
            } else if registry.attach(handle, socket) {
                Ok(Value::Undefined)
            } else {
                Err(Rejection::new(Operation::Bind, Reason::AlreadyBound))
            }
        },
        Err(text) => Err(Rejection::new(Operation::Bind, Reason::System(text))),
    }
}

/// Why a datagram to `address` is refused; `None` when it goes out.
pub open spec fn send_refusal(
    registry: RegistryView,
    handle: i64,
    address: Option<&[u8]>,
) -> Option<Reason> {
    if text_or_empty(address).len() == 0 {
        Some(Reason::InvalidAddress)
    } else if !registry.is_open(handle) {
        Some(Reason::InvalidHandle)
    } else if registry.sockets[handle].socket is None {
        Some(Reason::NotBound)
    } else {
        None
    }
}

/// Whether `request` sends `payload` through the socket of `handle` to `address` and `port`.
pub open spec fn sends(
    request: SendRequest,
    registry: RegistryView,
    handle: i64,
    payload: Seq<u8>,
    port: u16,
    address: Option<&[u8]>,
) -> bool {
    &&& registry.bound_socket(handle) == Some(request.socket)
    &&& request.payload@ == payload
    &&& request.destination@ == send_endpoint(text_or_empty(address), port)
}

/// What the two ways of sending share.
fn send_inner(
    registry: &Registry,
    handle: i64,
    bytes: Vec<u8>,
    port: u16,
    address: Option<&[u8]>,
    operation: Operation,
) -> (request: Result<SendRequest, Rejection>)
    ensures
        match request {
            Ok(r) => {
                &&& send_refusal(registry@, handle, address) is None
                &&& sends(r, registry@, handle, bytes@, port, address)
            },
            Err(rejection) => {
                &&& rejection.operation == operation
                &&& send_refusal(registry@, handle, address) == Some(rejection.reason)
            },
        },
{
    let address_text = match read_str(address) {
        Some(text) => text,
        None => String::new(),
    };
    if address_text.as_str().is_empty() {
        return Err(Rejection::new(operation, Reason::InvalidAddress));
    }
    let destination = send_target(address_text.as_str(), port);
    match registry.get(handle) {
        Some(state) => match state.share_socket() {
            Some(socket) => Ok(SendRequest { socket, payload: bytes, destination }),
            None => Err(Rejection::new(operation, Reason::NotBound)),
        },
        None => Err(Rejection::new(operation, Reason::InvalidHandle)),
    }
}

/// Starts to send the text `msg`, which has to be UTF-8.
pub fn js_dgram_send(
    registry: &Registry,
    handle: i64,
    msg: Option<&[u8]>,
    port: u16,
    address: Option<&[u8]>,
) -> (request: Result<SendRequest, Rejection>)
    ensures
        match request {
            Ok(r) => {
                &&& text_of(msg) is Some
                &&& send_refusal(registry@, handle, address) is None
                &&& sends(r, registry@, handle, msg->0@, port, address)
            },
            Err(rejection) => {
                &&& rejection.operation == Operation::Send
                &&& Some(rejection.reason) == (if text_of(msg) is None {
                    Some(Reason::InvalidMessage)
                } else {
                    send_refusal(registry@, handle, address)
                })
            },
        },
{
    match read_str(msg) {
        Some(text) => {
            proof {
                vstd::utf8::decode_utf8_encode_utf8(msg->0@);
            }
            let bytes = text.as_str().as_bytes_vec();
            send_inner(registry, handle, bytes, port, address, Operation::Send)
        },
        None => Err(Rejection::new(Operation::Send, Reason::InvalidMessage)),
    }
}

/// Starts to send the bytes of `buffer` as they are.
pub fn js_dgram_send_buffer(
    registry: &Registry,
    handle: i64,
    buffer: Option<&[u8]>,
    port: u16,
    address: Option<&[u8]>,
) -> (request: Result<SendRequest, Rejection>)
    ensures
        match request {
            Ok(r) => {
                &&& buffer is Some
                &&& send_refusal(registry@, handle, address) is None
                &&& sends(r, registry@, handle, buffer->0@, port, address)
            },
            Err(rejection) => {
                &&& rejection.operation == Operation::SendBuffer
                &&& Some(rejection.reason) == (if buffer is None {
                    Some(Reason::InvalidBuffer)
                } else {
                    send_refusal(registry@, handle, address)
                })
            },
        },
{
    match buffer {
        Some(bytes) => send_inner(
            registry,
            handle,
            slice_to_vec(bytes),
            port,
            address,
            Operation::SendBuffer,
        ),
        None => Err(Rejection::new(Operation::SendBuffer, Reason::InvalidBuffer)),
    }
}

/// Ends a send: answers with the number of bytes written, or passes on what the system reported.
pub fn finish_send(
    operation: Operation,
    outcome: Result<usize, String>,
) -> (settled: Result<Value, Rejection>)
    ensures
        settled == (match outcome {
            Ok(written) => Ok(Value::Number(written as u64)),
            Err(text) => Err((Rejection { operation, reason: Reason::System(text) })),
        }),
{
    match outcome {
        Ok(written) => Ok(Value::Number(written as u64)),
        Err(text) => Err(Rejection::new(operation, Reason::System(text))),
    }
}

/// The size of the receive buffer when `max_bytes` are asked for: at least one byte, and no more
/// than a datagram can hold.
pub open spec fn clamped_capacity(max_bytes: usize) -> usize {
    if max_bytes < 1 {
        1
    } else if max_bytes > MAX_DATAGRAM {
        MAX_DATAGRAM
    } else {
        max_bytes
    }
}

/// The size of the receive buffer when `max_bytes` are asked for.
pub fn recv_capacity(max_bytes: usize) -> (capacity: usize)
    ensures
        capacity == clamped_capacity(max_bytes),
{
    if max_bytes < 1 {
        1
    } else if max_bytes > MAX_DATAGRAM {
        MAX_DATAGRAM
    } else {
        max_bytes
    }
}

/// Why a receive is refused; `None` when it goes ahead.
pub open spec fn recv_refusal(registry: RegistryView, handle: i64) -> Option<Reason> {
    if !registry.is_open(handle) {
        Some(Reason::InvalidHandle)
    } else if registry.sockets[handle].socket is None {
        Some(Reason::NotBound)
    } else {
        None
    }
}

/// Starts to receive: returns the socket to wait on, the lock to hold meanwhile, the signal of a close
/// and the size of the buffer, or why the receive is refused.
pub fn js_dgram_recv(registry: &Registry, handle: i64, max_bytes: usize) -> (request: Result<
    RecvRequest,
    Rejection,
>)
    ensures
        match request {
            Ok(r) => {
                &&& recv_refusal(registry@, handle) is None
                &&& registry@.bound_socket(handle) == Some(r.socket)
                &&& r.recv_lock == registry@.sockets[handle].recv_lock
                &&& r.closing == registry@.sockets[handle].closing
                &&& r.capacity == clamped_capacity(max_bytes)
            },
            Err(rejection) => {
                &&& rejection.operation == Operation::Recv
                &&& recv_refusal(registry@, handle) == Some(rejection.reason)
            },
        },
{
    let capacity: usize = recv_capacity(max_bytes);
    match registry.get(handle) {
        Some(state) => match state.share_socket() {
            Some(socket) => Ok(
                RecvRequest {
                    socket,
                    recv_lock: state.share_lock(),
                    closing: state.share_closing(),
                    capacity,
                },
            ),
            None => Err(Rejection::new(Operation::Recv, Reason::NotBound)),
        },
        None => Err(Rejection::new(Operation::Recv, Reason::InvalidHandle)),
    }
}

/// Whether `settled` is how a receive ends with `outcome`: with the datagram and its sender, or with
/// what the system reported; but with a rejection, whatever came in, once the socket is closed.
pub open spec fn receive_ends(
    settled: Result<Value, Rejection>,
    registry: RegistryView,
    handle: i64,
    outcome: Result<Received, String>,
) -> bool {
    if !registry.is_open(handle) {
        settled == Err::<Value, Rejection>(
            Rejection { operation: Operation::Recv, reason: Reason::Closed },
        )
    } else {
        match outcome {
            Ok(received) => {
                &&& settled is Ok
                &&& settled->Ok_0.describes_message(
                    received.buffer@.take(received.filled as int),
                    received.from,
                )
            },
            Err(text) => settled == Err::<Value, Rejection>(
                Rejection { operation: Operation::Recv, reason: Reason::System(text) },
            ),
        }
    }
}

/// Ends a receive: hands over the datagram and its sender, or passes on what the system reported.
/// A receive whose socket was closed meanwhile is rejected, whatever the system reported.
pub fn finish_recv(
    registry: &Registry,
    handle: i64,
    outcome: Result<Received, String>,
) -> (settled: Result<Value, Rejection>)
    requires
        outcome matches Ok(received) ==> received.filled <= received.buffer@.len(),
    ensures
        receive_ends(settled, registry@, handle, outcome),
{
    if registry.get(handle).is_none() {
        return Err(Rejection::new(Operation::Recv, Reason::Closed));
    }
    match outcome {
        Ok(received) => {
            let mut msg = received.buffer;
            msg.truncate(received.filled);
            assert(msg@ =~= received.buffer@.take(received.filled as int));
            Ok(incoming_message(msg, received.from))
        },
        Err(text) => Err(Rejection::new(Operation::Recv, Reason::System(text))),
    }
}

/// Whether `progress` is what becomes of a waiting receive that is told of `event`: it ends with a
/// datagram, an error or the close of its socket, and else goes on.
pub open spec fn receive_advances(
    progress: RecvProgress,
    registry: RegistryView,
    handle: i64,
    event: RecvEvent,
) -> bool {
    match event {
        RecvEvent::Arrived(received) => {
            &&& progress is Settled
            &&& receive_ends(progress->Settled_0, registry, handle, Ok(received))
        },
        RecvEvent::Failed(text) => {
            &&& progress is Settled
            &&& receive_ends(progress->Settled_0, registry, handle, Err(text))
        },
        RecvEvent::Woken => progress == if registry.is_open(handle) {
            RecvProgress::KeepWaiting
        } else {
            RecvProgress::Settled(
                Err(Rejection { operation: Operation::Recv, reason: Reason::Closed }),
            )
        },
    }
}

/// Tells a waiting receive of `event`.
pub fn advance_recv(registry: &Registry, handle: i64, event: RecvEvent) -> (progress: RecvProgress)
    requires
        event matches RecvEvent::Arrived(received) ==> received.filled <= received.buffer@.len(),
    ensures
        receive_advances(progress, registry@, handle, event),
{
    match event {
        RecvEvent::Arrived(received) => RecvProgress::Settled(
            finish_recv(registry, handle, Ok(received)),
        ),
        RecvEvent::Failed(text) => RecvProgress::Settled(finish_recv(registry, handle, Err(text))),
        RecvEvent::Woken => {
            if registry.get(handle).is_none() {
                RecvProgress::Settled(Err(Rejection::new(Operation::Recv, Reason::Closed)))
            } else {
                RecvProgress::KeepWaiting
            }
        },
    }
}

/// Delivers a received message, which is `None` when no buffer could be had for its bytes.
pub fn delivered<T>(message: Option<T>) -> (settled: Result<T, Rejection>)
    ensures
        settled == (match message {
            Some(message) => Ok(message),
            None => Err(
                (Rejection {
                    operation: Operation::Recv,
                    reason: Reason::BufferAllocationFailed,
                }),
            ),
        }),
{
    match message {
        Some(message) => Ok(message),
        None => Err(Rejection::new(Operation::Recv, Reason::BufferAllocationFailed)),
    }
}

/// Drops the socket that `handle` names, if there is one. The receives that wait on it are to be
/// woken.
pub fn js_dgram_close(registry: &mut Registry, handle: i64) -> (closing: Closing)
    requires
        old(registry)@.well_formed(),
    ensures
        closing.answer == Value::Undefined,
        closing.wake == (if old(registry)@.is_open(handle) {
            Some(old(registry)@.sockets[handle].closing)
        } else {
            None
        }),
        final(registry)@ == old(registry)@.closed(handle),
        final(registry)@.well_formed(),
{
    let wake = registry.close(handle);
    Closing { answer: Value::Undefined, wake }
}

/// Starts to read the local address: null for a socket that is not bound, else the socket to ask.
pub fn js_dgram_address(registry: &Registry, handle: i64) -> (step: Step<Arc<UdpSocket>, Value>)
    ensures
        step == (match registry@.bound_socket(handle) {
            Some(socket) => Step::Perform(socket),
            None => Step::Done(Value::Null),
        }),
{
    match registry.bound_socket(handle) {
        Some(socket) => Step::Perform(socket),
        None => Step::Done(Value::Null),
    }
}

/// Ends the reading of the local address: null if the system had none to report.
pub fn finish_address(local: Option<SocketAddress>) -> (value: Value)
    ensures
        match local {
            Some(address) => value.describes_address(address),
            None => value == Value::Null,
        },
{
    match local {
        Some(address) => address_info(address),
        None => Value::Null,
    }
}

/// The answer of an operation that succeeds or fails: 1 or 0.
pub fn status(succeeded: bool) -> (answer: i64)
    ensures
        answer == (if succeeded {
            1i64
        } else {
            0i64
        }),
{
    if succeeded {
        1
    } else {
        0
    }
}

/// Starts to set the broadcast option: 0 for a socket that is not bound, else the option to set.
pub fn js_dgram_set_broadcast(registry: &Registry, handle: i64, flag: bool) -> (step: Step<
    BroadcastRequest,
    i64,
>)
    ensures
        step == (match registry@.bound_socket(handle) {
            Some(socket) => Step::Perform((BroadcastRequest { socket, enabled: flag })),
            None => Step::Done(0i64),
        }),
{
    match registry.bound_socket(handle) {
        Some(socket) => Step::Perform(BroadcastRequest { socket, enabled: flag }),
        None => Step::Done(status(false)),
    }
}

/// What is to be done to join or leave the group `multi`. The answer is 0 when the group is absent,
/// empty or no address of the socket's family, when the socket is not bound, and for IPv4 also when
/// the interface is neither empty nor an address. An interface that is absent counts as empty.
pub open spec fn membership_step(
    registry: RegistryView,
    handle: i64,
    multi: Option<&[u8]>,
    iface: Option<&[u8]>,
    join: bool,
) -> Step<MembershipRequest, i64> {
    let group = text_or_empty(multi);
    let interface = text_or_empty(iface);
    match registry.bound_socket(handle) {
        Some(socket) => if group.len() == 0 {
            Step::Done(0i64)
        } else if registry.sockets[handle].ipv6 {
            v6_step(socket, ipv6_of_text(group), interface_index(interface), join)
        } else {
            v4_step(socket, ipv4_of_text(group), interface_address(interface), join)
        },
        None => Step::Done(0i64),
    }
}

/// The request for an IPv4 group; 0 when the group or the interface is no address.
pub open spec fn v4_step(
    socket: Arc<UdpSocket>,
    group: Option<u32>,
    interface: Option<u32>,
    join: bool,
) -> Step<MembershipRequest, i64> {
    match (group, interface) {
        (Some(group), Some(interface)) => Step::Perform(
            MembershipRequest::V4(V4Membership { socket, group, interface, join }),
        ),
        _ => Step::Done(0i64),
    }
}

/// The request for an IPv6 group; 0 when the group is no address.
pub open spec fn v6_step(
    socket: Arc<UdpSocket>,
    group: Option<u128>,
    interface_index: u32,
    join: bool,
) -> Step<MembershipRequest, i64> {
    match group {
        Some(group) => Step::Perform(
            MembershipRequest::V6(V6Membership { socket, group, interface_index, join }),
        ),
        None => Step::Done(0i64),
    }
}

/// The address of the IPv4 interface that `text` names: the unspecified address for an empty text;
/// `None` for a text that is neither empty nor an address.
pub open spec fn interface_address(text: Seq<char>) -> Option<u32> {
    if text.len() == 0 {
        Some(UNSPECIFIED)
    } else {
        ipv4_of_text(text)
    }
}

/// The index of the IPv6 interface that `text` names; 0 for a text that is not a number.
pub open spec fn interface_index(text: Seq<char>) -> u32 {
    match u32_of_text(text) {
        Some(index) => index,
        None => 0,
    }
}

/// The request for an IPv4 group; 0 when the group or the interface is no address.
pub fn v4_membership(
    socket: Arc<UdpSocket>,
    group: Option<u32>,
    interface: Option<u32>,
    join: bool,
) -> (step: Step<MembershipRequest, i64>)
    ensures
        step == v4_step(socket, group, interface, join),
{
    match (group, interface) {
        (Some(group), Some(interface)) => Step::Perform(
            MembershipRequest::V4(V4Membership { socket, group, interface, join }),
        ),
        _ => Step::Done(status(false)),
    }
}

/// The request for an IPv6 group; 0 when the group is no address.
pub fn v6_membership(
    socket: Arc<UdpSocket>,
    group: Option<u128>,
    interface_index: u32,
    join: bool,
) -> (step: Step<MembershipRequest, i64>)
    ensures
        step == v6_step(socket, group, interface_index, join),
{
    match group {
        Some(group) => Step::Perform(
            MembershipRequest::V6(V6Membership { socket, group, interface_index, join }),
        ),
        None => Step::Done(status(false)),
    }
}

/// What joining and leaving a group share.
fn membership_inner(
    registry: &Registry,
    handle: i64,
    multi: Option<&[u8]>,
    iface: Option<&[u8]>,
    join: bool,
) -> (step: Step<MembershipRequest, i64>)
    ensures
        step == membership_step(registry@, handle, multi, iface, join),
{
    let group = match read_str(multi) {
        Some(text) => text,
        None => String::new(),
    };
    if group.as_str().is_empty() {
        return Step::Done(status(false));
    }
    let interface = match read_str(iface) {
        Some(text) => text,
        None => String::new(),
    };
    let state = match registry.get(handle) {
        Some(state) => state,
        None => {
            return Step::Done(status(false));
        },
    };
    let socket = match state.share_socket() {
        Some(socket) => socket,
        None => {
            return Step::Done(status(false));
        },
    };
    if state.ipv6 {
        let index: u32 = match parse_u32(interface.as_str()) {
            Some(index) => index,
            None => 0,
        };
        v6_membership(socket, parse_ipv6(group.as_str()), index, join)
    } else {
        let interface_address: Option<u32> = if interface.as_str().is_empty() {
            Some(UNSPECIFIED)
        } else {
            parse_ipv4(interface.as_str())
        };
        v4_membership(socket, parse_ipv4(group.as_str()), interface_address, join)
    }
}

/// Starts to join the multicast group `multi`: 0 when the arguments do not name a group and an
/// interface or the socket is not bound, else the group to join.
pub fn js_dgram_add_membership(
    registry: &Registry,
    handle: i64,
    multi: Option<&[u8]>,
    iface: Option<&[u8]>,
) -> (step: Step<MembershipRequest, i64>)
    ensures
        step == membership_step(registry@, handle, multi, iface, true),
{
    membership_inner(registry, handle, multi, iface, true)
}

/// Starts to leave the multicast group `multi`: 0 when the arguments do not name a group and an
/// interface or the socket is not bound, else the group to leave.
pub fn js_dgram_drop_membership(
    registry: &Registry,
    handle: i64,
    multi: Option<&[u8]>,
    iface: Option<&[u8]>,
) -> (step: Step<MembershipRequest, i64>)
    ensures
        step == membership_step(registry@, handle, multi, iface, false),
{
    membership_inner(registry, handle, multi, iface, false)
}

} // verus!
