//! What the functions of the library do when they are called, told of the arguments of the call and
//! of what it hands back.
use crate::address::{bind_target, reaches, send_target, SocketAddress};
use crate::error::{Operation, Reason, Rejection};
use crate::ipv4::{dotted, dotted_text, lemma_dotted_has_no_colon, parse_ipv4};
use crate::ipv6::{ipv6_of_text, ipv6_text_of};
use crate::laws::{
    law_endpoint_reaches_one_address, law_interface_index_reads_back,
    law_ipv4_wildcard_is_unspecified,
};
use crate::notation_laws::{
    law_dotted_spells_the_octets, law_endpoints_of_an_address, law_every_text_is_read,
    law_ipv4_bind_endpoint, law_ipv4_reads_dotted_texts_only, law_ipv6_bind_endpoint, law_messages,
    law_send_endpoint, law_text_is_read_iff_utf8, law_u32_grows_by_digits, law_u32_texts,
};
use crate::operation_laws::{
    holds_text, is_usable, law_bind_is_refused_iff, law_bind_uses_the_address_asked_for,
    law_every_ipv4_group_is_requested, law_every_ipv6_group_is_requested,
    law_membership_is_refused_only_if, law_receive_is_refused_iff,
    law_received_datagram_is_handed_over_whole, law_reported_address, law_send_is_refused_iff,
    law_send_request, law_udp6_alone_asks_for_ipv6,
};
use crate::operations::{
    advance_recv, delivered, finish_address, finish_bind, finish_recv, finish_send,
    js_dgram_add_membership, js_dgram_address, js_dgram_bind, js_dgram_close,
    js_dgram_create_socket, js_dgram_drop_membership, js_dgram_recv, js_dgram_send,
    js_dgram_send_buffer, js_dgram_set_broadcast, recv_capacity, status, BroadcastRequest, Closing,
    MembershipRequest, Received, RecvEvent, RecvProgress, RecvRequest, SendRequest, Step,
    V4Membership, V6Membership,
};
use crate::registry::{Registry, SocketState};
use crate::text::{
    decimal, is_digit, is_null_address, lemma_decimal_reads_back, parse_u32, read_str,
    u32_of_text,
};
use crate::value::Value;
use std::sync::Arc;
use tokio::net::UdpSocket;
use vstd::prelude::*;
use vstd::utf8::{decode_utf8, encode_utf8, encode_utf8_decode_utf8, valid_utf8};

verus! {

/// A call that creates a socket hands out the next handle, for an unbound socket that is an IPv6 one
/// exactly when the bytes `udp6` were asked for, with a lock and a signal that no other socket has.
/// The other sockets stay as they are.
pub proof fn law_create_socket(
    registry: &mut Registry,
    kind: Option<&[u8]>,
    handle: i64,
    other: i64,
)
    requires
        old(registry)@.well_formed(),
        old(registry)@.next_id < i64::MAX,
        call_ensures(js_dgram_create_socket, (registry, kind), handle),
    ensures
        handle == old(registry)@.next_id,
        handle >= 1,
        !old(registry)@.sockets.contains_key(handle),
        final(registry)@.next_id == handle + 1,
        final(registry)@.sockets.contains_key(handle),
        final(registry)@.sockets[handle].socket is None,
        final(registry)@.sockets[handle].ipv6 <==> (kind matches Some(bytes) && bytes@ == seq![
            117u8,
            100u8,
            112u8,
            54u8,
        ]),
        other != handle ==> (final(registry)@.sockets.contains_key(other)
            <==> old(registry)@.sockets.contains_key(other)),
        old(registry)@.sockets.contains_key(other) ==> {
            &&& final(registry)@.sockets[other] == old(registry)@.sockets[other]
            &&& final(registry)@.sockets[handle].recv_lock
                != old(registry)@.sockets[other].recv_lock
            &&& final(registry)@.sockets[handle].closing != old(registry)@.sockets[other].closing
        },
{
    law_udp6_alone_asks_for_ipv6(kind);
}

/// A call that starts a bind is refused on a handle that is not open and on one that is bound; on
/// every other it gives the endpoint: the address asked for, or where none was asked for the wildcard
/// of the family, in brackets where an IPv6 address has none of its own, and the port.
pub proof fn law_bind(
    registry: &Registry,
    handle: i64,
    port: u16,
    address: Option<&[u8]>,
    target: Result<String, Rejection>,
)
    requires
        call_ensures(js_dgram_bind, (registry, handle, port, address), target),
    ensures
        !registry@.sockets.contains_key(handle) ==> target == Err::<String, Rejection>(
            (Rejection { operation: Operation::Bind, reason: Reason::InvalidHandle }),
        ),
        registry@.sockets.contains_key(handle) && registry@.sockets[handle].socket is Some
            ==> target == Err::<String, Rejection>(
            (Rejection { operation: Operation::Bind, reason: Reason::AlreadyBound }),
        ),
        registry@.sockets.contains_key(handle) && registry@.sockets[handle].socket is None ==> {
            let ipv6 = registry@.sockets[handle].ipv6;
            &&& target is Ok
            &&& is_usable(address) ==> {
                let host = decode_utf8(address->0@);
                target->Ok_0@ == (if ipv6 && host.contains(':') && host[0] != '[' {
                    seq!['['] + host + seq![']', ':']
                } else {
                    host + seq![':']
                }) + decimal(port as nat)
            }
            &&& !is_usable(address) ==> target->Ok_0@ == (if ipv6 {
                seq!['['] + "::"@ + seq![']', ':']
            } else {
                "0.0.0.0"@ + seq![':']
            }) + decimal(port as nat)
        },
{
    law_bind_is_refused_iff(registry@, handle);
    law_bind_uses_the_address_asked_for(address, port);
}

/// A bind of an unbound IPv4 socket to any IPv4 address is a bind to that address and port: the
/// endpoint is its text, a colon and the port.
pub proof fn law_bind_to_every_ipv4_address(
    registry: &Registry,
    handle: i64,
    port: u16,
    address: &[u8],
    ip: u32,
    target: Result<String, Rejection>,
)
    requires
        call_ensures(js_dgram_bind, (registry, handle, port, Some(address)), target),
        registry@.sockets.contains_key(handle),
        registry@.sockets[handle].socket is None,
        !registry@.sockets[handle].ipv6,
        address@ == encode_utf8(dotted(ip)),
    ensures
        target is Ok,
        target->Ok_0@ == dotted(ip) + seq![':'] + decimal(port as nat),
        reaches(target->Ok_0@, (SocketAddress::V4 { ip, port })),
{
    law_every_text_is_read(address, dotted(ip));
    law_ipv4_bind_endpoint(dotted(ip), port, ip);
    law_bind_is_refused_iff(registry@, handle);
}

/// A call that ends a bind records the system socket on an open, unbound handle and on no other, and
/// answers with nothing; else it changes nothing and says why.
pub proof fn law_finish_bind(
    registry: &mut Registry,
    handle: i64,
    outcome: Result<Arc<UdpSocket>, String>,
    settled: Result<Value, Rejection>,
    other: i64,
)
    requires
        call_ensures(finish_bind, (registry, handle, outcome), settled),
    ensures
        ({
            let before = old(registry)@;
            let after = final(registry)@;
            let open = before.sockets.contains_key(handle);
            let unbound = open && before.sockets[handle].socket is None;
            &&& outcome is Ok && unbound ==> {
                &&& settled == Ok::<Value, Rejection>(Value::Undefined)
                &&& after.sockets.contains_key(handle)
                &&& after.sockets[handle].socket == Some(outcome->Ok_0)
                &&& after.sockets[handle].ipv6 == before.sockets[handle].ipv6
                &&& after.sockets[handle].recv_lock == before.sockets[handle].recv_lock
                &&& after.sockets[handle].closing == before.sockets[handle].closing
                &&& after.next_id == before.next_id
            }
            &&& outcome is Err || !unbound ==> after == before
            &&& outcome is Ok && !open ==> settled == Err::<Value, Rejection>(
                (Rejection { operation: Operation::Bind, reason: Reason::VanishedMidBind }),
            )
            &&& outcome is Ok && open && !unbound ==> settled == Err::<Value, Rejection>(
                (Rejection { operation: Operation::Bind, reason: Reason::AlreadyBound }),
            )
            &&& outcome matches Err(text) ==> settled == Err::<Value, Rejection>(
                (Rejection { operation: Operation::Bind, reason: Reason::System(text) }),
            )
            &&& other != handle ==> {
                &&& after.sockets.contains_key(other) <==> before.sockets.contains_key(other)
                &&& before.sockets.contains_key(other) ==> after.sockets[other]
                    == before.sockets[other]
            }
        }),
{
}

/// Whether `request` sends exactly `payload` through `socket` to the host that `address` spells and
/// to `port`.
pub open spec fn carries(
    request: SendRequest,
    socket: Option<Arc<UdpSocket>>,
    payload: Seq<u8>,
    port: u16,
    address: &[u8],
) -> bool {
    let host = decode_utf8(address@);
    &&& socket == Some(request.socket)
    &&& request.payload@.len() == payload.len()
    &&& forall|i: int| 0 <= i < payload.len() ==> #[trigger] request.payload@[i] == payload[i]
    &&& request.destination@ == (if host.contains(':') && host[0] != '[' {
        seq!['['] + host + seq![']', ':']
    } else {
        host + seq![':']
    }) + decimal(port as nat)
}

/// A call that sends a text is refused for a message that is absent or not UTF-8, then for an address
/// that is absent, empty or not UTF-8, then on a handle that is not open or not bound. In every other
/// case it sends every byte of the message.
pub proof fn law_send(
    registry: &Registry,
    handle: i64,
    msg: Option<&[u8]>,
    port: u16,
    address: Option<&[u8]>,
    request: Result<SendRequest, Rejection>,
)
    requires
        call_ensures(js_dgram_send, (registry, handle, msg, port, address), request),
    ensures
        ({
            let readable = msg matches Some(bytes) && valid_utf8(bytes@);
            let open = registry@.sockets.contains_key(handle);
            let bound = open && registry@.sockets[handle].socket is Some;
            &&& readable && is_usable(address) && bound ==> {
                &&& request is Ok
                &&& carries(
                    request->Ok_0,
                    registry@.sockets[handle].socket,
                    msg->0@,
                    port,
                    address->0,
                )
            }
            &&& request is Err ==> request->Err_0.operation == Operation::Send
            &&& !readable ==> request is Err && request->Err_0.reason == Reason::InvalidMessage
            &&& readable && !is_usable(address) ==> request is Err && request->Err_0.reason
                == Reason::InvalidAddress
            &&& readable && is_usable(address) && !open ==> request is Err
                && request->Err_0.reason == Reason::InvalidHandle
            &&& readable && is_usable(address) && open && !bound ==> request is Err
                && request->Err_0.reason == Reason::NotBound
        }),
{
    law_send_is_refused_iff(registry@, handle, address);
    if let Some(bytes) = msg {
        law_text_is_read_iff_utf8(bytes);
    }
    if request is Ok && is_usable(address) {
        law_send_request(request->Ok_0, registry@, handle, msg->0@, port, address);
    }
}

/// A call that sends a buffer is refused for a buffer that is absent, then like one that sends a
/// text. In every other case it sends every byte of the buffer, whatever the bytes are.
pub proof fn law_send_buffer(
    registry: &Registry,
    handle: i64,
    buffer: Option<&[u8]>,
    port: u16,
    address: Option<&[u8]>,
    request: Result<SendRequest, Rejection>,
)
    requires
        call_ensures(js_dgram_send_buffer, (registry, handle, buffer, port, address), request),
    ensures
        ({
            let open = registry@.sockets.contains_key(handle);
            let bound = open && registry@.sockets[handle].socket is Some;
            &&& buffer is Some && is_usable(address) && bound ==> {
                &&& request is Ok
                &&& carries(
                    request->Ok_0,
                    registry@.sockets[handle].socket,
                    buffer->0@,
                    port,
                    address->0,
                )
            }
            &&& request is Err ==> request->Err_0.operation == Operation::SendBuffer
            &&& buffer is None ==> request is Err && request->Err_0.reason == Reason::InvalidBuffer
            &&& buffer is Some && !is_usable(address) ==> request is Err && request->Err_0.reason
                == Reason::InvalidAddress
            &&& buffer is Some && is_usable(address) && !open ==> request is Err
                && request->Err_0.reason == Reason::InvalidHandle
            &&& buffer is Some && is_usable(address) && open && !bound ==> request is Err
                && request->Err_0.reason == Reason::NotBound
        }),
{
    law_send_is_refused_iff(registry@, handle, address);
    if request is Ok && is_usable(address) {
        law_send_request(request->Ok_0, registry@, handle, buffer->0@, port, address);
    }
}

/// A send that ended well answers with the number of bytes that the system wrote; else with what the
/// system reported.
pub proof fn law_finish_send(
    operation: Operation,
    outcome: Result<usize, String>,
    settled: Result<Value, Rejection>,
)
    requires
        call_ensures(finish_send, (operation, outcome), settled),
    ensures
        outcome matches Ok(written) ==> (settled matches Ok(Value::Number(n)) && n == written),
        outcome matches Err(text) ==> settled == Err::<Value, Rejection>(
            (Rejection { operation, reason: Reason::System(text) }),
        ),
{
}

/// A call that starts a receive is refused on a handle that is not open or not bound. On every other
/// it hands out that socket's own system socket, lock and signal, and a buffer of the size asked for,
/// but of at least 1 and at most 65536 bytes.
pub proof fn law_recv(
    registry: &Registry,
    handle: i64,
    max_bytes: usize,
    request: Result<RecvRequest, Rejection>,
)
    requires
        call_ensures(js_dgram_recv, (registry, handle, max_bytes), request),
    ensures
        !registry@.sockets.contains_key(handle) ==> request == Err::<RecvRequest, Rejection>(
            (Rejection { operation: Operation::Recv, reason: Reason::InvalidHandle }),
        ),
        registry@.sockets.contains_key(handle) && registry@.sockets[handle].socket is None
            ==> request == Err::<RecvRequest, Rejection>(
            (Rejection { operation: Operation::Recv, reason: Reason::NotBound }),
        ),
        registry@.sockets.contains_key(handle) && registry@.sockets[handle].socket is Some ==> {
            &&& request is Ok
            &&& Some(request->Ok_0.socket) == registry@.sockets[handle].socket
            &&& request->Ok_0.recv_lock == registry@.sockets[handle].recv_lock
            &&& request->Ok_0.closing == registry@.sockets[handle].closing
            &&& max_bytes == 0 ==> request->Ok_0.capacity == 1
            &&& 1 <= max_bytes <= 65_536 ==> request->Ok_0.capacity == max_bytes
            &&& max_bytes > 65_536 ==> request->Ok_0.capacity == 65_536
        },
{
    law_receive_is_refused_iff(registry@, handle);
}

/// The size of a receive buffer, as a call computes it.
pub proof fn law_recv_capacity(max_bytes: usize, capacity: usize)
    requires
        call_ensures(recv_capacity, (max_bytes,), capacity),
    ensures
        max_bytes == 0 ==> capacity == 1,
        1 <= max_bytes <= 65_536 ==> capacity == max_bytes,
        max_bytes > 65_536 ==> capacity == 65_536,
{
}

/// Whether `message` hands over the first `filled` bytes of the buffer, every one of them and no
/// other, with the address, the family and the port of the sender and the size `filled`.
pub open spec fn hands_over(message: Value, received: Received) -> bool {
    &&& message matches Value::Object(fields)
    &&& fields@.len() == 2
    &&& fields@[0].name@ == "msg"@
    &&& fields@[0].value matches Value::Bytes(bytes)
    &&& bytes@.len() == received.filled
    &&& forall|i: int| 0 <= i < received.filled ==> #[trigger] bytes@[i] == received.buffer@[i]
    &&& fields@[1].name@ == "rinfo"@
    &&& fields@[1].value matches Value::Object(info)
    &&& info@.len() == 4
    &&& info@[0].name@ == "address"@
    &&& info@[1].name@ == "family"@
    &&& info@[2].name@ == "port"@
    &&& info@[3].name@ == "size"@
    &&& info@[3].value == Value::Number(received.filled as u64)
    &&& match received.from {
        SocketAddress::V4 { ip, port } => {
            &&& holds_text(info@[0].value, dotted(ip))
            &&& holds_text(info@[1].value, "IPv4"@)
            &&& info@[2].value == Value::Number(port as u64)
        },
        SocketAddress::V6 { ip, port } => {
            &&& holds_text(info@[0].value, ipv6_text_of(ip))
            &&& holds_text(info@[1].value, "IPv6"@)
            &&& info@[2].value == Value::Number(port as u64)
        },
    }
}

/// A receive that ends on an open socket hands the datagram over whole, or says what the system
/// reported; one that ends on a closed socket is rejected as closed, whatever came in.
pub proof fn law_finish_recv(
    registry: &Registry,
    handle: i64,
    outcome: Result<Received, String>,
    settled: Result<Value, Rejection>,
)
    requires
        outcome matches Ok(received) ==> received.filled <= received.buffer@.len(),
        call_ensures(finish_recv, (registry, handle, outcome), settled),
    ensures
        !registry@.sockets.contains_key(handle) ==> settled == Err::<Value, Rejection>(
            (Rejection { operation: Operation::Recv, reason: Reason::Closed }),
        ),
        registry@.sockets.contains_key(handle) ==> {
            &&& outcome matches Ok(received) ==> settled is Ok && hands_over(
                settled->Ok_0,
                received,
            )
            &&& outcome matches Err(text) ==> settled == Err::<Value, Rejection>(
                (Rejection { operation: Operation::Recv, reason: Reason::System(text) }),
            )
        },
{
    if registry@.sockets.contains_key(handle) && outcome is Ok {
        law_received_datagram_is_handed_over_whole(settled, registry@, handle, outcome->Ok_0);
    }
}

/// A waiting receive that is told of an event on an open socket ends with the whole datagram or with
/// what the system reported, and goes on waiting when it was only woken; once the socket is closed it
/// is rejected, whatever it is told of.
pub proof fn law_advance_recv(
    registry: &Registry,
    handle: i64,
    event: RecvEvent,
    progress: RecvProgress,
)
    requires
        event matches RecvEvent::Arrived(received) ==> received.filled <= received.buffer@.len(),
        call_ensures(advance_recv, (registry, handle, event), progress),
    ensures
        !registry@.sockets.contains_key(handle) ==> progress == RecvProgress::Settled(
            Err((Rejection { operation: Operation::Recv, reason: Reason::Closed })),
        ),
        registry@.sockets.contains_key(handle) ==> match event {
            RecvEvent::Arrived(received) => {
                &&& progress matches RecvProgress::Settled(settled)
                &&& settled is Ok
                &&& hands_over(settled->Ok_0, received)
            },
            RecvEvent::Failed(text) => progress == RecvProgress::Settled(
                Err((Rejection { operation: Operation::Recv, reason: Reason::System(text) })),
            ),
            RecvEvent::Woken => progress == RecvProgress::KeepWaiting,
        },
{
    if registry@.sockets.contains_key(handle) {
        if let RecvEvent::Arrived(received) = event {
            law_received_datagram_is_handed_over_whole(
                progress->Settled_0,
                registry@,
                handle,
                received,
            );
        }
    }
}

/// A message is delivered as it is; where no buffer could be had for it, the receive is rejected.
pub proof fn law_delivered<T>(message: Option<T>, settled: Result<T, Rejection>)
    requires
        call_ensures(delivered::<T>, (message,), settled),
    ensures
        message matches Some(m) ==> settled == Ok::<T, Rejection>(m),
        message is None ==> settled == Err::<T, Rejection>(
            (Rejection { operation: Operation::Recv, reason: Reason::BufferAllocationFailed }),
        ),
{
}

/// A close removes the entry of its handle and no other, answers with nothing, and gives the signal
/// of the socket that it closed, if there was one.
pub proof fn law_close(registry: &mut Registry, handle: i64, closing: Closing, other: i64)
    requires
        call_ensures(js_dgram_close, (registry, handle), closing),
    ensures
        closing.answer == Value::Undefined,
        old(registry)@.sockets.contains_key(handle) ==> closing.wake == Some(
            old(registry)@.sockets[handle].closing,
        ),
        !old(registry)@.sockets.contains_key(handle) ==> closing.wake is None,
        !final(registry)@.sockets.contains_key(handle),
        final(registry)@.next_id == old(registry)@.next_id,
        other != handle ==> {
            &&& final(registry)@.sockets.contains_key(other)
                <==> old(registry)@.sockets.contains_key(other)
            &&& old(registry)@.sockets.contains_key(other) ==> final(registry)@.sockets[other]
                == old(registry)@.sockets[other]
        },
{
}

/// The local address is asked of the socket that is bound; there is none to ask, and the answer is
/// null, exactly when the handle is not open or not bound.
pub proof fn law_address(registry: &Registry, handle: i64, step: Step<Arc<UdpSocket>, Value>)
    requires
        call_ensures(js_dgram_address, (registry, handle), step),
    ensures
        registry@.sockets.contains_key(handle) && registry@.sockets[handle].socket is Some
            ==> step == Step::<Arc<UdpSocket>, Value>::Perform(
            registry@.sockets[handle].socket->0,
        ),
        !registry@.sockets.contains_key(handle) || registry@.sockets[handle].socket is None
            ==> step == Step::<Arc<UdpSocket>, Value>::Done(Value::Null),
{
}

/// A local address is reported field by field; where the system had none the answer is null.
pub proof fn law_finish_address(local: Option<SocketAddress>, value: Value)
    requires
        call_ensures(finish_address, (local,), value),
    ensures
        local is None ==> value == Value::Null,
        local is Some ==> {
            &&& value matches Value::Object(fields)
            &&& fields@.len() == 3
            &&& fields@[0].name@ == "address"@
            &&& fields@[1].name@ == "family"@
            &&& fields@[2].name@ == "port"@
            &&& match local->0 {
                SocketAddress::V4 { ip, port } => {
                    &&& holds_text(fields@[0].value, dotted(ip))
                    &&& holds_text(fields@[1].value, "IPv4"@)
                    &&& fields@[2].value == Value::Number(port as u64)
                },
                SocketAddress::V6 { ip, port } => {
                    &&& holds_text(fields@[0].value, ipv6_text_of(ip))
                    &&& holds_text(fields@[1].value, "IPv6"@)
                    &&& fields@[2].value == Value::Number(port as u64)
                },
            }
        },
{
    if let Some(address) = local {
        law_reported_address(value, address);
    }
}

/// Success is answered with 1 and failure with 0.
pub proof fn law_status(succeeded: bool, answer: i64)
    requires
        call_ensures(status, (succeeded,), answer),
    ensures
        succeeded ==> answer == 1,
        !succeeded ==> answer == 0,
{
}

/// The broadcast option is set as asked on the socket that is bound; the answer is 0 at once exactly
/// when the handle is not open or not bound.
pub proof fn law_set_broadcast(
    registry: &Registry,
    handle: i64,
    flag: bool,
    step: Step<BroadcastRequest, i64>,
)
    requires
        call_ensures(js_dgram_set_broadcast, (registry, handle, flag), step),
    ensures
        registry@.sockets.contains_key(handle) && registry@.sockets[handle].socket is Some
            ==> step == Step::<BroadcastRequest, i64>::Perform(
            (BroadcastRequest { socket: registry@.sockets[handle].socket->0, enabled: flag }),
        ),
        !registry@.sockets.contains_key(handle) || registry@.sockets[handle].socket is None
            ==> step == Step::<BroadcastRequest, i64>::Done(0i64),
{
}

/// Whether a call was made that joins a group, where `join` says so, or that leaves one, and `step`
/// is what it handed back.
pub open spec fn membership_called(
    registry: &Registry,
    handle: i64,
    multi: Option<&[u8]>,
    iface: Option<&[u8]>,
    join: bool,
    step: Step<MembershipRequest, i64>,
) -> bool {
    if join {
        call_ensures(js_dgram_add_membership, (registry, handle, multi, iface), step)
    } else {
        call_ensures(js_dgram_drop_membership, (registry, handle, multi, iface), step)
    }
}

/// On a bound IPv4 socket every IPv4 group is joined or left as asked, whichever address it is: on
/// the interface whose address is given, or on one that the system picks where none is.
pub proof fn law_ipv4_membership(
    registry: &Registry,
    handle: i64,
    multi: &[u8],
    iface: Option<&[u8]>,
    group: u32,
    interface: u32,
    join: bool,
    step: Step<MembershipRequest, i64>,
)
    requires
        membership_called(registry, handle, Some(multi), iface, join, step),
        registry@.sockets.contains_key(handle),
        registry@.sockets[handle].socket is Some,
        !registry@.sockets[handle].ipv6,
        multi@ == encode_utf8(dotted(group)),
        !is_usable(iface) ==> interface == 0,
        is_usable(iface) ==> iface->0@ == encode_utf8(dotted(interface)),
    ensures
        step == Step::<MembershipRequest, i64>::Perform(
            MembershipRequest::V4(
                (V4Membership {
                    socket: registry@.sockets[handle].socket->0,
                    group,
                    interface,
                    join,
                }),
            ),
        ),
{
    law_every_ipv4_group_is_requested(registry@, handle, multi, iface, group, interface, join);
}

/// On a bound IPv6 socket every IPv6 group is joined or left as asked: on the interface whose number
/// is given, or on one that the system picks where none is given or what is given is no number.
pub proof fn law_ipv6_membership(
    registry: &Registry,
    handle: i64,
    multi: &[u8],
    text: Seq<char>,
    iface: Option<&[u8]>,
    index: u32,
    join: bool,
    step: Step<MembershipRequest, i64>,
)
    requires
        membership_called(registry, handle, Some(multi), iface, join, step),
        registry@.sockets.contains_key(handle),
        registry@.sockets[handle].socket is Some,
        registry@.sockets[handle].ipv6,
        multi@ == encode_utf8(text),
        text.len() > 0,
        !is_usable(iface) ==> index == 0,
        is_usable(iface) ==> iface->0@ == encode_utf8(decimal(index as nat)) || {
            &&& u32_of_text(decode_utf8(iface->0@)) is None
            &&& index == 0
        },
    ensures
        ipv6_of_text(text) matches Some(group) ==> step == Step::<MembershipRequest, i64>::Perform(
            MembershipRequest::V6(
                (V6Membership {
                    socket: registry@.sockets[handle].socket->0,
                    group,
                    interface_index: index,
                    join,
                }),
            ),
        ),
        ipv6_of_text(text) is None ==> step == Step::<MembershipRequest, i64>::Done(0i64),
{
    law_every_text_is_read(multi, text);
    law_text_is_read_iff_utf8(multi);
    encode_utf8_decode_utf8(decimal(index as nat));
    law_interface_index_reads_back(index);
    if let Some(group) = ipv6_of_text(text) {
        law_every_ipv6_group_is_requested(
            registry@,
            handle,
            multi,
            text,
            iface,
            group,
            index,
            join,
        );
    }
}

/// Joining or leaving a group is answered at once only with 0, and only for a reason: the handle is
/// not open or not bound; the group is absent, empty, not UTF-8 or no address of the family; or, for
/// IPv4, the interface is a text that is no address. For each of these reasons it is.
pub proof fn law_membership_refusals(
    registry: &Registry,
    handle: i64,
    multi: Option<&[u8]>,
    iface: Option<&[u8]>,
    join: bool,
    step: Step<MembershipRequest, i64>,
)
    requires
        membership_called(registry, handle, multi, iface, join, step),
    ensures
        step is Done ==> step == Step::<MembershipRequest, i64>::Done(0i64),
        step is Done <==> {
            ||| !registry@.sockets.contains_key(handle)
            ||| registry@.sockets[handle].socket is None
            ||| !is_usable(multi)
            ||| registry@.sockets[handle].ipv6 && ipv6_of_text(decode_utf8(multi->0@)) is None
            ||| !registry@.sockets[handle].ipv6 && forall|ip: u32|
                decode_utf8(multi->0@) != #[trigger] dotted(ip)
            ||| !registry@.sockets[handle].ipv6 && is_usable(iface) && forall|ip: u32|
                decode_utf8(iface->0@) != #[trigger] dotted(ip)
        },
{
    law_membership_is_refused_only_if(registry@, handle, multi, iface, join);
}

/// The message of a rejection, as a call writes it.
pub proof fn law_message(rejection: &Rejection, text: String)
    requires
        call_ensures(Rejection::message, (rejection,), text),
    ensures
        text@ == "dgram "@ + (match rejection.operation {
            Operation::Bind => "bind"@,
            Operation::Send => "send"@,
            Operation::SendBuffer => "sendBuffer"@,
            Operation::Recv => "recv"@,
        }) + ": "@ + (match rejection.reason {
            Reason::InvalidHandle => "invalid socket handle"@,
            Reason::AlreadyBound => "socket already bound"@,
            Reason::NotBound => "socket not bound"@,
            Reason::VanishedMidBind => "socket vanished mid-bind"@,
            Reason::Closed => "socket closed"@,
            Reason::InvalidMessage => "invalid msg"@,
            Reason::InvalidBuffer => "invalid buffer"@,
            Reason::InvalidAddress => "invalid address"@,
            Reason::BufferAllocationFailed => "buffer allocation failed"@,
            Reason::System(text) => text@,
        }),
{
    law_messages(*rejection);
}

/// A text argument is decoded exactly when it is there and is UTF-8, whatever its length, and its
/// encoding is the bytes that came in.
pub proof fn law_read_str(raw: Option<&[u8]>, text: Option<String>)
    requires
        call_ensures(read_str, (raw,), text),
    ensures
        text is Some <==> (raw matches Some(bytes) && valid_utf8(bytes@)),
        text matches Some(t) ==> encode_utf8(t@) == raw->0@,
{
    if let Some(bytes) = raw {
        law_text_is_read_iff_utf8(bytes);
    }
}

/// Addresses below 4096, and no others, stand for an absent argument.
pub proof fn law_null_addresses(address: usize, null: bool)
    requires
        call_ensures(is_null_address, (address,), null),
    ensures
        null <==> address < 4096,
{
}

/// An IPv4 address is written as its four octets in decimal with dots between them, and is read back
/// from what was written; nothing else is read as it.
pub proof fn law_ipv4_round_trip(
    ip: u32,
    written: String,
    text: &str,
    read: Option<u32>,
    a: u8,
    b: u8,
    c: u8,
    d: u8,
)
    requires
        call_ensures(dotted_text, (ip,), written),
        call_ensures(parse_ipv4, (text,), read),
        ip == a * 0x100_0000 + b * 0x1_0000 + c * 0x100 + d,
    ensures
        written@ == decimal(a as nat) + seq!['.'] + decimal(b as nat) + seq!['.'] + decimal(
            c as nat,
        ) + seq!['.'] + decimal(d as nat),
        read == Some(ip) <==> text@ == written@,
{
    law_dotted_spells_the_octets(a, b, c, d, ip);
    law_ipv4_reads_dotted_texts_only(text@, ip);
}

/// Every 32-bit number is read back from its numeral, with or without a plus sign in front; one more
/// digit makes ten times the number and that digit, as long as that is a 32-bit number; and a text
/// with any other character is no number.
pub proof fn law_number_is_read(
    number: u32,
    text: &str,
    read: Option<u32>,
    shorter: &str,
    prior: Option<u32>,
)
    requires
        call_ensures(parse_u32, (text,), read),
        call_ensures(parse_u32, (shorter,), prior),
    ensures
        text@ == decimal(number as nat) ==> read == Some(number),
        text@ == seq!['+'] + decimal(number as nat) ==> read == Some(number),
        text@.len() > 0 && text@.drop_last() == shorter@ && '0' <= text@.last() <= '9' ==> {
            let digit = text@.last() as int - 48;
            &&& prior matches Some(v) ==> read == (if v * 10 + digit <= 0xffff_ffff {
                Some((v * 10 + digit) as u32)
            } else {
                None::<u32>
            })
            &&& shorter@.len() == 0 || shorter@ == seq!['+'] ==> read == Some(digit as u32)
            &&& prior is None && shorter@.len() > 0 && shorter@ != seq!['+'] ==> read is None
        },
        read is Some ==> {
            &&& text@.len() > 0
            &&& '0' <= text@.last() <= '9'
            &&& forall|i: int|
                0 <= i < text@.len() ==> '0' <= #[trigger] text@[i] <= '9' || (i == 0 && text@[i]
                    == '+')
        },
{
    law_u32_texts(text@);
    law_interface_index_reads_back(number);
    law_u32_texts(decimal(number as nat));
    lemma_decimal_reads_back(number as nat);
    assert(is_digit(decimal(number as nat)[0]));
    if text@.len() > 0 && '0' <= text@.last() <= '9' {
        let c = text@.last();
        law_u32_grows_by_digits(text@.drop_last(), c);
        assert(text@ =~= text@.drop_last().push(c));
        law_u32_texts(seq![c]);
        if text@.drop_last().len() == 0 {
            assert(text@ =~= seq![c]);
        }
        if text@.drop_last() == seq!['+'] {
            assert(text@ =~= seq!['+'] + seq![c]);
        }
    }
}

/// The endpoints that a socket is bound to and that a datagram is sent to, as calls write them.
pub proof fn law_endpoint_texts(
    ipv6: bool,
    address: &str,
    port: u16,
    bound: String,
    sent: String,
)
    requires
        call_ensures(bind_target, (ipv6, address, port), bound),
        call_ensures(send_target, (address, port), sent),
    ensures
        ({
            let host = address@;
            let plain = host + seq![':'] + decimal(port as nat);
            let bracketed = seq!['['] + host + seq![']', ':'] + decimal(port as nat);
            let bare = host.contains(':') && host[0] != '[';
            &&& sent@ == if bare {
                bracketed
            } else {
                plain
            }
            &&& host.len() > 0 ==> bound@ == if ipv6 && bare {
                bracketed
            } else {
                plain
            }
            &&& host.len() == 0 ==> bound@ == (if ipv6 {
                seq!['['] + "::"@ + seq![']', ':']
            } else {
                "0.0.0.0"@ + seq![':']
            }) + decimal(port as nat)
        }),
{
    law_send_endpoint(address@, port);
    law_ipv4_bind_endpoint(address@, port, 0);
    law_ipv6_bind_endpoint(address@, port);
    if address@.len() == 0 {
        assert(address@ =~= Seq::<char>::empty());
    }
}

/// The parts of an address, as a call hands them out; and a datagram sent to the text and the port
/// goes to this address and to no other.
pub proof fn law_address_parts(
    address: SocketAddress,
    parts: (String, &'static str, u16),
    host: &str,
    destination: String,
    other: SocketAddress,
)
    requires
        call_ensures(SocketAddress::into_parts, (address,), parts),
        host@ == parts.0@,
        call_ensures(send_target, (host, parts.2), destination),
    ensures
        match address {
            SocketAddress::V4 { ip, port } => {
                &&& parts.0@ == dotted(ip)
                &&& parts.1@ == "IPv4"@
                &&& parts.2 == port
            },
            SocketAddress::V6 { ip, port } => {
                &&& parts.0@ == ipv6_text_of(ip)
                &&& parts.1@ == "IPv6"@
                &&& parts.2 == port
            },
        },
        reaches(destination@, address),
        reaches(destination@, other) ==> other == address,
{
    law_endpoint_reaches_one_address(destination@, address, other);
}

/// What the table answers when it is asked: the state of an open socket as it stands, and nothing of
/// any other; the system socket of a bound one; and a free handle as long as the counter is not at
/// its end.
pub proof fn law_table_answers(
    registry: &Registry,
    handle: i64,
    state: Option<&SocketState>,
    socket: Option<Arc<UdpSocket>>,
    free: bool,
)
    requires
        call_ensures(Registry::get, (registry, handle), state),
        call_ensures(Registry::bound_socket, (registry, handle), socket),
        call_ensures(Registry::has_free_handle, (registry,), free),
    ensures
        state is Some <==> registry@.sockets.contains_key(handle),
        state is Some ==> *state->0 == registry@.sockets[handle],
        state is Some ==> socket == state->0.socket,
        state is None ==> socket is None,
        free <==> registry@.next_id < 0x7fff_ffff_ffff_ffff,
{
}

/// A new table holds no socket, and its first handle is 1.
pub proof fn law_new_table(registry: Registry, handle: i64)
    requires
        call_ensures(Registry::new, (), registry),
    ensures
        !registry@.sockets.contains_key(handle),
        registry@.next_id == 1,
{
}

/// Only the null value is null.
pub proof fn law_is_null(value: &Value, null: bool)
    requires
        call_ensures(Value::is_null, (value,), null),
    ensures
        null <==> *value == Value::Null,
{
}

/// The address of an IPv4 socket reads back what its bind was asked for, told of the address asked
/// for: the bytes that spell `ip`, or none, which asks for `0.0.0.0`. The endpoint that the bind hands
/// to the system reaches that address; and if the system grants it, the value read afterwards holds
/// its text, the family and the port: the one asked for, or where port 0 was asked for the one that
/// the system chose.
pub proof fn law_ipv4_bind_is_read_back(
    registry: &Registry,
    handle: i64,
    port: u16,
    address: Option<&[u8]>,
    target: Result<String, Rejection>,
    ip: u32,
    local_port: u16,
    value: Value,
)
    requires
        registry@.sockets.contains_key(handle),
        registry@.sockets[handle].socket is None,
        !registry@.sockets[handle].ipv6,
        is_usable(address) ==> address->0@ == encode_utf8(dotted(ip)),
        !is_usable(address) ==> ip == 0,
        call_ensures(js_dgram_bind, (registry, handle, port, address), target),
        port != 0 ==> local_port == port,
        call_ensures(finish_address, (Some(SocketAddress::V4 { ip, port: local_port }),), value),
    ensures
        target is Ok,
        reaches(target->Ok_0@, (SocketAddress::V4 { ip, port })),
        value matches Value::Object(fields) && {
            &&& fields@.len() == 3
            &&& holds_text(fields@[0].value, dotted(ip))
            &&& !is_usable(address) ==> holds_text(fields@[0].value, "0.0.0.0"@)
            &&& holds_text(fields@[1].value, "IPv4"@)
            &&& fields@[2].value == Value::Number(local_port as u64)
            &&& port != 0 ==> fields@[2].value == Value::Number(port as u64)
        },
{
    law_bind(registry, handle, port, address, target);
    law_finish_address(Some(SocketAddress::V4 { ip, port: local_port }), value);
    law_ipv4_bind_endpoint(dotted(ip), port, ip);
    lemma_dotted_has_no_colon(ip);
    encode_utf8_decode_utf8(dotted(ip));
    law_ipv4_wildcard_is_unspecified();
}

/// The address of an IPv6 socket reads back what its bind was asked for, told of the address asked
/// for: bytes that spell a text that is read as `ip` and stands in no brackets.
pub proof fn law_ipv6_bind_is_read_back(
    registry: &Registry,
    handle: i64,
    port: u16,
    address: &[u8],
    host: Seq<char>,
    target: Result<String, Rejection>,
    ip: u128,
    local_port: u16,
    value: Value,
)
    requires
        registry@.sockets.contains_key(handle),
        registry@.sockets[handle].socket is None,
        registry@.sockets[handle].ipv6,
        address@ == encode_utf8(host),
        host.contains(':'),
        host[0] != '[',
        call_ensures(js_dgram_bind, (registry, handle, port, Some(address)), target),
        port != 0 ==> local_port == port,
        call_ensures(finish_address, (Some(SocketAddress::V6 { ip, port: local_port }),), value),
    ensures
        target is Ok,
        ipv6_of_text(host) == Some(ip) ==> reaches(
            target->Ok_0@,
            (SocketAddress::V6 { ip, port }),
        ),
        value matches Value::Object(fields) && {
            &&& fields@.len() == 3
            &&& holds_text(fields@[0].value, ipv6_text_of(ip))
            &&& holds_text(fields@[1].value, "IPv6"@)
            &&& fields@[2].value == Value::Number(local_port as u64)
            &&& port != 0 ==> fields@[2].value == Value::Number(port as u64)
        },
{
    law_bind(registry, handle, port, Some(address), target);
    law_finish_address(Some(SocketAddress::V6 { ip, port: local_port }), value);
    law_every_text_is_read(address, host);
    law_text_is_read_iff_utf8(address);
    encode_utf8_decode_utf8(host);
    law_endpoints_of_an_address(Seq::empty(), host, 0, ip, port);
}

/// The echo exchange: when the bytes of a received message are sent back, to the address and port
/// that came with it, all the bytes that were received go out, and they go to the sender and to no
/// one else.
pub proof fn law_echo(
    receiver: &Registry,
    receiving: i64,
    received: Received,
    message: Value,
    sender: &Registry,
    sending: i64,
    payload: &[u8],
    port: u16,
    address: &[u8],
    reply: SendRequest,
    other: SocketAddress,
)
    requires
        receiver@.sockets.contains_key(receiving),
        received.filled <= received.buffer@.len(),
        call_ensures(
            finish_recv,
            (receiver, receiving, Ok::<Received, String>(received)),
            Ok::<Value, Rejection>(message),
        ),
        message->Object_0@[0].value->Bytes_0@ == payload@,
        address@ == encode_utf8(message->Object_0@[1].value->Object_0@[0].value->Text_0@),
        message->Object_0@[1].value->Object_0@[2].value == Value::Number(port as u64),
        call_ensures(
            js_dgram_send_buffer,
            (sender, sending, Some(payload), port, Some(address)),
            Ok::<SendRequest, Rejection>(reply),
        ),
    ensures
        reply.payload@.len() == received.filled,
        forall|i: int|
            0 <= i < received.filled ==> #[trigger] reply.payload@[i] == received.buffer@[i],
        reaches(reply.destination@, received.from),
        reaches(reply.destination@, other) ==> other == received.from,
{
    let text = message->Object_0@[1].value->Object_0@[0].value->Text_0@;
    law_finish_recv(receiver, receiving, Ok(received), Ok(message));
    law_every_text_is_read(address, text);
    law_endpoint_reaches_one_address(reply.destination@, received.from, other);
}

} // verus!
