//! What each operation does, told of its arguments and its result: of the bytes that come in, of the
//! table of sockets, and of the values that go out.
use crate::address::{bind_endpoint, SocketAddress};
use crate::error::{Operation, Reason, Rejection};
use crate::ipv4::{dotted, lemma_dotted_has_no_colon};
use crate::ipv6::{ipv6_of_text, ipv6_text_of};
use crate::laws::law_interface_index_reads_back;
use crate::notation_laws::{
    law_every_text_is_read, law_ipv4_bind_endpoint, law_ipv4_reads_dotted_texts_only,
    law_ipv6_bind_endpoint, law_send_endpoint, law_text_is_read_iff_utf8, law_u32_texts,
};
use crate::operations::{
    asks_ipv6, bind_refusal, clamped_capacity, interface_index, late_bind_refusal, membership_step,
    receive_advances, receive_ends, recv_refusal, send_refusal, sends, v4_step, v6_step,
    MembershipRequest, Received, RecvEvent, RecvProgress, SendRequest, Step, V4Membership,
    V6Membership,
};
use crate::registry::RegistryView;
use crate::text::{decimal, text_of, text_or_empty, u32_of_text};
use crate::value::Value;
use std::sync::Arc;
use tokio::net::UdpSocket;
use tokio::sync::{Mutex, Notify};
use vstd::prelude::*;
use vstd::utf8::{
    decode_utf8, encode_utf8, encode_utf8_decode_utf8, is_ascii_chars, is_ascii_chars_encode_utf8,
    valid_utf8,
};

verus! {

/// Whether an argument is there, is UTF-8 and is not empty.
pub open spec fn is_usable(raw: Option<&[u8]>) -> bool {
    raw matches Some(bytes) && valid_utf8(bytes@) && bytes@.len() > 0
}

/// Only the four bytes `udp6` ask for an IPv6 socket.
pub proof fn law_udp6_alone_asks_for_ipv6(kind: Option<&[u8]>)
    ensures
        asks_ipv6(kind) <==> (kind matches Some(bytes) && bytes@ == seq![117u8, 100u8, 112u8, 54u8]),
{
    reveal_strlit("udp6");
    let name = "udp6"@;
    assert(is_ascii_chars(name));
    is_ascii_chars_encode_utf8(name);
    let code = encode_utf8(name);
    assert(name[0] as u8 == 117 && name[1] as u8 == 100 && name[2] as u8 == 112 && name[3] as u8
        == 54);
    assert(code =~= seq![117u8, 100u8, 112u8, 54u8]);
    if let Some(bytes) = kind {
        law_text_is_read_iff_utf8(bytes);
        if bytes@ == code {
            law_every_text_is_read(bytes, name);
        }
    }
}

/// The table that a program starts with holds no socket, and the first handle is 1.
pub proof fn law_initial_table(handle: i64)
    ensures
        !RegistryView::initial().sockets.contains_key(handle),
        RegistryView::initial().next_id == 1,
        RegistryView::initial().well_formed(),
{
}

/// What the table says of a handle: it is open exactly when it is in the table, bound exactly when
/// it has a system socket there, and that socket is the one in use.
pub proof fn law_table_lookups(registry: RegistryView, handle: i64)
    ensures
        registry.is_open(handle) <==> registry.sockets.contains_key(handle),
        registry.is_unbound(handle) <==> registry.sockets.contains_key(handle)
            && registry.sockets[handle].socket is None,
        registry.sockets.contains_key(handle) ==> registry.bound_socket(handle)
            == registry.sockets[handle].socket,
        !registry.sockets.contains_key(handle) ==> registry.bound_socket(handle) is None,
{
}

/// What holds of every table that is well formed.
pub proof fn law_well_formed_table(registry: RegistryView, handle: i64, other: i64)
    requires
        registry.well_formed(),
        registry.sockets.contains_key(handle),
        registry.sockets.contains_key(other),
    ensures
        1 <= handle < registry.next_id,
        handle != other ==> registry.sockets[handle].recv_lock != registry.sockets[other].recv_lock,
        handle != other ==> registry.sockets[handle].closing != registry.sockets[other].closing,
{
}

/// A fresh lock and signal are those of no socket in the table.
pub proof fn law_fresh_means_unused(
    registry: RegistryView,
    recv_lock: Arc<Mutex<()>>,
    closing: Arc<Notify>,
    handle: i64,
)
    requires
        registry.is_fresh(recv_lock, closing),
        registry.sockets.contains_key(handle),
    ensures
        registry.sockets[handle].recv_lock != recv_lock,
        registry.sockets[handle].closing != closing,
{
}

/// Creating a socket adds one entry, under the next handle, unbound and of the family asked for; it
/// moves the counter on by one, and leaves every other entry as it is.
pub proof fn law_create_adds_one_entry(
    registry: RegistryView,
    ipv6: bool,
    recv_lock: Arc<Mutex<()>>,
    closing: Arc<Notify>,
    other: i64,
)
    requires
        registry.next_id < i64::MAX,
    ensures
        ({
            let after = registry.opened(ipv6, recv_lock, closing);
            let handle = registry.next_id;
            &&& after.next_id == handle + 1
            &&& after.sockets.contains_key(handle)
            &&& after.sockets[handle].socket is None
            &&& after.sockets[handle].ipv6 == ipv6
            &&& after.sockets[handle].recv_lock == recv_lock
            &&& after.sockets[handle].closing == closing
            &&& other != handle ==> (after.sockets.contains_key(other)
                <==> registry.sockets.contains_key(other))
            &&& other != handle && registry.sockets.contains_key(other) ==> after.sockets[other]
                == registry.sockets[other]
        }),
{
}

/// A bind that succeeds gives an unbound entry the system socket and changes nothing else; where the
/// entry is missing or bound, nothing changes at all.
pub proof fn law_bind_fills_one_entry(
    registry: RegistryView,
    handle: i64,
    socket: Arc<UdpSocket>,
    other: i64,
)
    ensures
        ({
            let after = registry.attached(handle, socket);
            let open = registry.sockets.contains_key(handle);
            let unbound = open && registry.sockets[handle].socket is None;
            &&& after.next_id == registry.next_id
            &&& after.sockets.contains_key(other) <==> registry.sockets.contains_key(other)
            &&& unbound ==> after.sockets[handle].socket == Some(socket)
            &&& open ==> after.sockets[handle].ipv6 == registry.sockets[handle].ipv6
            &&& open ==> after.sockets[handle].recv_lock == registry.sockets[handle].recv_lock
            &&& open ==> after.sockets[handle].closing == registry.sockets[handle].closing
            &&& !unbound ==> after == registry
            &&& other != handle && registry.sockets.contains_key(other) ==> after.sockets[other]
                == registry.sockets[other]
        }),
{
}

/// Closing removes one entry and nothing else.
pub proof fn law_close_removes_one_entry(registry: RegistryView, handle: i64, other: i64)
    ensures
        ({
            let after = registry.closed(handle);
            &&& !after.sockets.contains_key(handle)
            &&& after.next_id == registry.next_id
            &&& other != handle ==> (after.sockets.contains_key(other)
                <==> registry.sockets.contains_key(other))
            &&& other != handle && registry.sockets.contains_key(other) ==> after.sockets[other]
                == registry.sockets[other]
        }),
{
}

/// When a bind is refused: before it starts, on a handle that is not in the table and on one that is
/// bound; when it ends, likewise, but a handle that has gone meanwhile has vanished. On every unbound
/// entry it goes ahead.
pub proof fn law_bind_is_refused_iff(registry: RegistryView, handle: i64)
    ensures
        !registry.sockets.contains_key(handle) ==> {
            &&& bind_refusal(registry, handle) == Some(Reason::InvalidHandle)
            &&& late_bind_refusal(registry, handle) == Some(Reason::VanishedMidBind)
        },
        registry.sockets.contains_key(handle) && registry.sockets[handle].socket is Some ==> {
            &&& bind_refusal(registry, handle) == Some(Reason::AlreadyBound)
            &&& late_bind_refusal(registry, handle) == Some(Reason::AlreadyBound)
        },
        registry.sockets.contains_key(handle) && registry.sockets[handle].socket is None ==> {
            &&& bind_refusal(registry, handle) is None
            &&& late_bind_refusal(registry, handle) is None
        },
{
}

/// What a bind asks of the system, told of the bytes of its address argument: an argument that is
/// there, is UTF-8 and is not empty is the host that is bound to; any other stands for the wildcard
/// of the family.
pub proof fn law_bind_uses_the_address_asked_for(address: Option<&[u8]>, port: u16)
    ensures
        !is_usable(address) ==> {
            &&& bind_endpoint(false, text_or_empty(address), port) == "0.0.0.0"@ + seq![':']
                + decimal(port as nat)
            &&& bind_endpoint(true, text_or_empty(address), port) == seq!['['] + "::"@ + seq![
                ']',
                ':',
            ] + decimal(port as nat)
        },
        is_usable(address) ==> {
            let host = decode_utf8(address->0@);
            &&& host.len() > 0
            &&& encode_utf8(host) == address->0@
            &&& bind_endpoint(false, text_or_empty(address), port) == host + seq![':'] + decimal(
                port as nat,
            )
            &&& host[0] == '[' || !host.contains(':') ==> bind_endpoint(
                true,
                text_or_empty(address),
                port,
            ) == host + seq![':'] + decimal(port as nat)
            &&& host[0] != '[' && host.contains(':') ==> bind_endpoint(
                true,
                text_or_empty(address),
                port,
            ) == seq!['['] + host + seq![']', ':'] + decimal(port as nat)
        },
{
    lemma_argument(address);
    law_ipv4_bind_endpoint(text_or_empty(address), port, 0);
    law_ipv6_bind_endpoint(text_or_empty(address), port);
    if !is_usable(address) {
        assert(text_or_empty(address) =~= Seq::<char>::empty());
    }
}

proof fn lemma_argument(raw: Option<&[u8]>)
    ensures
        is_usable(raw) <==> text_or_empty(raw).len() > 0,
        is_usable(raw) ==> {
            &&& text_or_empty(raw) == decode_utf8(raw->0@)
            &&& encode_utf8(text_or_empty(raw)) == raw->0@
        },
{
    match raw {
        Some(bytes) => {
            law_text_is_read_iff_utf8(bytes);
            if valid_utf8(bytes@) {
                law_every_text_is_read(bytes, text_or_empty(raw));
                encode_utf8_decode_utf8(text_or_empty(raw));
            }
        },
        None => {
            let empty: Seq<char> = text_or_empty(raw);
            assert(empty =~= Seq::<char>::empty());
        },
    }
}

/// When a send is refused, in this order: with an address that is absent, empty or not UTF-8; on a
/// handle that is not in the table; on one that is not bound. In every other case it goes out.
pub proof fn law_send_is_refused_iff(registry: RegistryView, handle: i64, address: Option<&[u8]>)
    ensures
        !is_usable(address) ==> send_refusal(registry, handle, address) == Some(
            Reason::InvalidAddress,
        ),
        is_usable(address) && !registry.sockets.contains_key(handle) ==> send_refusal(
            registry,
            handle,
            address,
        ) == Some(Reason::InvalidHandle),
        is_usable(address) && registry.sockets.contains_key(handle)
            && registry.sockets[handle].socket is None ==> send_refusal(registry, handle, address)
            == Some(Reason::NotBound),
        is_usable(address) && registry.sockets.contains_key(handle)
            && registry.sockets[handle].socket is Some ==> send_refusal(registry, handle, address)
            is None,
{
    lemma_argument(address);
}

/// A text message is refused only if it is not UTF-8: on a bound socket, and with an address that is
/// UTF-8 and not empty, every UTF-8 message of any length goes out.
pub proof fn law_utf8_message_is_never_refused(
    registry: RegistryView,
    handle: i64,
    msg: &[u8],
    address: Option<&[u8]>,
)
    requires
        registry.sockets.contains_key(handle),
        registry.sockets[handle].socket is Some,
        is_usable(address),
    ensures
        text_of(Some(msg)) is Some <==> valid_utf8(msg@),
        send_refusal(registry, handle, address) is None,
{
    law_text_is_read_iff_utf8(msg);
    law_send_is_refused_iff(registry, handle, address);
}

/// What a send asks of the system: every byte of the payload, in order, through the socket of the
/// handle, to the host that the address argument spells and to the port.
pub proof fn law_send_request(
    request: SendRequest,
    registry: RegistryView,
    handle: i64,
    payload: Seq<u8>,
    port: u16,
    address: Option<&[u8]>,
)
    requires
        sends(request, registry, handle, payload, port, address),
        registry.sockets.contains_key(handle),
        is_usable(address),
    ensures
        registry.sockets[handle].socket == Some(request.socket),
        request.payload@.len() == payload.len(),
        forall|i: int|
            0 <= i < payload.len() ==> #[trigger] request.payload@[i] == payload[i],
        ({
            let host = decode_utf8(address->0@);
            &&& host.len() > 0
            &&& host[0] == '[' || !host.contains(':') ==> request.destination@ == host + seq![':']
                + decimal(port as nat)
            &&& host[0] != '[' && host.contains(':') ==> request.destination@ == seq!['['] + host
                + seq![']', ':'] + decimal(port as nat)
        }),
{
    lemma_argument(address);
    law_send_endpoint(text_or_empty(address), port);
}

/// The size of the receive buffer: what was asked for, but at least 1 and at most 65536 bytes.
pub proof fn law_receive_capacity(max_bytes: usize)
    ensures
        max_bytes == 0 ==> clamped_capacity(max_bytes) == 1,
        1 <= max_bytes <= 65_536 ==> clamped_capacity(max_bytes) == max_bytes,
        max_bytes > 65_536 ==> clamped_capacity(max_bytes) == 65_536,
{
}

/// When a receive is refused: on a handle that is not in the table, and on one that is not bound.
pub proof fn law_receive_is_refused_iff(registry: RegistryView, handle: i64)
    ensures
        !registry.sockets.contains_key(handle) ==> recv_refusal(registry, handle) == Some(
            Reason::InvalidHandle,
        ),
        registry.sockets.contains_key(handle) && registry.sockets[handle].socket is None
            ==> recv_refusal(registry, handle) == Some(Reason::NotBound),
        registry.sockets.contains_key(handle) && registry.sockets[handle].socket is Some
            ==> recv_refusal(registry, handle) is None,
{
}

/// Whether `value` is the text `text`.
pub open spec fn holds_text(value: Value, text: Seq<char>) -> bool {
    value matches Value::Text(t) && t@ == text
}

/// A datagram of `filled` bytes that arrives on an open socket is handed over whole: the message has
/// exactly that many bytes, each the one that arrived, and the sender's address, family and port and
/// the size `filled` are reported, field by field.
pub proof fn law_received_datagram_is_handed_over_whole(
    settled: Result<Value, Rejection>,
    registry: RegistryView,
    handle: i64,
    received: Received,
)
    requires
        receive_ends(settled, registry, handle, Ok(received)),
        registry.sockets.contains_key(handle),
        received.filled <= received.buffer@.len(),
    ensures
        settled matches Ok(Value::Object(fields)) && {
            &&& fields@.len() == 2
            &&& fields@[0].name@ == "msg"@
            &&& fields@[0].value matches Value::Bytes(bytes) && {
                &&& bytes@.len() == received.filled
                &&& forall|i: int|
                    0 <= i < received.filled ==> #[trigger] bytes@[i] == received.buffer@[i]
            }
            &&& fields@[1].name@ == "rinfo"@
            &&& fields@[1].value matches Value::Object(info) && {
                &&& info@.len() == 4
                &&& info@[0].name@ == "address"@
                &&& info@[1].name@ == "family"@
                &&& info@[2].name@ == "port"@
                &&& info@[3].name@ == "size"@
                &&& info@[3].value == Value::Number(received.filled as u64)
                &&& match received.from {
                    SocketAddress::V4 { ip, port } => {
                        &&& holds_text(info@[0].value, dotted(ip))
                        &&& holds_text(info@[1].value, "IPv4"@)
                        &&& info@[2].value == Value::Number(port as u64)
                    },
                    SocketAddress::V6 { ip, port } => {
                        &&& holds_text(info@[0].value, ipv6_text_of(ip))
                        &&& holds_text(info@[1].value, "IPv6"@)
                        &&& info@[2].value == Value::Number(port as u64)
                    },
                }
            }
        },
{
}

/// How a receive ends otherwise: with what the system reported on an open socket, and as closed,
/// whatever came in, on one that is not.
pub proof fn law_receive_without_a_datagram(
    settled: Result<Value, Rejection>,
    registry: RegistryView,
    handle: i64,
    outcome: Result<Received, String>,
)
    requires
        receive_ends(settled, registry, handle, outcome),
    ensures
        !registry.sockets.contains_key(handle) ==> settled == Err::<Value, Rejection>(
            (Rejection { operation: Operation::Recv, reason: Reason::Closed }),
        ),
        registry.sockets.contains_key(handle) && outcome is Err ==> settled == Err::<
            Value,
            Rejection,
        >((Rejection { operation: Operation::Recv, reason: Reason::System(outcome->Err_0) })),
        registry.sockets.contains_key(handle) && outcome is Ok ==> settled is Ok,
{
}

/// What a waiting receive does with an event: a datagram or an error ends it as such; being woken
/// ends it exactly when the socket is gone.
pub proof fn law_waiting_receive(
    progress: RecvProgress,
    registry: RegistryView,
    handle: i64,
    event: RecvEvent,
)
    requires
        receive_advances(progress, registry, handle, event),
    ensures
        event matches RecvEvent::Arrived(received) ==> (progress matches RecvProgress::Settled(
            settled,
        ) && receive_ends(settled, registry, handle, Ok(received))),
        event matches RecvEvent::Failed(text) ==> (progress matches RecvProgress::Settled(settled)
            && receive_ends(settled, registry, handle, Err(text))),
        event is Woken && registry.sockets.contains_key(handle) ==> progress is KeepWaiting,
        event is Woken && !registry.sockets.contains_key(handle) ==> progress
            == RecvProgress::Settled(
            Err((Rejection { operation: Operation::Recv, reason: Reason::Closed })),
        ),
{
}

/// The object that a local address is reported as, field by field.
pub proof fn law_reported_address(value: Value, address: SocketAddress)
    requires
        value.describes_address(address),
    ensures
        value matches Value::Object(fields) && {
            &&& fields@.len() == 3
            &&& fields@[0].name@ == "address"@
            &&& fields@[1].name@ == "family"@
            &&& fields@[2].name@ == "port"@
            &&& match address {
                SocketAddress::V4 { ip, port } => {
                    &&& holds_text(fields@[0].value, dotted(ip))
                    &&& holds_text(fields@[1].value, "IPv4"@)
                    &&& fields@[2].value == Value::Number(port as u64)
                },
                SocketAddress::V6 { ip, port } => {
                    &&& holds_text(fields@[0].value, ipv6_text_of(ip))
                    &&& holds_text(fields@[1].value, "IPv6"@)
                    &&& fields@[2].value == Value::Number(port as u64)
                },
            }
        },
{
}

/// A local address reads back what a bind was asked for, told of the address itself: an IPv4 socket
/// that is bound to the text of `ip`, and is given it by the system, reports that text, and the port
/// where one was asked for.
pub proof fn law_ipv4_socket_reports_the_address_asked_for(
    ip: u32,
    port: u16,
    local_port: u16,
    value: Value,
)
    requires
        port != 0 ==> local_port == port,
        value.describes_address((SocketAddress::V4 { ip, port: local_port })),
    ensures
        bind_endpoint(false, dotted(ip), port) == dotted(ip) + seq![':'] + decimal(port as nat),
        value matches Value::Object(fields) && {
            &&& holds_text(fields@[0].value, dotted(ip))
            &&& holds_text(fields@[1].value, "IPv4"@)
            &&& fields@[2].value == Value::Number(local_port as u64)
            &&& port != 0 ==> fields@[2].value == Value::Number(port as u64)
        },
{
    law_ipv4_bind_endpoint(dotted(ip), port, ip);
    law_reported_address(value, SocketAddress::V4 { ip, port: local_port });
}

/// Joining or leaving any IPv4 group goes ahead on a bound IPv4 socket: with the text of `group`, and
/// with the text of an interface or with none that can be read, the request is for that group, that
/// interface or the unspecified one, and that socket; none is refused.
pub proof fn law_every_ipv4_group_is_requested(
    registry: RegistryView,
    handle: i64,
    multi: &[u8],
    iface: Option<&[u8]>,
    group: u32,
    interface: u32,
    join: bool,
)
    requires
        registry.sockets.contains_key(handle),
        registry.sockets[handle].socket is Some,
        !registry.sockets[handle].ipv6,
        multi@ == encode_utf8(dotted(group)),
        !is_usable(iface) ==> interface == 0,
        is_usable(iface) ==> iface->0@ == encode_utf8(dotted(interface)),
    ensures
        membership_step(registry, handle, Some(multi), iface, join) == Step::<
            MembershipRequest,
            i64,
        >::Perform(
            MembershipRequest::V4(
                (V4Membership {
                    socket: registry.sockets[handle].socket->0,
                    group,
                    interface,
                    join,
                }),
            ),
        ),
{
    law_every_text_is_read(multi, dotted(group));
    law_ipv4_reads_dotted_texts_only(dotted(group), group);
    law_ipv4_reads_dotted_texts_only(dotted(interface), interface);
    lemma_dotted_has_no_colon(group);
    lemma_dotted_has_no_colon(interface);
    lemma_argument(iface);
    if is_usable(iface) {
        law_every_text_is_read(iface->0, dotted(interface));
    }
}

/// Joining or leaving any IPv6 group goes ahead on a bound IPv6 socket: with a text that is read as
/// `group`, the request is for that group and that socket, on the interface whose number the
/// interface argument writes, or 0 where it is absent or writes none.
pub proof fn law_every_ipv6_group_is_requested(
    registry: RegistryView,
    handle: i64,
    multi: &[u8],
    text: Seq<char>,
    iface: Option<&[u8]>,
    group: u128,
    index: u32,
    join: bool,
)
    requires
        registry.sockets.contains_key(handle),
        registry.sockets[handle].socket is Some,
        registry.sockets[handle].ipv6,
        multi@ == encode_utf8(text),
        text.len() > 0,
        !is_usable(iface) || u32_of_text(decode_utf8(iface->0@)) is None ==> index == 0,
        is_usable(iface) && u32_of_text(decode_utf8(iface->0@)) is Some ==> Some(index)
            == u32_of_text(decode_utf8(iface->0@)),
    ensures
        ipv6_of_text(text) == Some(group) ==> membership_step(
            registry,
            handle,
            Some(multi),
            iface,
            join,
        ) == Step::<MembershipRequest, i64>::Perform(
            MembershipRequest::V6(
                (V6Membership {
                    socket: registry.sockets[handle].socket->0,
                    group,
                    interface_index: index,
                    join,
                }),
            ),
        ),
{
    law_every_text_is_read(multi, text);
    lemma_argument(iface);
    if !is_usable(iface) {
        assert(text_or_empty(iface) =~= Seq::<char>::empty());
        law_u32_texts(Seq::empty());
    }
}

/// Every interface number is understood: its numeral stands for it, and a text that is no number
/// stands for 0.
pub proof fn law_interface_numbers(index: u32, text: Seq<char>)
    ensures
        interface_index(decimal(index as nat)) == index,
        u32_of_text(text) is None ==> interface_index(text) == 0,
        u32_of_text(text) is Some ==> interface_index(text) == u32_of_text(text)->0,
{
    law_interface_index_reads_back(index);
}

/// When joining or leaving a group answers at once, the answer is 0, and there is a reason: the
/// socket is not bound, the group is absent, empty or not UTF-8, or it is no address of the family,
/// or, for IPv4, the interface is a text that is no address.
pub proof fn law_membership_is_refused_only_if(
    registry: RegistryView,
    handle: i64,
    multi: Option<&[u8]>,
    iface: Option<&[u8]>,
    join: bool,
)
    ensures
        membership_step(registry, handle, multi, iface, join) matches Step::Done(answer) ==> {
            &&& answer == 0
            &&& {
                ||| !registry.sockets.contains_key(handle)
                ||| registry.sockets[handle].socket is None
                ||| !is_usable(multi)
                ||| registry.sockets[handle].ipv6 && ipv6_of_text(decode_utf8(multi->0@)) is None
                ||| !registry.sockets[handle].ipv6 && forall|ip: u32|
                    decode_utf8(multi->0@) != #[trigger] dotted(ip)
                ||| !registry.sockets[handle].ipv6 && is_usable(iface) && forall|ip: u32|
                    decode_utf8(iface->0@) != #[trigger] dotted(ip)
            }
        },
        ({
            ||| !registry.sockets.contains_key(handle)
            ||| registry.sockets[handle].socket is None
            ||| !is_usable(multi)
            ||| !registry.sockets[handle].ipv6 && forall|ip: u32|
                decode_utf8(multi->0@) != #[trigger] dotted(ip)
            ||| !registry.sockets[handle].ipv6 && is_usable(iface) && forall|ip: u32|
                decode_utf8(iface->0@) != #[trigger] dotted(ip)
        }) ==> membership_step(registry, handle, multi, iface, join) == Step::<
            MembershipRequest,
            i64,
        >::Done(0i64),
        registry.sockets.contains_key(handle) && registry.sockets[handle].ipv6 && is_usable(multi)
            ==> (ipv6_of_text(decode_utf8(multi->0@)) is None ==> membership_step(
            registry,
            handle,
            multi,
            iface,
            join,
        ) == Step::<MembershipRequest, i64>::Done(0i64)),
{
    lemma_argument(multi);
    lemma_argument(iface);
    if is_usable(multi) {
        law_ipv4_reads_dotted_texts_only(decode_utf8(multi->0@), 0);
    }
    if is_usable(iface) {
        law_ipv4_reads_dotted_texts_only(decode_utf8(iface->0@), 0);
    }
}

/// A group that has been read is never refused: with every address of the family there is a request
/// for exactly it; without one the answer is 0.
pub proof fn law_group_that_was_read_is_requested(
    socket: Arc<UdpSocket>,
    group: u32,
    interface: u32,
    group6: u128,
    index: u32,
    join: bool,
)
    ensures
        v4_step(socket, Some(group), Some(interface), join) == Step::<
            MembershipRequest,
            i64,
        >::Perform(MembershipRequest::V4((V4Membership { socket, group, interface, join }))),
        v4_step(socket, None, Some(interface), join) == Step::<MembershipRequest, i64>::Done(0i64),
        v4_step(socket, Some(group), None, join) == Step::<MembershipRequest, i64>::Done(0i64),
        v4_step(socket, None, None, join) == Step::<MembershipRequest, i64>::Done(0i64),
        v6_step(socket, Some(group6), index, join) == Step::<MembershipRequest, i64>::Perform(
            MembershipRequest::V6(
                (V6Membership { socket, group: group6, interface_index: index, join }),
            ),
        ),
        v6_step(socket, None, index, join) == Step::<MembershipRequest, i64>::Done(0i64),
{
}

} // verus!
