//! What holds of the library as a whole: laws that relate several operations, or that hold after
//! any run of them.
use crate::address::{
    bind_endpoint, bind_host, bracketed, endpoint, needs_brackets, reaches, send_endpoint,
    SocketAddress,
};
use crate::error::{Operation, Reason, Rejection};
use crate::ipv4::{
    dotted, ipv4_of_text, law_ipv4_text_reads_back, lemma_dotted_has_no_colon, UNSPECIFIED,
};
use crate::ipv6::{ipv6_of_text, ipv6_text_of};
use crate::operations::{
    bind_refusal, clamped_capacity, late_bind_refusal, membership_step, receive_advances,
    recv_refusal, send_refusal, sends, MembershipRequest, RecvEvent, RecvProgress, SendRequest, Step,
    V4Membership, V6Membership, MAX_DATAGRAM,
};
use crate::registry::RegistryView;
use crate::text::{
    decimal, is_digit, lemma_decimal_reads_back, text_or_empty, u32_of_text, without_plus,
};
use crate::value::Value;
use std::sync::Arc;
use tokio::net::UdpSocket;
use tokio::sync::{Mutex, Notify};
use vstd::prelude::*;

verus! {

/// A change of the registry: a socket is created, bound or closed.
pub enum Event {
    Open { ipv6: bool, recv_lock: Arc<Mutex<()>>, closing: Arc<Notify> },
    Attach { handle: i64, socket: Arc<UdpSocket> },
    Close { handle: i64 },
}

/// The registry after one change.
pub open spec fn after(registry: RegistryView, event: Event) -> RegistryView {
    match event {
        Event::Open { ipv6, recv_lock, closing } => registry.opened(ipv6, recv_lock, closing),
        Event::Attach { handle, socket } => registry.attached(handle, socket),
        Event::Close { handle } => registry.closed(handle),
    }
}

/// The registry after a run of changes.
pub open spec fn run(registry: RegistryView, events: Seq<Event>) -> RegistryView
    decreases events.len(),
{
    if events.len() == 0 {
        registry
    } else {
        after(run(registry, events.drop_last()), events.last())
    }
}

/// Whether, each time the run creates a socket, a handle is left and the lock and the signal are the
/// socket's own.
pub open spec fn possible(registry: RegistryView, events: Seq<Event>) -> bool
    decreases events.len(),
{
    events.len() == 0 || {
        &&& possible(registry, events.drop_last())
        &&& events.last() matches Event::Open { recv_lock, closing, .. } ==> {
            &&& run(registry, events.drop_last()).next_id < i64::MAX
            &&& run(registry, events.drop_last()).is_fresh(recv_lock, closing)
        }
    }
}

/// Every run keeps the registry well formed, and the counter never goes back.
pub proof fn law_registry_stays_well_formed(registry: RegistryView, events: Seq<Event>)
    requires
        registry.well_formed(),
        possible(registry, events),
    ensures
        run(registry, events).well_formed(),
        run(registry, events).next_id >= registry.next_id,
    decreases events.len(),
{
    if events.len() > 0 {
        law_registry_stays_well_formed(registry, events.drop_last());
        let before = run(registry, events.drop_last());
        match events.last() {
            Event::Open { ipv6, recv_lock, closing } => before.lemma_opened(
                ipv6,
                recv_lock,
                closing,
            ),
            Event::Attach { handle, socket } => before.lemma_attached(handle, socket),
            Event::Close { handle } => before.lemma_closed(handle),
        }
    }
}

/// A handle that was handed out and is not open any more stays so for good: no run of operations
/// brings it back.
pub proof fn law_handle_is_never_reused(registry: RegistryView, events: Seq<Event>, handle: i64)
    requires
        registry.well_formed(),
        possible(registry, events),
        handle < registry.next_id,
        !registry.is_open(handle),
    ensures
        !run(registry, events).is_open(handle),
    decreases events.len(),
{
    if events.len() > 0 {
        law_handle_is_never_reused(registry, events.drop_last(), handle);
        law_registry_stays_well_formed(registry, events.drop_last());
    }
}

/// Two sockets never get the same handle, whatever happens between their creations.
pub proof fn law_handles_are_unique(
    registry: RegistryView,
    ipv6: bool,
    recv_lock: Arc<Mutex<()>>,
    closing: Arc<Notify>,
    events: Seq<Event>,
)
    requires
        registry.well_formed(),
        registry.next_id < i64::MAX,
        registry.is_fresh(recv_lock, closing),
        possible(registry.opened(ipv6, recv_lock, closing), events),
    ensures
        run(registry.opened(ipv6, recv_lock, closing), events).next_id > registry.next_id,
{
    registry.lemma_opened(ipv6, recv_lock, closing);
    law_registry_stays_well_formed(registry.opened(ipv6, recv_lock, closing), events);
}

/// As long as a socket is open, its family is the one chosen at its creation, its receive lock is
/// the same one, so that all its receives take turns, its closing signal is the same one, so that
/// closing it wakes them all, and once it is bound its system socket is never replaced.
pub proof fn law_open_socket_keeps_its_identity(
    registry: RegistryView,
    events: Seq<Event>,
    handle: i64,
)
    requires
        registry.well_formed(),
        possible(registry, events),
        registry.is_open(handle),
        run(registry, events).is_open(handle),
    ensures
        run(registry, events).sockets[handle].ipv6 == registry.sockets[handle].ipv6,
        run(registry, events).sockets[handle].recv_lock == registry.sockets[handle].recv_lock,
        run(registry, events).sockets[handle].closing == registry.sockets[handle].closing,
        registry.sockets[handle].socket is Some ==> run(registry, events).sockets[handle].socket
            == registry.sockets[handle].socket,
    decreases events.len(),
{
    if events.len() > 0 {
        let front = events.drop_last();
        let before = run(registry, front);
        law_registry_stays_well_formed(registry, front);
        // The last change cannot have opened this handle: it was handed out before the run.
        assert(registry.sockets.contains_key(handle));
        assert(handle < before.next_id);
        law_open_socket_keeps_its_identity(registry, front, handle);
    }
}

/// Two open sockets never share a receive lock or a closing signal, whatever has happened: a receive
/// on one socket does not wait for a receive on another, and is not woken when the other is closed.
pub proof fn law_sockets_share_no_lock(
    registry: RegistryView,
    events: Seq<Event>,
    handle: i64,
    other: i64,
)
    requires
        registry.well_formed(),
        possible(registry, events),
        handle != other,
        run(registry, events).is_open(handle),
        run(registry, events).is_open(other),
    ensures
        run(registry, events).sockets[handle].recv_lock != run(
            registry,
            events,
        ).sockets[other].recv_lock,
        run(registry, events).sockets[handle].closing != run(
            registry,
            events,
        ).sockets[other].closing,
{
    law_registry_stays_well_formed(registry, events);
}

/// Closing a socket twice is the same as closing it once.
pub proof fn law_close_is_idempotent(registry: RegistryView, handle: i64)
    ensures
        registry.closed(handle).closed(handle) == registry.closed(handle),
{
    assert(registry.closed(handle).closed(handle).sockets =~= registry.closed(handle).sockets);
}

/// A closed handle is refused for good, whatever happens after the close: a bind, a send and a
/// receive are rejected as on an invalid handle, the address is null and the options and
/// memberships fail because there is no bound socket, a bind under way records nothing, and a
/// receive that is still waiting finds its socket closed.
pub proof fn law_closed_handle_is_refused(
    registry: RegistryView,
    handle: i64,
    events: Seq<Event>,
    address: Option<&[u8]>,
    socket: Arc<UdpSocket>,
)
    requires
        registry.well_formed(),
        handle < registry.next_id,
        possible(registry.closed(handle), events),
    ensures
        ({
            let later = run(registry.closed(handle), events);
            &&& !later.is_open(handle)
            &&& bind_refusal(later, handle) == Some(Reason::InvalidHandle)
            &&& recv_refusal(later, handle) == Some(Reason::InvalidHandle)
            &&& text_or_empty(address).len() > 0 ==> send_refusal(later, handle, address) == Some(
                Reason::InvalidHandle,
            )
            &&& later.bound_socket(handle) is None
            &&& later.attached(handle, socket) == later
        }),
{
    registry.lemma_closed(handle);
    law_handle_is_never_reused(registry.closed(handle), events, handle);
}

/// A handle that was never handed out is refused like a closed one.
pub proof fn law_unknown_handle_is_refused(
    registry: RegistryView,
    handle: i64,
    address: Option<&[u8]>,
)
    requires
        registry.well_formed(),
        handle < 1 || handle >= registry.next_id,
    ensures
        bind_refusal(registry, handle) == Some(Reason::InvalidHandle),
        recv_refusal(registry, handle) == Some(Reason::InvalidHandle),
        text_or_empty(address).len() > 0 ==> send_refusal(registry, handle, address) == Some(
            Reason::InvalidHandle,
        ),
        registry.bound_socket(handle) is None,
{
}

/// A fresh socket can be bound, and until it is, sending and receiving are rejected as not bound
/// and there is no socket to ask or to set options on.
pub proof fn law_fresh_socket_is_unbound(
    registry: RegistryView,
    ipv6: bool,
    recv_lock: Arc<Mutex<()>>,
    closing: Arc<Notify>,
    address: Option<&[u8]>,
)
    requires
        registry.well_formed(),
        registry.next_id < i64::MAX,
    ensures
        ({
            let fresh = registry.opened(ipv6, recv_lock, closing);
            let handle = registry.next_id;
            &&& bind_refusal(fresh, handle) is None
            &&& recv_refusal(fresh, handle) == Some(Reason::NotBound)
            &&& text_or_empty(address).len() > 0 ==> send_refusal(fresh, handle, address) == Some(
                Reason::NotBound,
            )
            &&& fresh.bound_socket(handle) is None
        }),
{
}

/// Once a bind has succeeded, and as long as the socket is open, the system socket is the one that
/// was bound, a second bind is rejected as already bound, and sending and receiving go ahead.
pub proof fn law_bound_socket_is_usable(
    registry: RegistryView,
    handle: i64,
    socket: Arc<UdpSocket>,
    events: Seq<Event>,
    address: Option<&[u8]>,
)
    requires
        registry.well_formed(),
        registry.is_unbound(handle),
        possible(registry.attached(handle, socket), events),
        run(registry.attached(handle, socket), events).is_open(handle),
    ensures
        ({
            let later = run(registry.attached(handle, socket), events);
            &&& bind_refusal(later, handle) == Some(Reason::AlreadyBound)
            &&& recv_refusal(later, handle) is None
            &&& text_or_empty(address).len() > 0 ==> send_refusal(later, handle, address) is None
            &&& later.bound_socket(handle) == Some(socket)
        }),
{
    registry.lemma_attached(handle, socket);
    law_open_socket_keeps_its_identity(registry.attached(handle, socket), events, handle);
}

/// Of two binds of one unbound socket that overlap, exactly one succeeds: neither is refused when it
/// starts, the one that ends first is recorded, and the one that ends second, whatever happens
/// between as long as the socket is open, is turned away as already bound and changes nothing.
pub proof fn law_one_of_two_overlapping_binds_succeeds(
    registry: RegistryView,
    handle: i64,
    first: Arc<UdpSocket>,
    second: Arc<UdpSocket>,
    events: Seq<Event>,
)
    requires
        registry.well_formed(),
        registry.is_unbound(handle),
        possible(registry.attached(handle, first), events),
        run(registry.attached(handle, first), events).is_open(handle),
    ensures
        bind_refusal(registry, handle) is None,
        late_bind_refusal(registry, handle) is None,
        ({
            let later = run(registry.attached(handle, first), events);
            &&& later.bound_socket(handle) == Some(first)
            &&& late_bind_refusal(later, handle) == Some(Reason::AlreadyBound)
            &&& later.attached(handle, second) == later
        }),
{
    law_bound_socket_is_usable(registry, handle, first, events, None);
}

/// A change to one socket leaves every other socket as it is.
pub proof fn law_sockets_are_independent(registry: RegistryView, event: Event, other: i64)
    requires
        match event {
            Event::Open { .. } => other != registry.next_id,
            Event::Attach { handle, .. } => other != handle,
            Event::Close { handle } => other != handle,
        },
    ensures
        after(registry, event).is_open(other) == registry.is_open(other),
        registry.is_open(other) ==> after(registry, event).sockets[other]
            == registry.sockets[other],
        after(registry, event).bound_socket(other) == registry.bound_socket(other),
{
}

/// Every rejection message begins with the name of the library and of the operation.
pub proof fn law_message_has_prefix(rejection: Rejection)
    ensures
        Rejection::prefix(rejection.operation).is_prefix_of(rejection.spec_message()),
{
    let prefix = Rejection::prefix(rejection.operation);
    assert(rejection.spec_message().take(prefix.len() as int) =~= prefix);
}

/// The prefix tells the operations apart.
pub proof fn law_prefix_names_operation(a: Operation, b: Operation)
    requires
        Rejection::prefix(a) == Rejection::prefix(b),
    ensures
        a == b,
{
    reveal_strlit("dgram ");
    reveal_strlit(": ");
    reveal_strlit("bind");
    reveal_strlit("send");
    reveal_strlit("sendBuffer");
    reveal_strlit("recv");
    assert(Rejection::prefix(a)[6] == a.spec_name()[0]);
    assert(Rejection::prefix(b)[6] == b.spec_name()[0]);
    assert(Rejection::prefix(a).len() == a.spec_name().len() + 8);
    assert(Rejection::prefix(b).len() == b.spec_name().len() + 8);
}

/// The receive buffer has room for one byte at least and for a whole datagram at most; a request
/// within these bounds is met exactly, and clamping again changes nothing.
pub proof fn law_capacity_is_clamped(max_bytes: usize)
    ensures
        1 <= clamped_capacity(max_bytes) <= MAX_DATAGRAM,
        1 <= max_bytes <= MAX_DATAGRAM ==> clamped_capacity(max_bytes) == max_bytes,
        clamped_capacity(clamped_capacity(max_bytes)) == clamped_capacity(max_bytes),
{
}

/// A host in brackets is not bracketed again, so an IPv6 destination may be written either way.
pub proof fn law_brackets_are_added_once(host: Seq<char>, port: u16)
    requires
        needs_brackets(host),
    ensures
        !needs_brackets(bracketed(host)),
        send_endpoint(bracketed(host), port) == send_endpoint(host, port),
        bind_endpoint(true, bracketed(host), port) == bind_endpoint(true, host, port),
{
    assert(bracketed(host)[0] == '[');
}

/// Without an address a socket is bound to the wildcard address of its family.
pub proof fn law_default_bind_endpoint(port: u16)
    ensures
        bind_endpoint(false, Seq::empty(), port) == "0.0.0.0:"@ + decimal(port as nat),
        bind_endpoint(true, Seq::empty(), port) == "[::]:"@ + decimal(port as nat),
{
    reveal_strlit("0.0.0.0");
    reveal_strlit("0.0.0.0:");
    reveal_strlit("::");
    reveal_strlit("[::]:");
    assert("::"@[0] == ':');
    assert(needs_brackets("::"@));
    assert(bind_endpoint(false, Seq::empty(), port) =~= "0.0.0.0:"@ + decimal(port as nat));
    assert(bind_endpoint(true, Seq::empty(), port) =~= "[::]:"@ + decimal(port as nat));
}

/// The number of an IPv6 interface, written in decimal, is read back as that number.
pub proof fn law_interface_index_reads_back(index: u32)
    ensures
        u32_of_text(decimal(index as nat)) == Some(index),
{
    lemma_decimal_reads_back(index as nat);
    assert(is_digit(decimal(index as nat)[0]));
    assert(without_plus(decimal(index as nat)) == decimal(index as nat));
}

/// An endpoint text names one host and one port: different hosts or ports give different texts.
pub proof fn law_endpoint_is_unambiguous(
    host: Seq<char>,
    port: u16,
    other_host: Seq<char>,
    other_port: u16,
)
    requires
        endpoint(host, port) == endpoint(other_host, other_port),
    ensures
        host == other_host,
        port == other_port,
{
    let a = endpoint(host, port);
    let digits = decimal(port as nat);
    let other_digits = decimal(other_port as nat);
    lemma_decimal_reads_back(port as nat);
    lemma_decimal_reads_back(other_port as nat);
    assert(a.len() == host.len() + 1 + digits.len());
    assert(a.len() == other_host.len() + 1 + other_digits.len());
    assert(a[host.len() as int] == ':');
    assert(a[other_host.len() as int] == ':');
    if host.len() < other_host.len() {
        assert(a[other_host.len() as int] == digits[other_host.len() - host.len() - 1]);
        assert(is_digit(digits[other_host.len() - host.len() - 1]));
    }
    if other_host.len() < host.len() {
        assert(a[host.len() as int] == other_digits[host.len() - other_host.len() - 1]);
        assert(is_digit(other_digits[host.len() - other_host.len() - 1]));
    }
    assert(host =~= a.take(host.len() as int));
    assert(other_host =~= a.take(other_host.len() as int));
    assert(digits =~= a.skip(host.len() as int + 1));
    assert(other_digits =~= a.skip(other_host.len() as int + 1));
}

/// The host that stands in the brackets of an endpoint text of the IPv6 address.
spec fn inner_host(text: Seq<char>, ip: u128, port: u16) -> Seq<char> {
    choose|host: Seq<char>| #[trigger]
        ipv6_of_text(host) == Some(ip) && text == endpoint(bracketed(host), port)
}

/// An endpoint text reaches one address only.
pub proof fn law_endpoint_reaches_one_address(text: Seq<char>, a: SocketAddress, b: SocketAddress)
    ensures
        reaches(text, a) && reaches(text, b) ==> a == b,
{
    if reaches(text, a) && reaches(text, b) {
        match (a, b) {
            (
                SocketAddress::V4 { ip: ip_a, port: port_a },
                SocketAddress::V4 { ip: ip_b, port: port_b },
            ) => {
                law_endpoint_is_unambiguous(dotted(ip_a), port_a, dotted(ip_b), port_b);
                law_ipv4_text_reads_back(ip_a);
                law_ipv4_text_reads_back(ip_b);
            },
            (
                SocketAddress::V4 { ip: ip_a, port: port_a },
                SocketAddress::V6 { ip: ip_b, port: port_b },
            ) => {
                let host = bracketed(inner_host(text, ip_b, port_b));
                law_endpoint_is_unambiguous(dotted(ip_a), port_a, host, port_b);
                lemma_dotted_has_no_colon(ip_a);
                assert(host[0] == '[');
            },
            (
                SocketAddress::V6 { ip: ip_a, port: port_a },
                SocketAddress::V4 { ip: ip_b, port: port_b },
            ) => {
                let host = bracketed(inner_host(text, ip_a, port_a));
                law_endpoint_is_unambiguous(host, port_a, dotted(ip_b), port_b);
                lemma_dotted_has_no_colon(ip_b);
                assert(host[0] == '[');
            },
            (
                SocketAddress::V6 { ip: ip_a, port: port_a },
                SocketAddress::V6 { ip: ip_b, port: port_b },
            ) => {
                let host_a = inner_host(text, ip_a, port_a);
                let host_b = inner_host(text, ip_b, port_b);
                law_endpoint_is_unambiguous(bracketed(host_a), port_a, bracketed(host_b), port_b);
                let host = bracketed(host_a);
                assert(host_a =~= host.subrange(1, host.len() - 1));
                assert(host_b =~= host.subrange(1, host.len() - 1));
            },
        }
    }
}

/// Whether a system that was asked for `asked` gave it: `local` has the IP address asked for, and the
/// port asked for, or some port of the system's choice where port 0 was asked for.
pub open spec fn grants(local: SocketAddress, asked: SocketAddress) -> bool {
    &&& match (local, asked) {
        (SocketAddress::V4 { ip, .. }, SocketAddress::V4 { ip: asked_ip, .. }) => ip == asked_ip,
        (SocketAddress::V6 { ip, .. }, SocketAddress::V6 { ip: asked_ip, .. }) => ip == asked_ip,
        _ => false,
    }
    &&& if asked.port() == 0 {
        local.port() != 0
    } else {
        local.port() == asked.port()
    }
}

/// The wildcard host of an IPv4 socket is the text of the unspecified address.
pub proof fn law_ipv4_wildcard_is_unspecified()
    ensures
        dotted(UNSPECIFIED) == bind_host(false, Seq::empty()),
        ipv4_of_text(bind_host(false, Seq::empty())) == Some(UNSPECIFIED),
{
    reveal_strlit("0.0.0.0");
    assert(decimal(0) =~= seq!['0']);
    assert(dotted(UNSPECIFIED) =~= "0.0.0.0"@);
    law_ipv4_text_reads_back(UNSPECIFIED);
}

/// The address of an IPv4 socket reads back what its bind was asked for. The endpoint that the bind
/// hands to the system reaches the address asked for; and if the system grants that address, the
/// value read afterwards holds the very host text, the family and the port: the one asked for, or
/// where port 0 was asked for the one that the system chose. A second reading of the same address
/// holds the same.
pub proof fn law_ipv4_address_reads_back_the_bind(
    address: Seq<char>,
    port: u16,
    ip: u32,
    local: SocketAddress,
    value: Value,
    again: Value,
)
    requires
        ipv4_of_text(bind_host(false, address)) == Some(ip),
        grants(local, (SocketAddress::V4 { ip, port })),
        value.describes_address(local),
        again.describes_address(local),
    ensures
        reaches(bind_endpoint(false, address, port), (SocketAddress::V4 { ip, port })),
        value.field(0).is_text(bind_host(false, address)),
        value.field(1).is_text("IPv4"@),
        value.field(2) == Value::Number(local.port() as u64),
        port != 0 ==> value.field(2) == Value::Number(port as u64),
        port == 0 ==> value.field(2) != Value::Number(0),
        again.field(0).is_text(bind_host(false, address)),
        again.field(1).is_text("IPv4"@),
        again.field(2) == value.field(2),
{
    let host = bind_host(false, address);
    assert(exists|other: u32| #[trigger] dotted(other) == host);
    assert(dotted(ip) == host);
}

/// The address of an IPv6 socket reads back what its bind was asked for, like that of an IPv4 one;
/// the text is the canonical one of the address.
pub proof fn law_ipv6_address_reads_back_the_bind(
    address: Seq<char>,
    port: u16,
    ip: u128,
    local: SocketAddress,
    value: Value,
)
    ensures
        ({
            &&& needs_brackets(bind_host(true, address))
            &&& ipv6_of_text(bind_host(true, address)) == Some(ip)
            &&& grants(local, (SocketAddress::V6 { ip, port }))
            &&& value.describes_address(local)
        }) ==> {
            &&& reaches(bind_endpoint(true, address, port), (SocketAddress::V6 { ip, port }))
            &&& value.field(0).is_text(ipv6_text_of(ip))
            &&& value.field(1).is_text("IPv6"@)
            &&& value.field(2) == Value::Number(local.port() as u64)
            &&& port != 0 ==> value.field(2) == Value::Number(port as u64)
        },
{
}

/// The echo exchange: when a message received from `sender` is sent back as it is, to the address
/// and port that came with it, the endpoint reaches the sender and no one else, and the bytes are
/// those received.
pub proof fn law_reply_goes_to_the_sender(
    message: Value,
    msg: Seq<u8>,
    sender: SocketAddress,
    registry: RegistryView,
    handle: i64,
    address: Option<&[u8]>,
    reply: SendRequest,
    other: SocketAddress,
)
    ensures
        ({
            &&& message.describes_message(msg, sender)
            &&& message.field(1).field(0).is_text(text_or_empty(address))
            &&& message.field(0) matches Value::Bytes(payload) && sends(
                reply,
                registry,
                handle,
                payload@,
                sender.port(),
                address,
            )
        }) ==> {
            &&& message.field(1).field(2) == Value::Number(sender.port() as u64)
            &&& reply.payload@ == msg
            &&& reaches(reply.destination@, sender)
            &&& reaches(reply.destination@, other) ==> other == sender
        },
{
    law_endpoint_reaches_one_address(reply.destination@, sender, other);
}

/// A receive that waits when its socket is closed is rejected: the signal that the close gives is the
/// one that the receive was handed, and whatever the receive is told of from then on, a datagram, an
/// error or only that signal, it ends with a closed-socket error that names the operation. It does
/// not go on waiting and hands over no datagram.
pub proof fn law_receive_pending_at_close_is_rejected(
    start: RegistryView,
    waiting: Seq<Event>,
    handle: i64,
    later: Seq<Event>,
    event: RecvEvent,
    progress: RecvProgress,
)
    requires
        start.well_formed(),
        possible(start, waiting),
        start.is_open(handle),
        run(start, waiting).is_open(handle),
        possible(run(start, waiting).closed(handle), later),
    ensures
        run(start, waiting).sockets[handle].closing == start.sockets[handle].closing,
        receive_advances(
            progress,
            run(run(start, waiting).closed(handle), later),
            handle,
            event,
        ) ==> {
            &&& progress matches RecvProgress::Settled(Err(rejection))
            &&& rejection.reason == Reason::Closed
            &&& rejection.spec_message() == "dgram recv: "@ + "socket closed"@
        },
{
    let before = run(start, waiting);
    law_registry_stays_well_formed(start, waiting);
    law_open_socket_keeps_its_identity(start, waiting, handle);
    before.lemma_closed(handle);
    assert(before.sockets.contains_key(handle));
    law_handle_is_never_reused(before.closed(handle), later, handle);
    reveal_strlit("dgram ");
    reveal_strlit("recv");
    reveal_strlit(": ");
    reveal_strlit("dgram recv: ");
    assert(Rejection::prefix(Operation::Recv) =~= "dgram recv: "@);
}

/// A text and a buffer with the same bytes are sent alike: two datagrams with the same payload, for
/// the same handle, address and port, go out through the same socket with the same bytes to the
/// same endpoint.
pub proof fn law_send_variants_agree(
    registry: RegistryView,
    handle: i64,
    payload: Seq<u8>,
    port: u16,
    address: Option<&[u8]>,
    text_request: SendRequest,
    buffer_request: SendRequest,
)
    requires
        sends(text_request, registry, handle, payload, port, address),
        sends(buffer_request, registry, handle, payload, port, address),
    ensures
        text_request.socket == buffer_request.socket,
        text_request.payload@ == buffer_request.payload@,
        text_request.destination@ == buffer_request.destination@,
{
}

/// The size that a received message reports is the number of bytes that it holds.
pub proof fn law_reported_size_is_message_length(
    value: Value,
    msg: Seq<u8>,
    address: SocketAddress,
)
    requires
        value.describes_message(msg, address),
    ensures
        value.field(0) matches Value::Bytes(bytes) && value.field(1).field(3)
            == Value::Number(bytes@.len() as u64) && bytes@ == msg,
{
}

/// Leaving a group mirrors joining it: on the same arguments both fail, or both ask for the same
/// thing but for the direction.
pub proof fn law_drop_mirrors_add(
    registry: RegistryView,
    handle: i64,
    multi: Option<&[u8]>,
    iface: Option<&[u8]>,
)
    ensures
        membership_step(registry, handle, multi, iface, false) == (match membership_step(
            registry,
            handle,
            multi,
            iface,
            true,
        ) {
            Step::Done(answer) => Step::Done(answer),
            Step::Perform(MembershipRequest::V4(joined)) => Step::Perform(
                MembershipRequest::V4((V4Membership { join: false, ..joined })),
            ),
            Step::Perform(MembershipRequest::V6(joined)) => Step::Perform(
                MembershipRequest::V6((V6Membership { join: false, ..joined })),
            ),
        }),
{
}

} // verus!
