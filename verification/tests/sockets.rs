use dgram::error::Operation;
use dgram::operations::{
    advance_recv, delivered, finish_address, finish_bind, finish_recv, finish_send,
    js_dgram_add_membership, js_dgram_address, js_dgram_bind, js_dgram_close,
    js_dgram_create_socket, js_dgram_drop_membership, js_dgram_recv, js_dgram_send,
    js_dgram_send_buffer, js_dgram_set_broadcast, recv_capacity, status, v4_membership,
    v6_membership, MembershipRequest, Received, RecvEvent, RecvProgress, Step,
};
use dgram::address::SocketAddress;
use dgram::registry::{next_id, Registry};
use dgram::value::Value;
use std::sync::Arc;
use tokio::net::UdpSocket;
use tokio::runtime::{Builder, Runtime};

fn runtime() -> Runtime {
    Builder::new_current_thread().enable_all().build().unwrap()
}

fn system_socket(runtime: &Runtime, target: &str) -> Arc<UdpSocket> {
    Arc::new(runtime.block_on(UdpSocket::bind(target)).unwrap())
}

/// Opens a socket of the given type and binds it to a free port.
fn bound(runtime: &Runtime, registry: &mut Registry, kind: &str) -> (i64, Arc<UdpSocket>) {
    let handle = js_dgram_create_socket(registry, Some(kind.as_bytes()));
    let socket = system_socket(runtime, "0.0.0.0:0");
    let settled = finish_bind(registry, handle, Ok(socket.clone()));
    assert!(matches!(settled, Ok(Value::Undefined)));
    (handle, socket)
}

/// `createSocket` returns a positive handle and registers a slot. `address` on a never-bound
/// socket returns null.
#[test]
fn create_socket_returns_positive_handle() {
    let mut registry = Registry::new();
    let id4 = js_dgram_create_socket(&mut registry, None);
    assert!(id4 > 0);
    match js_dgram_address(&registry, id4) {
        Step::Done(addr) => assert!(addr.is_null(), "unbound socket address should be NULL"),
        Step::Perform(_) => panic!("unbound socket address should be NULL"),
    }
}

/// Two consecutive `createSocket` calls return distinct handles.
#[test]
fn handle_ids_are_unique() {
    let mut registry = Registry::new();
    let a = js_dgram_create_socket(&mut registry, None);
    let b = js_dgram_create_socket(&mut registry, None);
    assert_ne!(a, b);
}

/// `setBroadcast` on a never-bound socket returns 0.
#[test]
fn set_broadcast_unbound_returns_zero() {
    let mut registry = Registry::new();
    let id = js_dgram_create_socket(&mut registry, None);
    match js_dgram_set_broadcast(&registry, id, true) {
        Step::Done(answer) => assert_eq!(answer, 0),
        Step::Perform(_) => panic!("no socket to set the option on"),
    }
}

/// `addMembership` on a never-bound socket returns 0.
#[test]
fn add_membership_unbound_returns_zero() {
    let mut registry = Registry::new();
    let id = js_dgram_create_socket(&mut registry, None);
    match js_dgram_add_membership(&registry, id, None, None) {
        Step::Done(r) => assert_eq!(r, 0),
        Step::Perform(_) => panic!("no socket to join with"),
    }
    match js_dgram_add_membership(&registry, id, Some(b"224.0.0.251"), None) {
        Step::Done(r) => assert_eq!(r, 0),
        Step::Perform(_) => panic!("no socket to join with"),
    }
}

/// `setBroadcast` on an unknown handle returns 0 without panicking.
#[test]
fn set_broadcast_unknown_handle() {
    let registry = Registry::new();
    match js_dgram_set_broadcast(&registry, 99_999, true) {
        Step::Done(answer) => assert_eq!(answer, 0),
        Step::Perform(_) => panic!("no such socket"),
    }
}

/// `address` on an unknown handle returns null.
#[test]
fn address_unknown_handle_returns_null() {
    let registry = Registry::new();
    match js_dgram_address(&registry, 99_999) {
        Step::Done(v) => assert!(v.is_null()),
        Step::Perform(_) => panic!("no such socket"),
    }
}

#[test]
fn next_id_counts_up() {
    let mut counter: i64 = 1;
    assert_eq!(next_id(&mut counter), 1);
    assert_eq!(next_id(&mut counter), 2);
    assert_eq!(counter, 3);
}

#[test]
fn handles_are_not_reused_after_close() {
    let mut registry = Registry::new();
    let first = js_dgram_create_socket(&mut registry, None);
    js_dgram_close(&mut registry, first);
    let second = js_dgram_create_socket(&mut registry, None);
    assert_eq!(first, 1);
    assert_eq!(second, 2);
    assert!(registry.get(first).is_none());
    assert!(registry.get(second).is_some());
    assert!(registry.has_free_handle());
}

#[test]
fn socket_type_selects_the_family() {
    let mut registry = Registry::new();
    let cases: [(Option<&[u8]>, bool); 6] = [
        (None, false),
        (Some(b"udp4"), false),
        (Some(b"udp6"), true),
        (Some(b"UDP6"), false),
        (Some(b""), false),
        (Some(&[0xff]), false),
    ];
    for (kind, ipv6) in cases {
        let handle = js_dgram_create_socket(&mut registry, kind);
        assert_eq!(registry.get(handle).unwrap().ipv6, ipv6);
        assert!(registry.get(handle).unwrap().socket.is_none());
        let target = js_dgram_bind(&registry, handle, 8000, None).unwrap();
        assert_eq!(target, if ipv6 { "[::]:8000" } else { "0.0.0.0:8000" });
    }
}

#[test]
fn bind_uses_the_given_address() {
    let mut registry = Registry::new();
    let four = js_dgram_create_socket(&mut registry, Some(b"udp4"));
    let six = js_dgram_create_socket(&mut registry, Some(b"udp6"));
    assert_eq!(js_dgram_bind(&registry, four, 0, Some(b"127.0.0.1")).unwrap(), "127.0.0.1:0");
    assert_eq!(js_dgram_bind(&registry, four, 53, Some(b"")).unwrap(), "0.0.0.0:53");
    assert_eq!(js_dgram_bind(&registry, four, 53, Some(&[0xc3])).unwrap(), "0.0.0.0:53");
    assert_eq!(js_dgram_bind(&registry, six, 53, Some(b"::1")).unwrap(), "[::1]:53");
    assert_eq!(js_dgram_bind(&registry, six, 53, Some(b"[::1]")).unwrap(), "[::1]:53");
}

#[test]
fn bind_is_refused_on_invalid_and_on_bound_handles() {
    let runtime = runtime();
    let mut registry = Registry::new();
    let unknown = js_dgram_bind(&registry, 7, 8000, None).unwrap_err();
    assert_eq!(unknown.message(), "dgram bind: invalid socket handle");
    let (handle, _) = bound(&runtime, &mut registry, "udp4");
    let again = js_dgram_bind(&registry, handle, 8000, None).unwrap_err();
    assert_eq!(again.message(), "dgram bind: socket already bound");
}

#[test]
fn bind_passes_on_system_errors() {
    let mut registry = Registry::new();
    let handle = js_dgram_create_socket(&mut registry, None);
    let failed = finish_bind(&mut registry, handle, Err("Address already in use (os error 48)".to_string()));
    assert_eq!(failed.unwrap_err().message(), "dgram bind: Address already in use (os error 48)");
    assert!(registry.get(handle).unwrap().socket.is_none());
    // The socket can still be bound.
    assert!(js_dgram_bind(&registry, handle, 0, None).is_ok());
}

#[test]
fn bind_of_a_socket_closed_meanwhile_is_rejected() {
    let runtime = runtime();
    let mut registry = Registry::new();
    let handle = js_dgram_create_socket(&mut registry, None);
    assert!(js_dgram_bind(&registry, handle, 0, None).is_ok());
    js_dgram_close(&mut registry, handle);
    let settled = finish_bind(&mut registry, handle, Ok(system_socket(&runtime, "0.0.0.0:0")));
    assert_eq!(settled.unwrap_err().message(), "dgram bind: socket vanished mid-bind");
    assert!(registry.get(handle).is_none());
}

/// Two binds start before either has ended: the first to end is recorded, the other is rejected.
#[test]
fn one_of_two_overlapping_binds_succeeds() {
    let runtime = runtime();
    let mut registry = Registry::new();
    let handle = js_dgram_create_socket(&mut registry, None);
    assert!(js_dgram_bind(&registry, handle, 0, None).is_ok());
    assert!(js_dgram_bind(&registry, handle, 0, None).is_ok());
    let first = system_socket(&runtime, "0.0.0.0:0");
    let second = system_socket(&runtime, "0.0.0.0:0");
    assert!(matches!(finish_bind(&mut registry, handle, Ok(first.clone())), Ok(Value::Undefined)));
    let refused = finish_bind(&mut registry, handle, Ok(second)).unwrap_err();
    assert_eq!(refused.message(), "dgram bind: socket already bound");
    assert!(Arc::ptr_eq(&registry.bound_socket(handle).unwrap(), &first));
    // A bind that fails after the other has succeeded changes nothing either.
    let failed = finish_bind(&mut registry, handle, Err("in use".to_string())).unwrap_err();
    assert_eq!(failed.message(), "dgram bind: in use");
    assert!(Arc::ptr_eq(&registry.bound_socket(handle).unwrap(), &first));
}

#[test]
fn binding_keeps_family_and_lock() {
    let runtime = runtime();
    let mut registry = Registry::new();
    let handle = js_dgram_create_socket(&mut registry, Some(b"udp6"));
    let lock = registry.get(handle).unwrap().recv_lock.clone();
    let socket = system_socket(&runtime, "0.0.0.0:0");
    assert!(finish_bind(&mut registry, handle, Ok(socket.clone())).is_ok());
    let state = registry.get(handle).unwrap();
    assert!(state.ipv6);
    assert!(Arc::ptr_eq(&state.recv_lock, &lock));
    assert!(Arc::ptr_eq(state.socket.as_ref().unwrap(), &socket));
}

#[test]
fn send_hands_over_payload_and_destination() {
    let runtime = runtime();
    let mut registry = Registry::new();
    let (handle, socket) = bound(&runtime, &mut registry, "udp4");
    let text = "h\u{e9}llo, server!";
    let request =
        js_dgram_send(&registry, handle, Some(text.as_bytes()), 8000, Some(b"127.0.0.1")).unwrap();
    assert_eq!(request.payload, text.as_bytes());
    assert_eq!(request.destination, "127.0.0.1:8000");
    assert!(Arc::ptr_eq(&request.socket, &socket));
    let binary =
        js_dgram_send_buffer(&registry, handle, Some(&[0, 255, 0xc3]), 9, Some(b"fe80::1")).unwrap();
    assert_eq!(binary.payload, vec![0, 255, 0xc3]);
    assert_eq!(binary.destination, "[fe80::1]:9");
    assert!(Arc::ptr_eq(&binary.socket, &socket));
}

#[test]
fn text_and_buffer_with_the_same_bytes_are_sent_alike() {
    let runtime = runtime();
    let mut registry = Registry::new();
    let (handle, _) = bound(&runtime, &mut registry, "udp4");
    let text = js_dgram_send(&registry, handle, Some(b"ping"), 1, Some(b"::1")).unwrap();
    let buffer = js_dgram_send_buffer(&registry, handle, Some(b"ping"), 1, Some(b"::1")).unwrap();
    assert_eq!(text.payload, buffer.payload);
    assert_eq!(text.destination, buffer.destination);
    assert!(Arc::ptr_eq(&text.socket, &buffer.socket));
}

#[test]
fn send_is_refused_with_the_first_fault_found() {
    let runtime = runtime();
    let mut registry = Registry::new();
    let (handle, _) = bound(&runtime, &mut registry, "udp4");
    let unbound = js_dgram_create_socket(&mut registry, None);
    let send = |handle, msg: Option<&[u8]>, address: Option<&[u8]>| {
        match js_dgram_send(&registry, handle, msg, 1, address) {
            Ok(_) => String::from("sent"),
            Err(rejection) => rejection.message(),
        }
    };
    assert_eq!(send(handle, None, None), "dgram send: invalid msg");
    assert_eq!(send(handle, Some(&[0xff]), Some(b"::1")), "dgram send: invalid msg");
    assert_eq!(send(handle, Some(b"x"), None), "dgram send: invalid address");
    assert_eq!(send(99_999, Some(b"x"), Some(b"")), "dgram send: invalid address");
    assert_eq!(send(handle, Some(b"x"), Some(&[0xff])), "dgram send: invalid address");
    assert_eq!(send(99_999, Some(b"x"), Some(b"::1")), "dgram send: invalid socket handle");
    assert_eq!(send(unbound, Some(b"x"), Some(b"::1")), "dgram send: socket not bound");
    assert_eq!(send(handle, Some(b""), Some(b"::1")), "sent");
    let send_buffer = |handle, buffer: Option<&[u8]>, address: Option<&[u8]>| {
        match js_dgram_send_buffer(&registry, handle, buffer, 1, address) {
            Ok(_) => String::from("sent"),
            Err(rejection) => rejection.message(),
        }
    };
    assert_eq!(send_buffer(handle, None, None), "dgram sendBuffer: invalid buffer");
    assert_eq!(send_buffer(handle, Some(b"x"), None), "dgram sendBuffer: invalid address");
    assert_eq!(send_buffer(0, Some(b"x"), Some(b"::1")), "dgram sendBuffer: invalid socket handle");
    assert_eq!(send_buffer(unbound, Some(b"x"), Some(b"::1")), "dgram sendBuffer: socket not bound");
    assert_eq!(send_buffer(handle, Some(&[0xff]), Some(b"::1")), "sent");
}

#[test]
fn send_answers_with_the_bytes_written() {
    assert!(matches!(finish_send(Operation::Send, Ok(14)), Ok(Value::Number(14))));
    let failed = finish_send(Operation::SendBuffer, Err("Message too long (os error 90)".to_string()));
    assert_eq!(failed.unwrap_err().message(), "dgram sendBuffer: Message too long (os error 90)");
}

#[test]
fn recv_capacity_is_clamped() {
    assert_eq!(recv_capacity(0), 1);
    assert_eq!(recv_capacity(1), 1);
    assert_eq!(recv_capacity(1500), 1500);
    assert_eq!(recv_capacity(65_536), 65_536);
    assert_eq!(recv_capacity(65_537), 65_536);
    assert_eq!(recv_capacity(usize::MAX), 65_536);
}

#[test]
fn recv_is_refused_until_bound() {
    let mut registry = Registry::new();
    let handle = js_dgram_create_socket(&mut registry, None);
    let unbound = js_dgram_recv(&registry, handle, 10);
    assert_eq!(unbound.err().unwrap().message(), "dgram recv: socket not bound");
    js_dgram_close(&mut registry, handle);
    let closed = js_dgram_recv(&registry, handle, 10);
    assert_eq!(closed.err().unwrap().message(), "dgram recv: invalid socket handle");
}

#[test]
fn receives_on_one_socket_share_one_lock() {
    let runtime = runtime();
    let mut registry = Registry::new();
    let (handle, socket) = bound(&runtime, &mut registry, "udp4");
    let (other, _) = bound(&runtime, &mut registry, "udp4");
    let first = js_dgram_recv(&registry, handle, 0).unwrap();
    let second = js_dgram_recv(&registry, handle, 100_000).unwrap();
    let third = js_dgram_recv(&registry, other, 10).unwrap();
    assert!(Arc::ptr_eq(&first.recv_lock, &second.recv_lock));
    assert!(!Arc::ptr_eq(&first.recv_lock, &third.recv_lock));
    assert!(Arc::ptr_eq(&first.closing, &second.closing));
    assert!(!Arc::ptr_eq(&first.closing, &third.closing));
    assert!(Arc::ptr_eq(&first.socket, &socket));
    assert!(first.recv_lock.try_lock().is_ok());
    assert_eq!(first.capacity, 1);
    assert_eq!(second.capacity, 65_536);
    assert_eq!(third.capacity, 10);
}

#[test]
fn received_bytes_stop_where_the_datagram_ends() {
    let mut registry = Registry::new();
    let handle = js_dgram_create_socket(&mut registry, None);
    let from = SocketAddress::V4 { ip: 0x0a00_0007, port: 4 };
    let received = Received { buffer: vec![5, 6, 7, 0, 0], filled: 3, from };
    match finish_recv(&registry, handle, Ok(received)).unwrap() {
        Value::Object(fields) => {
            assert!(matches!(&fields[0].value, Value::Bytes(bytes) if *bytes == vec![5, 6, 7]));
            match &fields[1].value {
                Value::Object(info) => assert!(matches!(info[3].value, Value::Number(3))),
                other => panic!("{:?}", other),
            }
        }
        other => panic!("{:?}", other),
    }
    let failed = finish_recv(&registry, handle, Err("Connection refused".to_string()));
    assert_eq!(failed.unwrap_err().message(), "dgram recv: Connection refused");
}

#[test]
fn recv_pending_at_close_is_rejected() {
    let mut registry = Registry::new();
    let handle = js_dgram_create_socket(&mut registry, None);
    js_dgram_close(&mut registry, handle);
    let from = SocketAddress::V4 { ip: 0x0a00_0007, port: 4 };
    let received = Received { buffer: vec![1], filled: 1, from };
    let late = finish_recv(&registry, handle, Ok(received));
    assert_eq!(late.unwrap_err().message(), "dgram recv: socket closed");
    let failed = finish_recv(&registry, handle, Err("whatever".to_string()));
    assert_eq!(failed.unwrap_err().message(), "dgram recv: socket closed");
}

/// A receive waits while the socket is open, ends with the datagram, and ends as closed once the
/// signal that it was handed has been given.
#[test]
fn waiting_receive_is_woken_by_close() {
    let runtime = runtime();
    let mut registry = Registry::new();
    let (handle, _) = bound(&runtime, &mut registry, "udp4");
    let request = js_dgram_recv(&registry, handle, 16).unwrap();
    let woken = advance_recv(&registry, handle, RecvEvent::Woken);
    assert!(matches!(woken, RecvProgress::KeepWaiting));
    let from = SocketAddress::V4 { ip: 1, port: 2 };
    let arrived = RecvEvent::Arrived(Received { buffer: vec![9], filled: 1, from });
    let progress = advance_recv(&registry, handle, arrived);
    assert!(matches!(progress, RecvProgress::Settled(Ok(Value::Object(_)))));
    match advance_recv(&registry, handle, RecvEvent::Failed("refused".to_string())) {
        RecvProgress::Settled(Err(rejection)) => assert_eq!(rejection.message(), "dgram recv: refused"),
        _ => panic!("the error is due"),
    }
    let closing = js_dgram_close(&mut registry, handle);
    assert!(Arc::ptr_eq(&closing.wake.unwrap(), &request.closing));
    let events = [
        RecvEvent::Woken,
        RecvEvent::Failed("refused".to_string()),
        RecvEvent::Arrived(Received { buffer: vec![9], filled: 1, from }),
    ];
    for event in events {
        match advance_recv(&registry, handle, event) {
            RecvProgress::Settled(Err(rejection)) => {
                assert_eq!(rejection.message(), "dgram recv: socket closed")
            }
            _ => panic!("the receive is over"),
        }
    }
    assert!(js_dgram_close(&mut registry, handle).wake.is_none());
}

#[test]
fn message_without_a_buffer_is_rejected() {
    assert!(matches!(delivered(Some(5)), Ok(5)));
    let failed = delivered::<u8>(None).unwrap_err();
    assert_eq!(failed.message(), "dgram recv: buffer allocation failed");
}

#[test]
fn close_is_idempotent_and_leaves_other_sockets() {
    let runtime = runtime();
    let mut registry = Registry::new();
    let (handle, _) = bound(&runtime, &mut registry, "udp4");
    let (other, socket) = bound(&runtime, &mut registry, "udp6");
    assert!(matches!(js_dgram_close(&mut registry, handle).answer, Value::Undefined));
    assert!(matches!(js_dgram_close(&mut registry, handle).answer, Value::Undefined));
    assert!(matches!(js_dgram_close(&mut registry, 99_999).answer, Value::Undefined));
    assert!(registry.bound_socket(handle).is_none());
    assert!(Arc::ptr_eq(&registry.bound_socket(other).unwrap(), &socket));
    let refused = js_dgram_bind(&registry, handle, 0, None);
    assert_eq!(refused.unwrap_err().message(), "dgram bind: invalid socket handle");
}

#[test]
fn address_of_a_bound_socket_is_asked_of_the_system() {
    let runtime = runtime();
    let mut registry = Registry::new();
    let (handle, socket) = bound(&runtime, &mut registry, "udp4");
    match js_dgram_address(&registry, handle) {
        Step::Perform(asked) => assert!(Arc::ptr_eq(&asked, &socket)),
        Step::Done(value) => panic!("{:?}", value),
    }
    assert!(finish_address(None).is_null());
    let local = SocketAddress::V4 { ip: 0x7f00_0001, port: 8000 };
    match finish_address(Some(local)) {
        Value::Object(fields) => {
            assert!(matches!(&fields[0].value, Value::Text(ip) if ip == "127.0.0.1"));
            assert!(matches!(&fields[1].value, Value::Text(family) if family == "IPv4"));
            assert!(matches!(fields[2].value, Value::Number(8000)));
        }
        other => panic!("{:?}", other),
    }
}

/// Port 0 lets the system choose a port, which `address` then reports, the same each time.
#[test]
fn address_reads_back_the_bind() {
    let runtime = runtime();
    let mut registry = Registry::new();
    let handle = js_dgram_create_socket(&mut registry, Some(b"udp4"));
    let target = js_dgram_bind(&registry, handle, 0, None).unwrap();
    assert_eq!(target, "0.0.0.0:0");
    let socket = system_socket(&runtime, &target);
    assert!(finish_bind(&mut registry, handle, Ok(socket)).is_ok());
    let read = || {
        let local = match js_dgram_address(&registry, handle) {
            Step::Perform(socket) => socket.local_addr().unwrap(),
            Step::Done(value) => panic!("{:?}", value),
        };
        assert!(local.is_ipv4() && local.ip().is_unspecified());
        match finish_address(Some(SocketAddress::V4 { ip: 0, port: local.port() })) {
            Value::Object(fields) => {
                assert!(matches!(&fields[0].value, Value::Text(ip) if ip == "0.0.0.0"));
                assert!(matches!(&fields[1].value, Value::Text(family) if family == "IPv4"));
                match fields[2].value {
                    Value::Number(port) => port,
                    _ => panic!("the port is a number"),
                }
            }
            other => panic!("{:?}", other),
        }
    };
    let port = read();
    assert_ne!(port, 0);
    assert_eq!(read(), port);
}

#[test]
fn broadcast_option_is_passed_on() {
    let runtime = runtime();
    let mut registry = Registry::new();
    let (handle, socket) = bound(&runtime, &mut registry, "udp4");
    for flag in [true, false] {
        match js_dgram_set_broadcast(&registry, handle, flag) {
            Step::Perform(request) => {
                assert!(Arc::ptr_eq(&request.socket, &socket));
                assert_eq!(request.enabled, flag);
                assert_eq!(status(request.socket.set_broadcast(request.enabled).is_ok()), 1);
                assert_eq!(socket.broadcast().unwrap(), flag);
            }
            Step::Done(answer) => panic!("{}", answer),
        }
    }
    assert_eq!(status(false), 0);
}

#[test]
fn ipv4_membership_names_group_and_interface() {
    let runtime = runtime();
    let mut registry = Registry::new();
    let (handle, socket) = bound(&runtime, &mut registry, "udp4");
    let add = |multi: &[u8], iface: Option<&[u8]>| {
        match js_dgram_add_membership(&registry, handle, Some(multi), iface) {
            Step::Perform(MembershipRequest::V4(membership)) => {
                assert!(Arc::ptr_eq(&membership.socket, &socket));
                assert!(membership.join);
                Some((membership.group, membership.interface))
            }
            Step::Perform(MembershipRequest::V6(_)) => panic!("an IPv4 request is due"),
            Step::Done(answer) => {
                assert_eq!(answer, 0);
                None
            }
        }
    };
    let group: u32 = 0xe000_00fb;
    assert_eq!(add(b"224.0.0.251", None), Some((group, 0)));
    assert_eq!(add(b"224.0.0.251", Some(b"")), Some((group, 0)));
    assert_eq!(add(b"224.0.0.251", Some(&[0xff])), Some((group, 0)));
    assert_eq!(add(b"224.0.0.251", Some(b"192.168.1.10")), Some((group, 0xc0a8_010a)));
    assert_eq!(add(b"224.0.0.251", Some(b"eth0")), None);
    assert_eq!(add(b"ff02::fb", None), None);
    assert_eq!(add(b"224.0.0.256", Some(b"10.0.0.1")), None);
    assert_eq!(add(b"", None), None);
    assert_eq!(add(&[0xff], None), None);
}

#[test]
fn ipv6_membership_names_group_and_interface() {
    let runtime = runtime();
    let mut registry = Registry::new();
    let (handle, socket) = bound(&runtime, &mut registry, "udp6");
    let add = |multi: &[u8], iface: Option<&[u8]>| {
        match js_dgram_add_membership(&registry, handle, Some(multi), iface) {
            Step::Perform(MembershipRequest::V6(membership)) => {
                assert!(Arc::ptr_eq(&membership.socket, &socket));
                assert!(membership.join);
                Some((membership.group, membership.interface_index))
            }
            Step::Perform(MembershipRequest::V4(_)) => panic!("an IPv6 request is due"),
            Step::Done(answer) => {
                assert_eq!(answer, 0);
                None
            }
        }
    };
    let group: u128 = 0xff02_0000_0000_0000_0000_0000_0000_00fb;
    assert_eq!(add(b"ff02::fb", None), Some((group, 0)));
    assert_eq!(add(b"FF02:0:0:0:0:0:0:00fb", Some(b"")), Some((group, 0)));
    assert_eq!(add(b"ff02::fb", Some(b"0")), Some((group, 0)));
    assert_eq!(add(b"ff02::fb", Some(b"3")), Some((group, 3)));
    assert_eq!(add(b"ff02::fb", Some(b"eth0")), Some((group, 0)));
    assert_eq!(add(b"ff02::fb", Some(b"4294967296")), Some((group, 0)));
    assert_eq!(add(b"::ffff:1.2.3.4", None), Some((0xffff_0102_0304, 0)));
    assert_eq!(add(b"224.0.0.251", None), None);
    assert_eq!(add(b"[ff02::fb]", None), None);
    assert_eq!(add(b"ff02:::fb", None), None);
    assert_eq!(add(b"", None), None);
}

#[test]
fn membership_needs_a_group() {
    let runtime = runtime();
    let socket = system_socket(&runtime, "0.0.0.0:0");
    assert!(matches!(v4_membership(socket.clone(), None, Some(0), true), Step::Done(0)));
    assert!(matches!(v4_membership(socket.clone(), Some(1), None, true), Step::Done(0)));
    assert!(matches!(v6_membership(socket.clone(), None, 0, true), Step::Done(0)));
    match v6_membership(socket.clone(), Some(5), 2, false) {
        Step::Perform(MembershipRequest::V6(membership)) => {
            assert!(Arc::ptr_eq(&membership.socket, &socket));
            assert_eq!((membership.group, membership.interface_index), (5, 2));
            assert!(!membership.join);
        }
        _ => panic!("an IPv6 request is due"),
    }
}

#[test]
fn leaving_mirrors_joining() {
    let runtime = runtime();
    let mut registry = Registry::new();
    let (four, _) = bound(&runtime, &mut registry, "udp4");
    let (six, _) = bound(&runtime, &mut registry, "udp6");
    match (
        js_dgram_add_membership(&registry, four, Some(b"224.0.0.1"), Some(b"10.0.0.1")),
        js_dgram_drop_membership(&registry, four, Some(b"224.0.0.1"), Some(b"10.0.0.1")),
    ) {
        (Step::Perform(MembershipRequest::V4(add)), Step::Perform(MembershipRequest::V4(drop))) => {
            assert_eq!(add.group, drop.group);
            assert_eq!(add.interface, drop.interface);
            assert!(add.join && !drop.join);
        }
        _ => panic!("two IPv4 requests are due"),
    }
    match (
        js_dgram_add_membership(&registry, six, Some(b"ff02::1"), Some(b"7")),
        js_dgram_drop_membership(&registry, six, Some(b"ff02::1"), Some(b"7")),
    ) {
        (Step::Perform(MembershipRequest::V6(add)), Step::Perform(MembershipRequest::V6(drop))) => {
            assert_eq!(add.group, drop.group);
            assert_eq!(add.group, 0xff02_0000_0000_0000_0000_0000_0000_0001);
            assert_eq!(add.interface_index, 7);
            assert_eq!(drop.interface_index, 7);
            assert!(add.join && !drop.join);
        }
        _ => panic!("two IPv6 requests are due"),
    }
    let empty = js_dgram_drop_membership(&registry, four, Some(b""), None);
    assert!(matches!(empty, Step::Done(0)));
    let unknown = js_dgram_drop_membership(&registry, 99_999, Some(b"224.0.0.1"), None);
    assert!(matches!(unknown, Step::Done(0)));
}

/// The echo exchange, with the wire between the two sockets played by hand: a client sends a
/// datagram, and the server sends it back to where it came from.
#[test]
fn datagrams_are_echoed() {
    let runtime = runtime();
    let mut registry = Registry::new();
    let (server, _) = bound(&runtime, &mut registry, "udp6");
    let (client, _) = bound(&runtime, &mut registry, "udp6");
    let hello = js_dgram_send(&registry, client, Some(b"hello, server!"), 8000, Some(b"::1")).unwrap();
    assert_eq!(hello.destination, "[::1]:8000");
    assert!(matches!(finish_send(Operation::Send, Ok(hello.payload.len())), Ok(Value::Number(14))));
    let request = js_dgram_recv(&registry, server, 65_536).unwrap();
    let mut buffer = vec![0u8; request.capacity];
    buffer[..hello.payload.len()].copy_from_slice(&hello.payload);
    let from = SocketAddress::V6 { ip: 0xfe80_0000_0000_0000_0000_0000_0000_0007, port: 40_000 };
    let received = Received { buffer, filled: hello.payload.len(), from };
    let message = finish_recv(&registry, server, Ok(received)).unwrap();
    let (msg, address, port) = match &message {
        Value::Object(fields) => match (&fields[0].value, &fields[1].value) {
            (Value::Bytes(msg), Value::Object(info)) => match (&info[0].value, &info[2].value) {
                (Value::Text(address), Value::Number(port)) => (msg.clone(), address.clone(), *port as u16),
                other => panic!("{:?}", other),
            },
            other => panic!("{:?}", other),
        },
        other => panic!("{:?}", other),
    };
    let reply =
        js_dgram_send_buffer(&registry, server, Some(&msg), port, Some(address.as_bytes())).unwrap();
    assert_eq!(reply.payload, b"hello, server!");
    assert_eq!(reply.destination, "[fe80::7]:40000");
    js_dgram_close(&mut registry, client);
    assert!(js_dgram_recv(&registry, client, 65_536).is_err());
}
