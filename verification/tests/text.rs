use dgram::address::{bind_target, default_bind_addr, send_target, SocketAddress};
use dgram::error::{Operation, Reason, Rejection};
use dgram::ipv4::{dotted_text, parse_ipv4};
use dgram::text::{
    contains_char, decimal_text, is_null_address, parse_u32, read_str, starts_with_char,
};
use dgram::value::{address_info, endpoint_fields, incoming_message, remote_info, Value};

/// `default_bind_addr` picks the right wildcard for each family.
#[test]
fn default_bind_addr_per_family() {
    assert_eq!(default_bind_addr(false), "0.0.0.0");
    assert_eq!(default_bind_addr(true), "::");
}

#[test]
fn decimal_text_has_no_leading_zeros() {
    assert_eq!(decimal_text(0), "0");
    assert_eq!(decimal_text(7), "7");
    assert_eq!(decimal_text(10), "10");
    assert_eq!(decimal_text(8000), "8000");
    assert_eq!(decimal_text(65_535), "65535");
}

#[test]
fn decimal_text_agrees_with_std_and_reads_back() {
    let mut n: u16 = 0;
    loop {
        assert_eq!(decimal_text(n), n.to_string());
        assert_eq!(parse_u32(&decimal_text(n)), Some(n as u32));
        if n == u16::MAX {
            return;
        }
        n += 1;
    }
}

#[test]
fn parse_u32_agrees_with_std() {
    let cases = [
        "", "+", "-", "0", "+0", "-0", "7", "+7", "++7", "007", "42", " 42", "42 ", "4_2", "eth0",
        "0x10", "4294967295", "4294967296", "42949672950", "99999999999999999999999", "1+", "\u{661}",
        "00000000000000000000000000000001", "+4294967295", "lo", "1.0",
    ];
    for case in cases {
        assert_eq!(parse_u32(case), case.parse::<u32>().ok(), "{}", case);
    }
}

#[test]
fn parse_u32_reads_plain_numbers() {
    assert_eq!(parse_u32("12"), Some(12));
    assert_eq!(parse_u32("+12"), Some(12));
    assert_eq!(parse_u32("4294967295"), Some(4_294_967_295));
    assert_eq!(parse_u32("4294967296"), None);
    assert_eq!(parse_u32("+"), None);
    assert_eq!(parse_u32(""), None);
}

#[test]
fn character_tests_look_at_the_right_place() {
    assert!(contains_char("fe80::1", ':'));
    assert!(!contains_char("127.0.0.1", ':'));
    assert!(!contains_char("", ':'));
    assert!(starts_with_char("[::1]", '['));
    assert!(!starts_with_char("::1[", '['));
    assert!(!starts_with_char("", '['));
}

#[test]
fn read_str_decodes_utf8_only() {
    assert_eq!(read_str(None), None);
    assert_eq!(read_str(Some(b"")), Some(String::new()));
    assert_eq!(read_str(Some("h\u{e9}llo \u{1f600}".as_bytes())), Some("h\u{e9}llo \u{1f600}".to_string()));
    assert_eq!(read_str(Some(&[0xff, 0xfe])), None);
    // Overlong, truncated and surrogate encodings.
    assert_eq!(read_str(Some(&[0xc0, 0x80])), None);
    assert_eq!(read_str(Some(&[0xe2, 0x82])), None);
    assert_eq!(read_str(Some(&[0xed, 0xa0, 0x80])), None);
}

#[test]
fn low_addresses_are_null() {
    assert!(is_null_address(0));
    assert!(is_null_address(0xfff));
    assert!(!is_null_address(0x1000));
    assert!(!is_null_address(usize::MAX));
}

#[test]
fn bind_target_defaults_to_the_wildcard() {
    assert_eq!(bind_target(false, "", 8000), "0.0.0.0:8000");
    assert_eq!(bind_target(true, "", 8000), "[::]:8000");
    assert_eq!(bind_target(false, "", 0), "0.0.0.0:0");
}

#[test]
fn bind_target_brackets_ipv6_literals_of_ipv6_sockets() {
    assert_eq!(bind_target(true, "::1", 53), "[::1]:53");
    assert_eq!(bind_target(true, "[::1]", 53), "[::1]:53");
    assert_eq!(bind_target(true, "localhost", 53), "localhost:53");
    assert_eq!(bind_target(false, "127.0.0.1", 53), "127.0.0.1:53");
    // An IPv4 socket takes its address as it stands.
    assert_eq!(bind_target(false, "::1", 53), "::1:53");
}

#[test]
fn send_target_brackets_ipv6_literals() {
    assert_eq!(send_target("127.0.0.1", 8000), "127.0.0.1:8000");
    assert_eq!(send_target("example.org", 65_535), "example.org:65535");
    assert_eq!(send_target("fe80::1", 8000), "[fe80::1]:8000");
    assert_eq!(send_target("[fe80::1]", 8000), "[fe80::1]:8000");
}

#[test]
fn endpoints_of_different_ports_differ() {
    assert_ne!(send_target("10.0.0.1", 1), send_target("10.0.0.1", 11));
    assert_ne!(send_target("10.0.0.1", 11), send_target("10.0.0.11", 1));
}

#[test]
fn messages_name_the_operation_and_the_reason() {
    let message = |operation, reason| Rejection::new(operation, reason).message();
    assert_eq!(message(Operation::Bind, Reason::InvalidHandle), "dgram bind: invalid socket handle");
    assert_eq!(message(Operation::Bind, Reason::AlreadyBound), "dgram bind: socket already bound");
    assert_eq!(message(Operation::Bind, Reason::VanishedMidBind), "dgram bind: socket vanished mid-bind");
    assert_eq!(message(Operation::Send, Reason::NotBound), "dgram send: socket not bound");
    assert_eq!(message(Operation::Send, Reason::InvalidMessage), "dgram send: invalid msg");
    assert_eq!(message(Operation::Send, Reason::InvalidAddress), "dgram send: invalid address");
    assert_eq!(message(Operation::SendBuffer, Reason::InvalidBuffer), "dgram sendBuffer: invalid buffer");
    assert_eq!(message(Operation::SendBuffer, Reason::InvalidAddress), "dgram sendBuffer: invalid address");
    assert_eq!(message(Operation::Recv, Reason::InvalidHandle), "dgram recv: invalid socket handle");
    assert_eq!(message(Operation::Recv, Reason::Closed), "dgram recv: socket closed");
    assert_eq!(message(Operation::Recv, Reason::BufferAllocationFailed), "dgram recv: buffer allocation failed");
    assert_eq!(
        message(Operation::Bind, Reason::System("Address already in use (os error 48)".to_string())),
        "dgram bind: Address already in use (os error 48)"
    );
}

fn text_field(value: &Value, index: usize, name: &str) -> String {
    match value {
        Value::Object(fields) => {
            assert_eq!(fields[index].name, name);
            match &fields[index].value {
                Value::Text(text) => text.clone(),
                other => panic!("{} is {:?}", name, other),
            }
        }
        other => panic!("{:?} is no object", other),
    }
}

fn number_field(value: &Value, index: usize, name: &str) -> u64 {
    match value {
        Value::Object(fields) => {
            assert_eq!(fields[index].name, name);
            match &fields[index].value {
                Value::Number(number) => *number,
                other => panic!("{} is {:?}", name, other),
            }
        }
        other => panic!("{:?} is no object", other),
    }
}

#[test]
fn address_info_lists_address_family_port() {
    let v4 = address_info(SocketAddress::V4 { ip: 0x7f00_0001, port: 8000 });
    assert_eq!(text_field(&v4, 0, "address"), "127.0.0.1");
    assert_eq!(text_field(&v4, 1, "family"), "IPv4");
    assert_eq!(number_field(&v4, 2, "port"), 8000);
    let v6 = address_info(SocketAddress::V6 { ip: 1, port: 65_535 });
    assert_eq!(text_field(&v6, 0, "address"), "::1");
    assert_eq!(text_field(&v6, 1, "family"), "IPv6");
    assert_eq!(number_field(&v6, 2, "port"), 65_535);
    assert!(matches!(v6, Value::Object(fields) if fields.len() == 3));
}

#[test]
fn endpoint_fields_are_in_order() {
    let fields = endpoint_fields("10.1.2.3".to_string(), "IPv4", 7);
    let value = Value::Object(fields);
    assert_eq!(text_field(&value, 0, "address"), "10.1.2.3");
    assert_eq!(text_field(&value, 1, "family"), "IPv4");
    assert_eq!(number_field(&value, 2, "port"), 7);
}

#[test]
fn ipv6_addresses_are_written_in_canonical_form() {
    let text = |ip| SocketAddress::V6 { ip, port: 0 }.into_parts().0;
    assert_eq!(text(0), "::");
    assert_eq!(text(1), "::1");
    assert_eq!(text(0xff02_0000_0000_0000_0000_0000_0000_00fb), "ff02::fb");
    assert_eq!(text(0x2001_0db8_0000_0001_0000_0000_0000_0001), "2001:db8:0:1::1");
    assert_eq!(text(u128::MAX), "ffff:ffff:ffff:ffff:ffff:ffff:ffff:ffff");
}

#[test]
fn replies_to_every_family_name_the_sender() {
    let target = |address: SocketAddress| {
        let (ip, _, port) = address.into_parts();
        send_target(&ip, port)
    };
    assert_eq!(target(SocketAddress::V4 { ip: 0x7f00_0001, port: 40_000 }), "127.0.0.1:40000");
    assert_eq!(target(SocketAddress::V6 { ip: 1, port: 40_000 }), "[::1]:40000");
    assert_eq!(target(SocketAddress::V6 { ip: 0xffff_0102_0304, port: 9 }), "[::ffff:1.2.3.4]:9");
}

#[test]
fn remote_info_adds_the_size() {
    let info = remote_info(SocketAddress::V6 { ip: 0xfe80_0000_0000_0000_0000_0000_0000_0001, port: 9 }, 14);
    assert_eq!(text_field(&info, 0, "address"), "fe80::1");
    assert_eq!(text_field(&info, 1, "family"), "IPv6");
    assert_eq!(number_field(&info, 2, "port"), 9);
    assert_eq!(number_field(&info, 3, "size"), 14);
    assert!(matches!(info, Value::Object(fields) if fields.len() == 4));
}

#[test]
fn incoming_message_holds_bytes_and_sender() {
    let from = SocketAddress::V4 { ip: 0x0a00_0007, port: 40_000 };
    match incoming_message(vec![1, 2, 255], from) {
        Value::Object(fields) => {
            assert_eq!(fields.len(), 2);
            assert_eq!(fields[0].name, "msg");
            assert!(matches!(&fields[0].value, Value::Bytes(bytes) if *bytes == vec![1, 2, 255]));
            assert_eq!(fields[1].name, "rinfo");
            assert_eq!(number_field(&fields[1].value, 3, "size"), 3);
            assert_eq!(text_field(&fields[1].value, 0, "address"), "10.0.0.7");
        }
        other => panic!("{:?}", other),
    }
}

#[test]
fn ipv4_addresses_are_written_in_dot_decimal() {
    assert_eq!(dotted_text(0), "0.0.0.0");
    assert_eq!(dotted_text(0x7f00_0001), "127.0.0.1");
    assert_eq!(dotted_text(0xe000_00fb), "224.0.0.251");
    assert_eq!(dotted_text(0xffff_ffff), "255.255.255.255");
}

#[test]
fn ipv4_texts_read_back() {
    let mut ip: u32 = 0;
    for _ in 0..2000 {
        assert_eq!(parse_ipv4(&dotted_text(ip)), Some(ip));
        ip = ip.wrapping_mul(1_664_525).wrapping_add(1_013_904_223);
    }
    assert_eq!(parse_ipv4("192.168.1.10"), Some(0xc0a8_010a));
}

#[test]
fn other_texts_are_no_ipv4_addresses() {
    let cases = [
        "", ".", "...", "1.2.3", "1.2.3.", ".1.2.3", "1..2.3", "1.2.3.4.", "1.2.3.4.5", "256.0.0.1",
        "1.2.3.256", "01.2.3.4", "1.2.3.04", "00.0.0.0", "1.2.3.4 ", " 1.2.3.4", "+1.2.3.4",
        "1.2.3.-4", "0x7f.0.0.1", "127.1", "2130706433", "1,2,3,4", "eth0", "::1", "a1.2.3.4",
        "1.2.3.4294967300", "\u{661}.2.3.4",
    ];
    for case in cases {
        assert_eq!(parse_ipv4(case), None, "{}", case);
    }
}

#[test]
fn only_null_is_null() {
    assert!(Value::Null.is_null());
    assert!(!Value::Undefined.is_null());
    assert!(!Value::Number(0).is_null());
}
