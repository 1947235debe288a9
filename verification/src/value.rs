//! The values that operations answer with, as plain data.
use crate::address::{reaches, send_endpoint, SocketAddress};
use vstd::prelude::*;
use vstd::string::*;

verus! {

/// A value handed to the caller of an operation.
#[derive(Debug)]
pub enum Value {
    Undefined,
    Null,
    Number(u64),
    Text(String),
    Bytes(Vec<u8>),
    /// An object; its fields are in the order in which they are laid out.
    Object(Vec<Field>),
}

/// A named field of an object.
#[derive(Debug)]
pub struct Field {
    pub name: &'static str,
    pub value: Value,
}

impl Value {
    /// Whether this is the text `s`.
    pub open spec fn is_text(self, s: Seq<char>) -> bool {
        self matches Value::Text(text) && text@ == s
    }

    /// Whether this is the byte buffer `b`.
    pub open spec fn is_bytes(self, b: Seq<u8>) -> bool {
        self matches Value::Bytes(bytes) && bytes@ == b
    }

    /// The value of the field at position `i` of an object.
    pub open spec fn field(self, i: int) -> Value {
        self->Object_0@[i].value
    }

    /// Whether this describes the endpoint `address`: an object with the fields `address`,
    /// `family` and `port`.
    pub open spec fn describes_address(self, address: SocketAddress) -> bool {
        &&& self is Object
        &&& self->Object_0@.len() == 3
        &&& are_endpoint_fields(
            self->Object_0@,
            address.ip(),
            address.family(),
            address.port(),
        )
    }

    /// Whether this describes the sender of a datagram of `size` bytes: an object with the fields
    /// `address`, `family`, `port` and `size`, such that a datagram sent to the address and the port
    /// goes back to the sender.
    pub open spec fn describes_sender(self, address: SocketAddress, size: nat) -> bool {
        &&& self is Object
        &&& self->Object_0@.len() == 4
        &&& are_endpoint_fields(
            self->Object_0@,
            address.ip(),
            address.family(),
            address.port(),
        )
        &&& self->Object_0@[3].name@ == "size"@
        &&& self.field(3) matches Value::Number(n) && n == size
        &&& reaches(send_endpoint(address.ip(), address.port()), address)
    }

    /// Whether this is the datagram `msg` received from `address`: an object with the fields
    /// `msg` and `rinfo`.
    pub open spec fn describes_message(self, msg: Seq<u8>, address: SocketAddress) -> bool {
        &&& self is Object
        &&& self->Object_0@.len() == 2
        &&& self->Object_0@[0].name@ == "msg"@
        &&& self->Object_0@[1].name@ == "rinfo"@
        &&& self.field(0).is_bytes(msg)
        &&& self.field(1).describes_sender(address, msg.len())
    }

    /// Whether this is the null value.
    pub fn is_null(&self) -> (null: bool)
        ensures
            null == (*self is Null),
    {
        match self {
            Value::Null => true,
            _ => false,
        }
    }
}

/// Whether the first three of `fields` are `address`, `family` and `port`, with these values.
pub open spec fn are_endpoint_fields(
    fields: Seq<Field>,
    ip: Seq<char>,
    family: Seq<char>,
    port: u16,
) -> bool {
    &&& fields.len() >= 3
    &&& fields[0].name@ == "address"@ && fields[0].value.is_text(ip)
    &&& fields[1].name@ == "family"@ && fields[1].value.is_text(family)
    &&& fields[2].name@ == "port"@ && fields[2].value == Value::Number(port as u64)
}

/// The fields that describe an endpoint: the text of its IP address, its family and its port.
pub fn endpoint_fields(ip: String, family: &'static str, port: u16) -> (fields: Vec<Field>)
    ensures
        fields@.len() == 3,
        are_endpoint_fields(fields@, ip@, family@, port),
{
    let mut fields: Vec<Field> = Vec::new();
    fields.push(Field { name: "address", value: Value::Text(ip) });
    fields.push(Field { name: "family", value: Value::Text(family.to_owned()) });
    fields.push(Field { name: "port", value: Value::Number(port as u64) });
    fields
}

/// The object that describes the endpoint `address`.
pub fn address_info(address: SocketAddress) -> (value: Value)
    ensures
        value.describes_address(address),
{
    let (ip, family, port) = address.into_parts();
    Value::Object(endpoint_fields(ip, family, port))
}

/// The object that describes the sender of a datagram of `size` bytes.
pub fn remote_info(address: SocketAddress, size: usize) -> (value: Value)
    ensures
        value.describes_sender(address, size as nat),
{
    let (ip, family, port) = address.into_parts();
    let mut fields = endpoint_fields(ip, family, port);
    fields.push(Field { name: "size", value: Value::Number(size as u64) });
    Value::Object(fields)
}

/// The object that hands over the datagram `msg` received from `address`.
pub fn incoming_message(msg: Vec<u8>, address: SocketAddress) -> (value: Value)
    ensures
        value.describes_message(msg@, address),
{
    let rinfo = remote_info(address, msg.len());
    let mut fields: Vec<Field> = Vec::new();
    fields.push(Field { name: "msg", value: Value::Bytes(msg) });
    fields.push(Field { name: "rinfo", value: rinfo });
    Value::Object(fields)
}

} // verus!
