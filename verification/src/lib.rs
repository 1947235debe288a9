//! UDP datagram sockets behind integer handles.
//!
//! A [`registry::Registry`] holds the open sockets. The functions of [`operations`] decide what each
//! call does: they answer or refuse at once, or hand back a request for the system, whose outcome
//! then comes in through the matching `finish_` function. [`address`] writes the endpoints,
//! [`value`] the answers and [`error`] the messages of refusals; [`text`], [`ipv4`] and [`ipv6`]
//! read and write numbers, addresses and text arguments. [`laws`] states what holds of all of them
//! together, [`notation_laws`] and [`operation_laws`] what texts and operations are in plain terms,
//! and [`call_laws`] what each call does with its arguments.
pub mod address;
pub mod call_laws;
pub mod error;
pub mod ipv4;
pub mod ipv6;
pub mod laws;
pub mod notation_laws;
pub mod operation_laws;
pub mod operations;
pub mod registry;
pub mod text;
pub mod value;
