//! Client-side encoding for the Graylog Extended Log Format (GELF): the
//! chunking of oversized payloads into self-describing datagrams, and the
//! accounting by which a UDP or TCP transport decides whether a payload left
//! the machine completely.
//!
//! The library computes and decides; it opens no socket. A caller takes the
//! wire units from a [`transmission::Transmission`], writes each to its own
//! socket, and reports what the socket layer said.

use vstd::prelude::*;

pub mod address;
pub mod chunked;
pub mod error;
pub mod format;
pub mod id;
pub mod level;
pub mod message;
pub mod tcp;
pub mod transmission;
pub mod udp;

use crate::address::SocketAddress;
use crate::chunked::ChunkSize;
use crate::error::{Error, Misconfiguration};
use crate::level::Level;
use crate::message::{Message, Timestamp};
use crate::transmission::Transmission;
use crate::udp::UdpDestination;

verus! {

/// Something that a finished payload can be sent to.
pub trait Destination {
    /// Starts the sending of `message`, or says why it cannot be sent. No
    /// unit of the transmission is written yet.
    fn log(&self, message: Vec<u8>) -> (started: Result<Transmission, Error>)
        ensures
            started is Ok ==> started->Ok_0@.position == 0 && started->Ok_0@.accepted == 0,
    ;
}

/// The version of GELF that the documents follow.
pub const VERSION: &'static str = "1.1";

/// The key and value pairs that a log event brings along, in the order in
/// which they were emitted.
pub struct KeyValueList(pub Vec<(&'static str, String)>);

impl KeyValueList {
    /// A list with no pair in it.
    pub fn new() -> (list: KeyValueList)
        ensures
            list.0@ == Seq::<(&'static str, String)>::empty(),
    {
        KeyValueList(Vec::new())
    }

    /// Puts a pair behind the others.
    pub fn emit(&mut self, key: &'static str, value: String)
        ensures
            final(self).0@ == old(self).0@.push((key, value)),
    {
        self.0.push((key, value));
    }
}

/// A source of log events and the destination that they are sent to.
pub struct Gelf<D: Destination> {
    source: String,
    destination: D,
}

impl Gelf<UdpDestination> {
    /// Events of `source` for the collector at the first of the addresses
    /// that its name resolved to, sent as datagrams with chunks sized for a
    /// local network. A name that resolved to no address is refused.
    pub fn with_udp(source: &str, resolved: Vec<SocketAddress>) -> (result: Result<
        Gelf<UdpDestination>,
        Error,
    >)
        ensures
            resolved@.len() == 0 ==> result is Err && result->Err_0
                == Error::InvalidConfiguration(Misconfiguration::NoDestination),
            resolved@.len() > 0 ==> result is Ok && result->Ok_0.spec_source() == source@
                && result->Ok_0.destination().destination() == resolved@[0]
                && result->Ok_0.destination().chunk_size() == ChunkSize::LAN,
    {
        match UdpDestination::new(resolved, ChunkSize::LAN) {
            Ok(destination) => Ok(Gelf { source: source.to_owned(), destination }),
            Err(error) => Err(error),
        }
    }

    /// As `with_udp`, which is the name to use.
    pub fn new(source: &str, resolved: Vec<SocketAddress>) -> (result: Result<
        Gelf<UdpDestination>,
        Error,
    >)
        ensures
            resolved@.len() == 0 ==> result is Err && result->Err_0
                == Error::InvalidConfiguration(Misconfiguration::NoDestination),
            resolved@.len() > 0 ==> result is Ok && result->Ok_0.spec_source() == source@
                && result->Ok_0.destination().destination() == resolved@[0]
                && result->Ok_0.destination().chunk_size() == ChunkSize::LAN,
    {
        Gelf::with_udp(source, resolved)
    }
}

impl<D: Destination> Gelf<D> {
    /// The name of the host that the events come from.
    pub closed spec fn spec_source(&self) -> Seq<char> {
        self.source@
    }

    /// The destination that the events are sent to.
    pub closed spec fn spec_destination(&self) -> &D {
        &self.destination
    }

    /// The name of the host that the events come from.
    pub fn source(&self) -> (source: &str)
        ensures
            source@ == self.spec_source(),
    {
        self.source.as_str()
    }

    /// The destination that the events are sent to.
    #[verifier::when_used_as_spec(spec_destination)]
    pub fn destination(&self) -> (destination: &D)
        ensures
            destination == self.spec_destination(),
    {
        &self.destination
    }

    /// The document of one log event of this source: it has the GELF
    /// version, the source as host, the event's message, time, level and
    /// place in the code, and the pairs that the event brought along. It has
    /// no full message and no column.
    pub fn message(
        &self,
        short_message: String,
        timestamp: Timestamp,
        level: Level,
        module: &'static str,
        file: &'static str,
        line: u32,
        additional: KeyValueList,
    ) -> (message: Message<'_>)
        ensures
            message.version@ == VERSION@,
            message.host@ == self.spec_source(),
            message.short_message == short_message,
            message.full_message is None,
            message.timestamp == Some(timestamp),
            message.level == Some(level),
            message.module == Some(module),
            message.file == Some(file),
            message.line == Some(line),
            message.column is None,
            message.additional == additional.0,
    {
        Message {
            version: VERSION,
            host: self.source.as_str(),
            short_message,
            full_message: None,
            timestamp: Some(timestamp),
            level: Some(level),
            module: Some(module),
            file: Some(file),
            line: Some(line),
            column: None,
            additional: additional.0,
        }
    }
}

} // verus!
