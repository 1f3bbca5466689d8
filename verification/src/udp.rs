//! GELF over UDP: each chunk of a message is one datagram.

use crate::address::{first_resolved, SocketAddress};
use crate::chunked::{ChunkSize, ChunkedMessage};
use crate::error::{Error, Misconfiguration};
use crate::format::{refusal, ChunkedMessageView};
use crate::id::ChunkedMessageId;
use crate::transmission::{Transmission, TransmissionView};
use crate::Destination;
use vstd::prelude::*;

verus! {

/// A collector that is reached by datagrams: its address, and the chunk size
/// for the payloads sent to it.
#[derive(Clone, Copy, Debug)]
pub struct UdpDestination {
    destination: SocketAddress,
    chunk_size: ChunkSize,
}

impl UdpDestination {
    /// The address that datagrams are sent to.
    pub closed spec fn spec_destination(&self) -> SocketAddress {
        self.destination
    }

    /// The chunk size for the payloads.
    pub closed spec fn spec_chunk_size(&self) -> ChunkSize {
        self.chunk_size
    }

    /// The destination at the first of the addresses that its name resolved
    /// to. A name that resolved to no address is refused.
    pub fn new(resolved: Vec<SocketAddress>, chunk_size: ChunkSize) -> (result: Result<
        UdpDestination,
        Error,
    >)
        ensures
            resolved@.len() == 0 ==> result == Err::<UdpDestination, Error>(
                Error::InvalidConfiguration(Misconfiguration::NoDestination),
            ),
            resolved@.len() > 0 ==> result is Ok && result->Ok_0.destination() == resolved@[0]
                && result->Ok_0.chunk_size() == chunk_size,
    {
        match first_resolved(&resolved) {
            Ok(destination) => Ok(UdpDestination { destination, chunk_size }),
            Err(error) => Err(error),
        }
    }

    /// The address that datagrams are sent to.
    #[verifier::when_used_as_spec(spec_destination)]
    pub fn destination(&self) -> (destination: SocketAddress)
        ensures
            destination == self.spec_destination(),
    {
        self.destination
    }

    /// The chunk size for the payloads.
    #[verifier::when_used_as_spec(spec_chunk_size)]
    pub fn chunk_size(&self) -> (chunk_size: ChunkSize)
        ensures
            chunk_size == self.spec_chunk_size(),
    {
        self.chunk_size
    }

    /// The local address to bind the sending socket to: the wildcard address
    /// of the destination's family, with port 0.
    pub fn local_address(&self) -> (local: &'static str)
        ensures
            local@ == self.destination().family().spec_wildcard(),
    {
        self.destination.family().wildcard()
    }

    /// Starts the sending of `message` in chunks that carry the identifier
    /// `id`: one datagram for each chunk, in the order of the sequence
    /// numbers. A payload that the chunk size cannot carry is refused.
    pub fn log_with_id(&self, message: Vec<u8>, id: ChunkedMessageId) -> (started: Result<
        Transmission,
        Error,
    >)
        ensures
            match refusal(self.chunk_size().size() as int, message@.len() as int) {
                Some(error) => started == Err::<Transmission, Error>(error),
                None => started is Ok && started->Ok_0@ == TransmissionView::fresh(
                    (ChunkedMessageView {
                        chunk_size: self.chunk_size().size() as int,
                        payload: message@,
                        id: id@,
                    }).chunks(),
                ),
            },
    {
        match ChunkedMessage::with_id(self.chunk_size, message, id) {
            Ok(chunked) => Ok(Transmission::chunked(chunked)),
            Err(error) => Err(error),
        }
    }
}

impl Destination for UdpDestination {
    /// Starts the sending of `message` in chunks under a random identifier:
    /// one datagram for each chunk, in the order of the sequence numbers. A
    /// payload that the chunk size cannot carry is refused.
    fn log(&self, message: Vec<u8>) -> (started: Result<Transmission, Error>)
        ensures
            match refusal(self.chunk_size().size() as int, message@.len() as int) {
                Some(error) => started == Err::<Transmission, Error>(error),
                None => started is Ok && exists|id: Seq<u8>|
                    id.len() == 8 && started->Ok_0@ == TransmissionView::fresh(
                        #[trigger] (ChunkedMessageView {
                            chunk_size: self.chunk_size().size() as int,
                            payload: message@,
                            id,
                        }).chunks(),
                    ),
            },
    {
        match ChunkedMessage::new(self.chunk_size, message) {
            Ok(chunked) => {
                assert(chunked@ == (ChunkedMessageView {
                    chunk_size: self.chunk_size().size() as int,
                    payload: message@,
                    id: chunked@.id,
                }));
                Ok(Transmission::chunked(chunked))
            },
            Err(error) => Err(error),
        }
    }
}

} // verus!
