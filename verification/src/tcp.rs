//! GELF over TCP: each payload is one frame on the stream, ended by a null
//! byte, and never chunked.

use crate::address::{first_resolved, SocketAddress};
use crate::error::{Error, Misconfiguration};
use crate::transmission::{Transmission, TransmissionView};
use crate::Destination;
use vstd::prelude::*;

verus! {

/// The byte that ends a frame.
pub const FRAME_DELIMITER: u8 = 0;

/// The frame of a payload: the payload and the null byte behind it.
pub open spec fn frame_of(payload: Seq<u8>) -> Seq<u8> {
    payload.push(FRAME_DELIMITER)
}

/// A collector that is reached over one stream connection.
#[derive(Clone, Copy, Debug)]
pub struct TcpDestination {
    destination: SocketAddress,
}

impl TcpDestination {
    /// The address that the connection is made to.
    pub closed spec fn spec_destination(&self) -> SocketAddress {
        self.destination
    }

    /// The destination at the first of the addresses that its name resolved
    /// to. A name that resolved to no address is refused.
    pub fn new(resolved: Vec<SocketAddress>) -> (result: Result<TcpDestination, Error>)
        ensures
            resolved@.len() == 0 ==> result == Err::<TcpDestination, Error>(
                Error::InvalidConfiguration(Misconfiguration::NoDestination),
            ),
            resolved@.len() > 0 ==> result is Ok && result->Ok_0.destination() == resolved@[0],
    {
        match first_resolved(&resolved) {
            Ok(destination) => Ok(TcpDestination { destination }),
            Err(error) => Err(error),
        }
    }

    /// The address that the connection is made to.
    #[verifier::when_used_as_spec(spec_destination)]
    pub fn destination(&self) -> (destination: SocketAddress)
        ensures
            destination == self.spec_destination(),
    {
        self.destination
    }
}

impl Destination for TcpDestination {
    /// Starts the sending of `message` as one frame: the payload with a null
    /// byte behind it, in one write.
    fn log(&self, message: Vec<u8>) -> (started: Result<Transmission, Error>)
        ensures
            started is Ok,
            started->Ok_0@ == TransmissionView::fresh(seq![frame_of(message@)]),
    {
        let mut frame = message;
        frame.push(FRAME_DELIMITER);
        Ok(Transmission::framed(frame))
    }
}

} // verus!
