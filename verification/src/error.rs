//! The ways in which encoding or sending a payload can fail.

use vstd::prelude::*;

verus! {

/// What was wrong with a configuration.
#[derive(Clone, Copy, Debug, PartialEq, Eq, Structural)]
pub enum Misconfiguration {
    /// The chunk size is zero.
    ZeroChunkSize,
    /// The payload needs more chunks than one message may have.
    TooManyChunks,
    /// The destination resolved to no address.
    NoDestination,
}

/// The failure of an operation of this library.
#[derive(Clone, Copy, Debug, PartialEq, Eq, Structural)]
pub enum Error {
    /// The chunk size, the payload's size or the destination cannot be used.
    InvalidConfiguration(Misconfiguration),
    /// The bytes that the operating system accepted are not the bytes that
    /// were to be sent.
    TransmissionIncomplete,
}

impl Error {
    /// The sentence that describes the error.
    pub open spec fn spec_message(self) -> Seq<char> {
        match self {
            Error::InvalidConfiguration(Misconfiguration::ZeroChunkSize) => "Chunk size cannot be zero"@,
            Error::InvalidConfiguration(Misconfiguration::TooManyChunks) => "Number of chunks exceeds 128"@,
            Error::InvalidConfiguration(Misconfiguration::NoDestination) => "Invalid destination"@,
            Error::TransmissionIncomplete => "Invalid number of bytes sent"@,
        }
    }

    /// The sentence that describes the error.
    pub fn message(&self) -> (text: &'static str)
        ensures
            text@ == self.spec_message(),
    {
        match self {
            Error::InvalidConfiguration(Misconfiguration::ZeroChunkSize) => "Chunk size cannot be zero",
            Error::InvalidConfiguration(Misconfiguration::TooManyChunks) => "Number of chunks exceeds 128",
            Error::InvalidConfiguration(Misconfiguration::NoDestination) => "Invalid destination",
            Error::TransmissionIncomplete => "Invalid number of bytes sent",
        }
    }
}

} // verus!
