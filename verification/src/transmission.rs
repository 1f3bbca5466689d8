//! The sending of one payload, step by step: which bytes go on the wire
//! next, what the socket layer said of each write, and whether in the end
//! everything was accepted.
//!
//! The library decides and counts; the caller owns the socket. The caller
//! asks for the next [`Action`], performs it, and reports what came of it.

use crate::chunked::ChunkedMessage;
use crate::format::{total_len, MAX_CHUNKS};
use crate::error::Error;
use vstd::prelude::*;

verus! {

/// What the socket layer said of one write.
#[derive(Clone, Copy, Debug, PartialEq, Eq, Structural)]
pub enum SendOutcome {
    /// The write returned, and took this many bytes.
    Accepted(usize),
    /// The write failed.
    Failed,
}

impl SendOutcome {
    /// The bytes that the write counts for: a failed write counts for none.
    pub open spec fn spec_bytes(self) -> usize {
        match self {
            SendOutcome::Accepted(bytes) => bytes,
            SendOutcome::Failed => 0,
        }
    }

    /// The bytes that the write counts for: a failed write counts for none.
    #[verifier::when_used_as_spec(spec_bytes)]
    pub fn bytes(self) -> (bytes: usize)
        ensures
            bytes == self.spec_bytes(),
    {
        match self {
            SendOutcome::Accepted(bytes) => bytes,
            SendOutcome::Failed => 0,
        }
    }
}

/// The bytes that the given writes count for together.
pub open spec fn total_accepted(outcomes: Seq<SendOutcome>) -> int
    decreases outcomes.len(),
{
    if outcomes.len() == 0 {
        0
    } else {
        total_accepted(outcomes.drop_last()) + outcomes.last().bytes()
    }
}

/// What the caller is to do next.
#[derive(Debug, PartialEq, Eq)]
pub enum Action {
    /// Write these bytes in one piece, and report the outcome.
    Send(Vec<u8>),
    /// Nothing is left to write: this is the result of the transmission.
    Finish(Result<(), Error>),
}

/// What a transmission is, to the contracts: the wire units in their order,
/// how many of them have been written and reported, and the bytes that those
/// writes count for.
pub struct TransmissionView {
    pub units: Seq<Seq<u8>>,
    pub position: int,
    pub accepted: int,
}

impl TransmissionView {
    /// A transmission of the given units of which nothing is written yet.
    pub open spec fn fresh(units: Seq<Seq<u8>>) -> TransmissionView {
        TransmissionView { units, position: 0, accepted: 0 }
    }

    /// The bytes that are to be accepted in all.
    pub open spec fn expected(self) -> int {
        total_len(self.units)
    }

    /// Whether every unit has been written and reported.
    pub open spec fn done(self) -> bool {
        self.position >= self.units.len()
    }

    /// The result of the transmission: success where exactly the expected
    /// number of bytes was accepted.
    pub open spec fn verdict(self) -> Result<(), Error> {
        if self.accepted == self.expected() {
            Ok(())
        } else {
            Err(Error::TransmissionIncomplete)
        }
    }

    /// The transmission after the write of the next unit had the given
    /// outcome. Once every unit has been reported, nothing changes any more.
    pub open spec fn record(self, outcome: SendOutcome) -> TransmissionView {
        if self.done() {
            self
        } else {
            TransmissionView {
                units: self.units,
                position: self.position + 1,
                accepted: self.accepted + outcome.bytes(),
            }
        }
    }

    /// The transmission after the given outcomes, reported in their order.
    pub open spec fn run(self, outcomes: Seq<SendOutcome>) -> TransmissionView
        decreases outcomes.len(),
    {
        if outcomes.len() == 0 {
            self
        } else {
            self.run(outcomes.drop_last()).record(outcomes.last())
        }
    }

    /// After the first outcomes of a fresh transmission, as many units are
    /// written as outcomes were reported, and the bytes they count for are
    /// added up, failed writes counting for none.
    pub proof fn lemma_run_counts(units: Seq<Seq<u8>>, outcomes: Seq<SendOutcome>)
        requires
            outcomes.len() <= units.len(),
        ensures
            Self::fresh(units).run(outcomes) == (TransmissionView {
                units,
                position: outcomes.len() as int,
                accepted: total_accepted(outcomes),
            }),
        decreases outcomes.len(),
    {
        if outcomes.len() > 0 {
            Self::lemma_run_counts(units, outcomes.drop_last());
        }
    }

    /// Once one outcome is reported for each unit, the transmission is done,
    /// and it succeeded if and only if the bytes accepted, over all writes,
    /// are as many as the units have together.
    pub proof fn lemma_run_verdict(units: Seq<Seq<u8>>, outcomes: Seq<SendOutcome>)
        requires
            outcomes.len() == units.len(),
        ensures
            Self::fresh(units).run(outcomes).done(),
            Self::fresh(units).run(outcomes).verdict() is Ok <==> total_accepted(outcomes)
                == total_len(units),
            Self::fresh(units).run(outcomes).verdict() is Err ==> Self::fresh(units).run(
                outcomes,
            ).verdict() == Err::<(), Error>(Error::TransmissionIncomplete),
    {
        Self::lemma_run_counts(units, outcomes);
    }
}

/// How the payload goes on the wire.
enum Wire {
    /// As the chunks of a message, one datagram each.
    Chunked(ChunkedMessage),
    /// As one frame.
    Framed(Vec<u8>),
}

/// The sending of one payload.
pub struct Transmission {
    wire: Wire,
    count: usize,
    position: usize,
    accepted: u128,
}

impl View for Transmission {
    type V = TransmissionView;

    closed spec fn view(&self) -> TransmissionView {
        TransmissionView {
            units: match self.wire {
                Wire::Chunked(message) => message@.chunks(),
                Wire::Framed(frame) => seq![frame@],
            },
            position: self.position as int,
            accepted: self.accepted as int,
        }
    }
}

impl Transmission {
    #[verifier::type_invariant]
    spec fn well_formed(self) -> bool {
        &&& self.count == self@.units.len()
        &&& self.count <= MAX_CHUNKS
        &&& self.position <= self.count
        &&& self.accepted <= self.position * u64::MAX
        &&& (self.wire matches Wire::Chunked(message) ==> message@.valid())
    }

    /// The transmission of a message chunk by chunk, of which nothing is
    /// written yet.
    pub fn chunked(message: ChunkedMessage) -> (transmission: Transmission)
        ensures
            transmission@ == TransmissionView::fresh(message@.chunks()),
    {
        let count: usize = message.num_chunks() as usize;
        Transmission { wire: Wire::Chunked(message), count, position: 0, accepted: 0 }
    }

    /// The transmission of one frame in one write, of which nothing is
    /// written yet.
    pub fn framed(frame: Vec<u8>) -> (transmission: Transmission)
        ensures
            transmission@ == TransmissionView::fresh(seq![frame@]),
    {
        Transmission { wire: Wire::Framed(frame), count: 1, position: 0, accepted: 0 }
    }

    /// The bytes that are to be accepted in all.
    pub fn expected(&self) -> (expected: usize)
        ensures
            expected == self@.expected(),
    {
        proof {
            use_type_invariant(self);
        }
        match &self.wire {
            Wire::Chunked(message) => {
                proof {
                    message@.lemma_wire_length_is_sum();
                }
                message.len()
            },
            Wire::Framed(frame) => {
                assert(seq![frame@].drop_last() =~= Seq::<Seq<u8>>::empty());
                assert(total_len(seq![frame@]) == frame@.len()) by {
                    reveal_with_fuel(total_len, 2);
                }
                frame.len()
            },
        }
    }

    /// What is to be done next: write the next unit, or take the result.
    pub fn action(&self) -> (action: Action)
        ensures
            !self@.done() ==> (action matches Action::Send(bytes) && bytes@
                == self@.units[self@.position]),
            self@.done() ==> action == Action::Finish(self@.verdict()),
    {
        proof {
            use_type_invariant(self);
        }
        if self.position < self.count {
            match &self.wire {
                Wire::Chunked(message) => {
                    match message.chunk(self.position as u8) {
                        Some(bytes) => {
                            return Action::Send(bytes);
                        },
                        None => {},
                    }
                },
                Wire::Framed(frame) => {
                    return Action::Send(frame.clone());
                },
            }
        }
        if self.accepted == self.expected() as u128 {
            Action::Finish(Ok(()))
        } else {
            Action::Finish(Err(Error::TransmissionIncomplete))
        }
    }

    /// Records what the socket layer said of the write of the next unit.
    /// Once every unit has been reported, a further report changes nothing.
    pub fn record(&mut self, outcome: SendOutcome)
        ensures
            final(self)@ == old(self)@.record(outcome),
    {
        proof {
            use_type_invariant(&*self);
        }
        if self.position < self.count {
            self.position = self.position + 1;
            self.accepted = self.accepted + outcome.bytes() as u128;
        }
    }
}

} // verus!
