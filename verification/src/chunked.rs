//! Splitting one payload into GELF chunks.

use crate::error::{Error, Misconfiguration};
use crate::format::{
    chunk_count, chunk_header, lemma_chunk_count_is_ceiling, lemma_chunks_cover_at_most,
    lemma_slice_bounds, refusal, ChunkedMessageView, CHUNK_OVERHEAD, MAGIC_FIRST, MAGIC_SECOND,
    MAX_CHUNKS,
};
use crate::id::ChunkedMessageId;
use vstd::prelude::*;

verus! {

/// Payload bytes per chunk that keep a datagram under a typical LAN MTU.
pub const CHUNK_SIZE_LAN: u16 = 8154;

/// Payload bytes per chunk that keep a datagram under a typical WAN MTU.
pub const CHUNK_SIZE_WAN: u16 = 1420;

/// The number of payload bytes that one chunk may carry.
#[derive(Clone, Copy, Debug, PartialEq, Eq, Structural)]
pub enum ChunkSize {
    LAN,
    WAN,
    Custom(u16),
}

impl ChunkSize {
    /// The chunk size in bytes.
    pub open spec fn spec_size(self) -> u16 {
        match self {
            ChunkSize::LAN => CHUNK_SIZE_LAN,
            ChunkSize::WAN => CHUNK_SIZE_WAN,
            ChunkSize::Custom(size) => size,
        }
    }

    /// The chunk size in bytes.
    #[verifier::when_used_as_spec(spec_size)]
    pub fn size(self) -> (size: u16)
        ensures
            size == self.spec_size(),
    {
        match self {
            ChunkSize::LAN => CHUNK_SIZE_LAN,
            ChunkSize::WAN => CHUNK_SIZE_WAN,
            ChunkSize::Custom(size) => size,
        }
    }
}

/// One payload, ready to be sent as at most 128 chunks.
pub struct ChunkedMessage {
    chunk_size: ChunkSize,
    payload: Vec<u8>,
    num_chunks: u8,
    id: ChunkedMessageId,
}

impl View for ChunkedMessage {
    type V = ChunkedMessageView;

    closed spec fn view(&self) -> ChunkedMessageView {
        ChunkedMessageView {
            chunk_size: self.chunk_size.size() as int,
            payload: self.payload@,
            id: self.id@,
        }
    }
}

impl ChunkedMessage {
    #[verifier::type_invariant]
    spec fn well_formed(self) -> bool {
        &&& self@.valid()
        &&& self.num_chunks == self@.num_chunks()
    }

    /// The message of `payload` in chunks of `chunk_size`, under the
    /// identifier `id`. A chunk size of zero is refused, and so is a payload
    /// that needs more than 128 chunks.
    pub fn with_id(chunk_size: ChunkSize, payload: Vec<u8>, id: ChunkedMessageId) -> (result:
        Result<ChunkedMessage, Error>)
        ensures
            match refusal(chunk_size.size() as int, payload@.len() as int) {
                Some(error) => result == Err::<ChunkedMessage, Error>(error),
                None => result is Ok && result->Ok_0@.valid() && result->Ok_0@ == (
                ChunkedMessageView {
                    chunk_size: chunk_size.size() as int,
                    payload: payload@,
                    id: id@,
                }),
            },
    {
        match ChunkedMessage::count_chunks(chunk_size, payload.len()) {
            Ok(num_chunks) => {
                proof {
                    id.lemma_eight_bytes();
                }
                Ok(ChunkedMessage { chunk_size, payload, num_chunks, id })
            },
            Err(error) => Err(error),
        }
    }

    /// The message of `payload` in chunks of `chunk_size`, under a random
    /// identifier. A chunk size of zero is refused, and so is a payload that
    /// needs more than 128 chunks.
    pub fn new(chunk_size: ChunkSize, payload: Vec<u8>) -> (result: Result<ChunkedMessage, Error>)
        ensures
            match refusal(chunk_size.size() as int, payload@.len() as int) {
                Some(error) => result == Err::<ChunkedMessage, Error>(error),
                None => result is Ok && result->Ok_0@.valid() && result->Ok_0@.chunk_size
                    == chunk_size.size() && result->Ok_0@.payload == payload@,
            },
    {
        match ChunkedMessage::count_chunks(chunk_size, payload.len()) {
            Ok(num_chunks) => {
                let id = ChunkedMessageId::random();
                Ok(ChunkedMessage { chunk_size, payload, num_chunks, id })
            },
            Err(error) => Err(error),
        }
    }

    /// The number of chunks for a payload of `len` bytes, or why there is
    /// none.
    fn count_chunks(chunk_size: ChunkSize, len: usize) -> (result: Result<u8, Error>)
        ensures
            match refusal(chunk_size.size() as int, len as int) {
                Some(error) => result == Err::<u8, Error>(error),
                None => result == Ok::<u8, Error>(
                    chunk_count(chunk_size.size() as int, len as int) as u8,
                ),
            },
    {
        let size: usize = chunk_size.size() as usize;
        if size == 0 {
            return Err(Error::InvalidConfiguration(Misconfiguration::ZeroChunkSize));
        }
        let full: usize = len / size;
        if full > MAX_CHUNKS as usize {
            return Err(Error::InvalidConfiguration(Misconfiguration::TooManyChunks));
        }
        let count: usize = if len % size == 0 {
            full
        } else {
            full + 1
        };
        if count > MAX_CHUNKS as usize {
            return Err(Error::InvalidConfiguration(Misconfiguration::TooManyChunks));
        }
        Ok(count as u8)
    }

    /// The bytes that all chunks of the message have together, headers
    /// included.
    pub fn len(&self) -> (len: usize)
        ensures
            len == self@.wire_length(),
    {
        proof {
            use_type_invariant(self);
            lemma_chunk_count_is_ceiling(self@.chunk_size, self@.payload.len() as int);
            lemma_chunks_cover_at_most(self@.chunk_size, self@.num_chunks());
        }
        if self.num_chunks > 1 {
            self.payload.len() + self.num_chunks as usize * CHUNK_OVERHEAD
        } else {
            self.payload.len()
        }
    }

    /// Chunk `index` of the message as it goes on the wire, if the message
    /// has such a chunk.
    pub fn chunk(&self, index: u8) -> (chunk: Option<Vec<u8>>)
        ensures
            index < self@.num_chunks() ==> chunk is Some && chunk->Some_0@ == self@.chunk(
                index as int,
            ),
            index >= self@.num_chunks() ==> chunk is None,
    {
        proof {
            use_type_invariant(self);
        }
        if index >= self.num_chunks {
            return None;
        }
        let size: usize = self.chunk_size.size() as usize;
        let len: usize = self.payload.len();
        proof {
            lemma_chunk_count_is_ceiling(size as int, len as int);
            lemma_slice_bounds(size as int, len as int, index as int);
            lemma_chunks_cover_at_most(size as int, index as int + 1);
        }
        let start: usize = index as usize * size;
        let end: usize = if len - start < size {
            len
        } else {
            start + size
        };
        let mut chunk: Vec<u8> = Vec::new();
        if self.num_chunks > 1 {
            chunk.push(MAGIC_FIRST);
            chunk.push(MAGIC_SECOND);
            let id: &[u8; 8] = self.id.as_bytes();
            let mut i: usize = 0;
            while i < 8
                invariant
                    i <= 8,
                    id@ == self@.id,
                    id@.len() == 8,
                    chunk@ == seq![MAGIC_FIRST, MAGIC_SECOND] + id@.take(i as int),
                decreases 8 - i,
            {
                chunk.push(id[i]);
                assert(id@.take(i as int + 1) =~= id@.take(i as int).push(id@[i as int]));
                i = i + 1;
            }
            chunk.push(index);
            chunk.push(self.num_chunks);
            assert(id@.take(8) =~= id@);
            assert(chunk@ =~= chunk_header(self@.id, index as int, self@.num_chunks()));
        }
        let ghost head = chunk@;
        let mut at: usize = start;
        while at < end
            invariant
                start <= at <= end <= self.payload@.len(),
                chunk@ == head + self.payload@.subrange(start as int, at as int),
            decreases end - at,
        {
            chunk.push(self.payload[at]);
            assert(self.payload@.subrange(start as int, at as int + 1)
                =~= self.payload@.subrange(start as int, at as int).push(self.payload@[at as int]));
            at = at + 1;
        }
        assert(chunk@ =~= self@.chunk(index as int));
        Some(chunk)
    }

    /// A pass over the chunks of the message that starts at the first one.
    pub fn iter(&self) -> (iterator: ChunkedMessageIterator<'_>)
        ensures
            iterator.position() == 0,
            iterator.message() == self,
    {
        ChunkedMessageIterator::new(self)
    }

    /// The number of chunks of the message.
    pub fn num_chunks(&self) -> (count: u8)
        ensures
            count == self@.num_chunks(),
            count <= MAX_CHUNKS,
            self@.valid(),
    {
        proof {
            use_type_invariant(self);
        }
        self.num_chunks
    }

    /// The payload of the message.
    pub fn payload(&self) -> (payload: &Vec<u8>)
        ensures
            payload@ == self@.payload,
    {
        &self.payload
    }

    /// The identifier of the message.
    pub fn id(&self) -> (id: ChunkedMessageId)
        ensures
            id@ == self@.id,
    {
        self.id
    }
}

/// One pass over the chunks of a message, in the order of their sequence
/// numbers.
pub struct ChunkedMessageIterator<'a> {
    chunk_num: u8,
    message: &'a ChunkedMessage,
}

impl<'a> ChunkedMessageIterator<'a> {
    /// The sequence number of the chunk that comes next.
    pub closed spec fn position(&self) -> int {
        self.chunk_num as int
    }

    /// The message whose chunks the pass hands out.
    pub closed spec fn message(&self) -> &ChunkedMessage {
        self.message
    }

    /// A pass over the chunks of `message` that starts at the first one.
    pub fn new(message: &'a ChunkedMessage) -> (iterator: ChunkedMessageIterator<'a>)
        ensures
            iterator.position() == 0,
            iterator.message() == message,
    {
        ChunkedMessageIterator { chunk_num: 0, message }
    }

    /// The next chunk as it goes on the wire, or `None` once the message has
    /// no more.
    pub fn next(&mut self) -> (chunk: Option<Vec<u8>>)
        ensures
            final(self).message() == old(self).message(),
            old(self).position() < old(self).message()@.num_chunks() ==> chunk is Some
                && chunk->Some_0@ == old(self).message()@.chunk(old(self).position())
                && final(self).position() == old(self).position() + 1,
            old(self).position() >= old(self).message()@.num_chunks() ==> chunk is None
                && final(self).position() == old(self).position(),
    {
        let count: u8 = self.message.num_chunks();
        let chunk = self.message.chunk(self.chunk_num);
        if self.chunk_num < count {
            self.chunk_num = self.chunk_num + 1;
        }
        chunk
    }
}

} // verus!
