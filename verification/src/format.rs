//! The wire format of a chunked message, as the contracts state it: how
//! many chunks a payload needs, which bytes each chunk holds, and what
//! follows from that.

use crate::error::{Error, Misconfiguration};
use vstd::arithmetic::div_mod::lemma_fundamental_div_mod;
use vstd::prelude::*;

verus! {

/// The most chunks that one message may have.
pub const MAX_CHUNKS: u8 = 128;

/// The bytes that a chunk's header adds: two magic bytes, the eight bytes of
/// the message id, the sequence number and the number of chunks.
pub const CHUNK_OVERHEAD: usize = 12;

/// The first byte of a chunk's header.
pub const MAGIC_FIRST: u8 = 0x1e;

/// The second byte of a chunk's header.
pub const MAGIC_SECOND: u8 = 0x0f;

/// The number of chunks that a payload of `len` bytes needs when a chunk
/// carries `chunk_size` bytes: `len / chunk_size`, rounded up.
pub open spec fn chunk_count(chunk_size: int, len: int) -> int {
    if len % chunk_size == 0 {
        len / chunk_size
    } else {
        len / chunk_size + 1
    }
}

/// Why a payload of `len` bytes cannot be sent in chunks of `chunk_size`
/// bytes, if it cannot: the chunk size is zero, or the payload needs more
/// than 128 chunks.
pub open spec fn refusal(chunk_size: int, len: int) -> Option<Error> {
    if chunk_size == 0 {
        Some(Error::InvalidConfiguration(Misconfiguration::ZeroChunkSize))
    } else if chunk_count(chunk_size, len) > MAX_CHUNKS {
        Some(Error::InvalidConfiguration(Misconfiguration::TooManyChunks))
    } else {
        None
    }
}

/// Where in the payload the slice of chunk `index` begins.
pub open spec fn slice_start(chunk_size: int, index: int) -> int {
    index * chunk_size
}

/// Where in a payload of `len` bytes the slice of chunk `index` ends.
pub open spec fn slice_end(chunk_size: int, len: int, index: int) -> int {
    if (index + 1) * chunk_size <= len {
        (index + 1) * chunk_size
    } else {
        len
    }
}

/// The part of the payload that chunk `index` carries.
pub open spec fn chunk_payload(chunk_size: int, payload: Seq<u8>, index: int) -> Seq<u8> {
    payload.subrange(
        slice_start(chunk_size, index),
        slice_end(chunk_size, payload.len() as int, index),
    )
}

/// The header of chunk `index` of a message of `total` chunks.
pub open spec fn chunk_header(id: Seq<u8>, index: int, total: int) -> Seq<u8> {
    seq![MAGIC_FIRST, MAGIC_SECOND] + id + seq![index as u8, total as u8]
}

/// The bytes of the payload that the first `count` chunks carry.
pub open spec fn covered(chunk_size: int, len: int, count: int) -> int {
    if count * chunk_size <= len {
        count * chunk_size
    } else {
        len
    }
}

/// The number of bytes that the given wire units have together.
pub open spec fn total_len(units: Seq<Seq<u8>>) -> int
    decreases units.len(),
{
    if units.len() == 0 {
        0
    } else {
        total_len(units.drop_last()) + units.last().len()
    }
}

/// What one message is, to the contracts: the chunk size in bytes, the
/// payload and the eight bytes of the message id.
pub struct ChunkedMessageView {
    pub chunk_size: int,
    pub payload: Seq<u8>,
    pub id: Seq<u8>,
}

impl ChunkedMessageView {
    /// Whether such a message can be built.
    pub open spec fn valid(self) -> bool {
        &&& 0 < self.chunk_size <= u16::MAX
        &&& self.num_chunks() <= MAX_CHUNKS
        &&& self.id.len() == 8
    }

    /// The number of chunks of the message.
    pub open spec fn num_chunks(self) -> int {
        chunk_count(self.chunk_size, self.payload.len() as int)
    }

    /// The bytes of chunk `index` as they go on the wire: the payload's slice,
    /// behind a header where the message has more than one chunk.
    pub open spec fn chunk(self, index: int) -> Seq<u8> {
        if self.num_chunks() > 1 {
            chunk_header(self.id, index, self.num_chunks()) + chunk_payload(
                self.chunk_size,
                self.payload,
                index,
            )
        } else {
            chunk_payload(self.chunk_size, self.payload, index)
        }
    }

    /// All chunks of the message, in the order of their sequence numbers.
    pub open spec fn chunks(self) -> Seq<Seq<u8>> {
        Seq::new(self.num_chunks() as nat, |index: int| self.chunk(index))
    }

    /// The bytes that all chunks of the message have together.
    pub open spec fn wire_length(self) -> int {
        if self.num_chunks() > 1 {
            self.payload.len() + self.num_chunks() * CHUNK_OVERHEAD
        } else {
            self.payload.len() as int
        }
    }
}

/// The chunk count is the least number of chunks that hold the payload.
pub proof fn lemma_chunk_count_is_ceiling(chunk_size: int, len: int)
    requires
        chunk_size > 0,
        len >= 0,
    ensures
        chunk_count(chunk_size, len) >= 0,
        chunk_count(chunk_size, len) * chunk_size >= len,
        (chunk_count(chunk_size, len) - 1) * chunk_size < len || len == 0,
        len == 0 <==> chunk_count(chunk_size, len) == 0,
{
    lemma_fundamental_div_mod(len, chunk_size);
    let q = len / chunk_size;
    let r = len % chunk_size;
    assert(len == chunk_size * q + r);
    assert(0 <= r < chunk_size);
    assert(chunk_size * q == q * chunk_size) by (nonlinear_arith);
    assert((q + 1) * chunk_size == q * chunk_size + chunk_size) by (nonlinear_arith);
    assert((q - 1) * chunk_size == q * chunk_size - chunk_size) by (nonlinear_arith);
    assert(q >= 0) by (nonlinear_arith)
        requires
            len == chunk_size * q + r,
            0 <= r < chunk_size,
            len >= 0,
    ;
    if len == 0 {
        assert(q == 0) by (nonlinear_arith)
            requires
                0 == chunk_size * q + r,
                0 <= r < chunk_size,
        ;
    } else if r == 0 {
        assert(q != 0) by (nonlinear_arith)
            requires
                len == chunk_size * q + r,
                r == 0,
                len != 0,
        ;
    }
}

/// The slice of a chunk that the message has lies inside the payload, and
/// ends where the next one begins or where the payload ends.
pub proof fn lemma_slice_bounds(chunk_size: int, len: int, index: int)
    requires
        chunk_size > 0,
        len >= 0,
        0 <= index < chunk_count(chunk_size, len),
    ensures
        0 <= slice_start(chunk_size, index) < len,
        slice_start(chunk_size, index) < slice_end(chunk_size, len, index) <= len,
        slice_end(chunk_size, len, index) == if len - slice_start(chunk_size, index)
            < chunk_size {
            len
        } else {
            slice_start(chunk_size, index) + chunk_size
        },
{
    lemma_chunk_count_is_ceiling(chunk_size, len);
    let count = chunk_count(chunk_size, len);
    assert(index * chunk_size <= (count - 1) * chunk_size) by (nonlinear_arith)
        requires
            0 <= index <= count - 1,
            chunk_size > 0,
    ;
    assert(index * chunk_size >= 0) by (nonlinear_arith)
        requires
            0 <= index,
            chunk_size > 0,
    ;
    assert((index + 1) * chunk_size == index * chunk_size + chunk_size) by (nonlinear_arith);
}

/// `count` chunks of at most 65535 bytes hold at most `count` times 65535
/// bytes.
pub proof fn lemma_chunks_cover_at_most(chunk_size: int, count: int)
    requires
        0 < chunk_size <= u16::MAX,
        0 <= count,
    ensures
        0 <= count * chunk_size <= count * 65535,
{
    assert(0 <= count * chunk_size <= count * 65535) by (nonlinear_arith)
        requires
            0 < chunk_size <= 65535,
            0 <= count,
    ;
}

/// The payload slices of the first `count` chunks, one behind the other, are
/// the beginning of the payload.
pub proof fn lemma_slices_join(chunk_size: int, payload: Seq<u8>, count: int)
    requires
        chunk_size > 0,
        0 <= count <= chunk_count(chunk_size, payload.len() as int),
    ensures
        Seq::new(count as nat, |index: int| chunk_payload(chunk_size, payload, index)).flatten()
            == payload.take(covered(chunk_size, payload.len() as int, count)),
    decreases count,
{
    let len = payload.len() as int;
    let slices = Seq::new(count as nat, |index: int| chunk_payload(chunk_size, payload, index));
    if count == 0 {
        assert(count * chunk_size == 0) by (nonlinear_arith)
            requires
                count == 0,
        ;
        assert(covered(chunk_size, len, count) == 0);
        assert(slices.flatten() =~= payload.take(0));
    } else {
        let before = Seq::new(
            (count - 1) as nat,
            |index: int| chunk_payload(chunk_size, payload, index),
        );
        lemma_slices_join(chunk_size, payload, count - 1);
        lemma_slice_bounds(chunk_size, len, count - 1);
        assert(slices =~= before.push(chunk_payload(chunk_size, payload, count - 1)));
        before.lemma_flatten_push(chunk_payload(chunk_size, payload, count - 1));
        assert(count * chunk_size == (count - 1) * chunk_size + chunk_size) by (nonlinear_arith);
        assert(covered(chunk_size, len, count - 1) == slice_start(chunk_size, count - 1));
        assert(covered(chunk_size, len, count) == slice_end(chunk_size, len, count - 1));
        assert(slices.flatten() =~= payload.take(covered(chunk_size, len, count)));
    }
}

impl ChunkedMessageView {
    /// What is left of each chunk without its header, in the order of the
    /// sequence numbers. A message of one chunk has no headers.
    pub open spec fn payload_slices(self) -> Seq<Seq<u8>> {
        Seq::new(
            self.num_chunks() as nat,
            |index: int|
                if self.num_chunks() > 1 {
                    self.chunk(index).skip(CHUNK_OVERHEAD as int)
                } else {
                    self.chunk(index)
                },
        )
    }

    /// The chunks of a message, stripped of their headers and joined in the
    /// order of their sequence numbers, are the payload byte for byte.
    pub proof fn lemma_chunks_reassemble(self)
        requires
            self.valid(),
        ensures
            self.payload_slices().flatten() == self.payload,
    {
        let count = self.num_chunks();
        let len = self.payload.len() as int;
        lemma_chunk_count_is_ceiling(self.chunk_size, len);
        lemma_slices_join(self.chunk_size, self.payload, count);
        let slices = Seq::new(
            count as nat,
            |index: int| chunk_payload(self.chunk_size, self.payload, index),
        );
        assert forall|index: int| 0 <= index < count implies self.payload_slices()[index]
            == slices[index] by {
            if count > 1 {
                let header = chunk_header(self.id, index, count);
                assert(header.len() == CHUNK_OVERHEAD);
                assert((header + slices[index]).skip(CHUNK_OVERHEAD as int) =~= slices[index]);
            }
        }
        assert(self.payload_slices() =~= slices);
        assert(self.payload.take(len) =~= self.payload);
    }

    /// Each chunk of a message of several chunks begins with the two magic
    /// bytes, the message's id, the chunk's own sequence number and the
    /// number of chunks, twelve bytes in all; what follows is its slice of
    /// the payload.
    pub proof fn lemma_chunk_layout(self, index: int)
        requires
            self.valid(),
            self.num_chunks() > 1,
            0 <= index < self.num_chunks(),
        ensures
            self.chunk(index).len() >= CHUNK_OVERHEAD,
            self.chunk(index)[0] == MAGIC_FIRST,
            self.chunk(index)[1] == MAGIC_SECOND,
            self.chunk(index).subrange(2, 10) == self.id,
            self.chunk(index)[10] == index,
            self.chunk(index)[11] == self.num_chunks(),
            self.chunk(index).skip(CHUNK_OVERHEAD as int) == chunk_payload(
                self.chunk_size,
                self.payload,
                index,
            ),
    {
        let header = chunk_header(self.id, index, self.num_chunks());
        let slice = chunk_payload(self.chunk_size, self.payload, index);
        assert(header.len() == CHUNK_OVERHEAD);
        assert((header + slice).subrange(2, 10) =~= self.id);
        assert((header + slice).skip(CHUNK_OVERHEAD as int) =~= slice);
    }

    /// A message of one chunk goes on the wire as its payload, with no byte
    /// before it.
    pub proof fn lemma_single_chunk_is_payload(self)
        requires
            self.valid(),
            self.num_chunks() == 1,
        ensures
            self.chunks() == seq![self.payload],
    {
        let len = self.payload.len() as int;
        lemma_chunk_count_is_ceiling(self.chunk_size, len);
        lemma_slice_bounds(self.chunk_size, len, 0);
        assert(self.chunk(0) =~= self.payload);
        assert(self.chunks() =~= seq![self.payload]);
    }

    /// The lengths of the first `count` chunks add up to the payload bytes
    /// that they carry and the headers that they have.
    pub proof fn lemma_prefix_length(self, count: int)
        requires
            self.valid(),
            0 <= count <= self.num_chunks(),
        ensures
            total_len(self.chunks().take(count)) == covered(
                self.chunk_size,
                self.payload.len() as int,
                count,
            ) + if self.num_chunks() > 1 {
                count * CHUNK_OVERHEAD
            } else {
                0
            },
        decreases count,
    {
        let len = self.payload.len() as int;
        if count > 0 {
            self.lemma_prefix_length(count - 1);
            lemma_slice_bounds(self.chunk_size, len, count - 1);
            assert(self.chunks().take(count).drop_last() =~= self.chunks().take(count - 1));
            assert(self.chunks().take(count).last() == self.chunk(count - 1));
            assert(count * self.chunk_size == (count - 1) * self.chunk_size + self.chunk_size)
                by (nonlinear_arith);
            assert(covered(self.chunk_size, len, count - 1) == slice_start(
                self.chunk_size,
                count - 1,
            ));
            assert(covered(self.chunk_size, len, count) == slice_end(
                self.chunk_size,
                len,
                count - 1,
            ));
            assert(chunk_header(self.id, count - 1, self.num_chunks()).len() == CHUNK_OVERHEAD);
        } else {
            assert(count * self.chunk_size == 0) by (nonlinear_arith)
                requires
                    count == 0,
            ;
            assert(self.chunks().take(0).len() == 0);
        }
    }

    /// The wire length of a message is the sum of the lengths of its chunks.
    pub proof fn lemma_wire_length_is_sum(self)
        requires
            self.valid(),
        ensures
            self.wire_length() == total_len(self.chunks()),
    {
        let len = self.payload.len() as int;
        lemma_chunk_count_is_ceiling(self.chunk_size, len);
        self.lemma_prefix_length(self.num_chunks());
        assert(self.chunks().take(self.num_chunks()) =~= self.chunks());
    }
}

} // verus!
