use slog_gelf::chunked::{
    ChunkSize, ChunkedMessage, ChunkedMessageIterator, CHUNK_SIZE_LAN, CHUNK_SIZE_WAN,
};
use slog_gelf::format::{CHUNK_OVERHEAD, MAGIC_FIRST, MAGIC_SECOND, MAX_CHUNKS};
use slog_gelf::id::ChunkedMessageId;
use slog_gelf::error::{Error, Misconfiguration};

fn collect(message: &ChunkedMessage) -> Vec<Vec<u8>> {
    let mut chunks = Vec::new();
    let mut iterator = message.iter();
    while let Some(chunk) = iterator.next() {
        chunks.push(chunk);
    }
    chunks
}

fn numbered(len: usize) -> Vec<u8> {
    (0..len).map(|i| (i % 251) as u8).collect()
}

#[test]
fn presets_have_their_sizes() {
    assert_eq!(ChunkSize::LAN.size(), 8154);
    assert_eq!(ChunkSize::WAN.size(), 1420);
    assert_eq!(ChunkSize::Custom(77).size(), 77);
    assert_eq!(CHUNK_SIZE_LAN, 8154);
    assert_eq!(CHUNK_SIZE_WAN, 1420);
    assert_eq!(CHUNK_OVERHEAD, 12);
    assert_eq!(MAX_CHUNKS, 128);
}

#[test]
fn chunk_count_is_the_length_over_the_size_rounded_up() {
    let cases: [(u16, usize, u8); 10] = [
        (10, 0, 0),
        (10, 1, 1),
        (10, 9, 1),
        (10, 10, 1),
        (10, 11, 2),
        (10, 20, 2),
        (10, 25, 3),
        (1, 128, 128),
        (1420, 1421, 2),
        (65535, 65535 * 128, 128),
    ];
    for (size, len, expected) in cases {
        let message = ChunkedMessage::new(ChunkSize::Custom(size), vec![0u8; len]).unwrap();
        assert_eq!(message.num_chunks(), expected, "size {} length {}", size, len);
        assert_eq!(collect(&message).len(), expected as usize);
    }
}

#[test]
fn zero_chunk_size_is_refused() {
    let result = ChunkedMessage::new(ChunkSize::Custom(0), vec![1, 2, 3]);
    assert_eq!(
        result.err(),
        Some(Error::InvalidConfiguration(Misconfiguration::ZeroChunkSize))
    );
    let result = ChunkedMessage::new(ChunkSize::Custom(0), Vec::new());
    assert_eq!(
        result.err(),
        Some(Error::InvalidConfiguration(Misconfiguration::ZeroChunkSize))
    );
}

#[test]
fn two_hundred_chunks_are_refused() {
    let result = ChunkedMessage::new(ChunkSize::Custom(1), vec![b'x'; 200]);
    assert_eq!(
        result.err(),
        Some(Error::InvalidConfiguration(Misconfiguration::TooManyChunks))
    );
}

#[test]
fn the_limit_is_one_hundred_and_twenty_eight_chunks() {
    assert!(ChunkedMessage::new(ChunkSize::Custom(1), vec![0u8; 128]).is_ok());
    assert_eq!(
        ChunkedMessage::new(ChunkSize::Custom(1), vec![0u8; 129]).err(),
        Some(Error::InvalidConfiguration(Misconfiguration::TooManyChunks))
    );
    assert!(ChunkedMessage::new(ChunkSize::Custom(3), vec![0u8; 384]).is_ok());
    assert_eq!(
        ChunkedMessage::new(ChunkSize::Custom(3), vec![0u8; 385]).err(),
        Some(Error::InvalidConfiguration(Misconfiguration::TooManyChunks))
    );
}

#[test]
fn a_count_beyond_one_byte_is_refused_too() {
    for len in [256usize, 257, 300, 512, 65536, 65537 + 128] {
        assert_eq!(
            ChunkedMessage::new(ChunkSize::Custom(1), vec![0u8; len]).err(),
            Some(Error::InvalidConfiguration(Misconfiguration::TooManyChunks)),
            "length {}",
            len
        );
    }
}

#[test]
fn twenty_five_bytes_in_chunks_of_ten() {
    let id = ChunkedMessageId::from_int(0x0102_0304_0506_0708);
    let message = ChunkedMessage::with_id(ChunkSize::Custom(10), vec![b'a'; 25], id).unwrap();
    assert_eq!(message.num_chunks(), 3);
    assert_eq!(message.len(), 61);
    let chunks = collect(&message);
    assert_eq!(chunks.len(), 3);
    let sizes: Vec<usize> = chunks.iter().map(|chunk| chunk.len() - 12).collect();
    assert_eq!(sizes, vec![10, 10, 5]);
    assert_eq!(
        chunks[0],
        vec![
            0x1e, 0x0f, 1, 2, 3, 4, 5, 6, 7, 8, 0, 3, b'a', b'a', b'a', b'a', b'a', b'a', b'a',
            b'a', b'a', b'a'
        ]
    );
    assert_eq!(
        chunks[2],
        vec![0x1e, 0x0f, 1, 2, 3, 4, 5, 6, 7, 8, 2, 3, b'a', b'a', b'a', b'a', b'a']
    );
}

#[test]
fn four_thousand_bytes_fit_one_lan_chunk() {
    let payload = numbered(4000);
    let message = ChunkedMessage::new(ChunkSize::LAN, payload.clone()).unwrap();
    assert_eq!(message.num_chunks(), 1);
    assert_eq!(message.len(), 4000);
    let chunks = collect(&message);
    assert_eq!(chunks, vec![payload]);
}

#[test]
fn a_single_chunk_has_no_header() {
    for len in [1usize, 2, 9, 10] {
        let payload = numbered(len);
        let message = ChunkedMessage::new(ChunkSize::Custom(10), payload.clone()).unwrap();
        assert_eq!(collect(&message), vec![payload.clone()]);
        assert_eq!(message.len(), len);
    }
}

#[test]
fn an_empty_payload_has_no_chunk() {
    let message = ChunkedMessage::new(ChunkSize::WAN, Vec::new()).unwrap();
    assert_eq!(message.num_chunks(), 0);
    assert_eq!(message.len(), 0);
    assert!(collect(&message).is_empty());
    assert_eq!(message.chunk(0), None);
}

#[test]
fn slices_joined_give_the_payload_back() {
    for (size, len) in [(10u16, 25usize), (7, 49), (7, 50), (1, 128), (1420, 5000), (3, 4)] {
        let payload = numbered(len);
        let message = ChunkedMessage::new(ChunkSize::Custom(size), payload.clone()).unwrap();
        let mut joined = Vec::new();
        for chunk in collect(&message) {
            joined.extend_from_slice(&chunk[CHUNK_OVERHEAD..]);
        }
        assert_eq!(joined, payload, "size {} length {}", size, len);
    }
}

#[test]
fn headers_carry_id_sequence_number_and_total() {
    let id = ChunkedMessageId::from_bytes([9, 8, 7, 6, 5, 4, 3, 2]);
    let message = ChunkedMessage::with_id(ChunkSize::Custom(4), numbered(41), id).unwrap();
    let chunks = collect(&message);
    assert_eq!(chunks.len(), 11);
    for (index, chunk) in chunks.iter().enumerate() {
        assert_eq!(chunk[0], MAGIC_FIRST);
        assert_eq!(chunk[1], MAGIC_SECOND);
        assert_eq!(chunk[0], 0x1e);
        assert_eq!(chunk[1], 0x0f);
        assert_eq!(&chunk[2..10], &[9, 8, 7, 6, 5, 4, 3, 2]);
        assert_eq!(chunk[10] as usize, index);
        assert_eq!(chunk[11], 11);
    }
}

#[test]
fn every_chunk_but_the_last_is_full() {
    let message = ChunkedMessage::new(ChunkSize::Custom(100), numbered(950)).unwrap();
    let chunks = collect(&message);
    assert_eq!(chunks.len(), 10);
    for chunk in &chunks[..9] {
        assert_eq!(chunk.len(), 112);
    }
    assert_eq!(chunks[9].len(), 62);
}

#[test]
fn len_is_the_sum_of_the_chunk_lengths() {
    for (size, len) in [(10u16, 25usize), (10, 10), (10, 0), (1, 128), (8154, 4000), (1420, 9000)]
    {
        let message = ChunkedMessage::new(ChunkSize::Custom(size), numbered(len)).unwrap();
        let sum: usize = collect(&message).iter().map(|chunk| chunk.len()).sum();
        assert_eq!(message.len(), sum, "size {} length {}", size, len);
    }
}

#[test]
fn len_counts_twelve_bytes_for_each_header() {
    let message = ChunkedMessage::new(ChunkSize::WAN, numbered(5000)).unwrap();
    assert_eq!(message.num_chunks(), 4);
    assert_eq!(message.len(), 5000 + 4 * 12);
}

#[test]
fn a_new_pass_starts_at_the_first_chunk() {
    let message = ChunkedMessage::new(ChunkSize::Custom(5), numbered(23)).unwrap();
    let first = collect(&message);
    let second = collect(&message);
    assert_eq!(first, second);
    let mut iterator = ChunkedMessageIterator::new(&message);
    assert_eq!(iterator.next(), Some(first[0].clone()));
    let mut again = message.iter();
    assert_eq!(again.next(), Some(first[0].clone()));
    assert_eq!(iterator.next(), Some(first[1].clone()));
}

#[test]
fn a_pass_ends_and_stays_ended() {
    let message = ChunkedMessage::new(ChunkSize::Custom(5), numbered(10)).unwrap();
    let mut iterator = message.iter();
    assert!(iterator.next().is_some());
    assert!(iterator.next().is_some());
    assert_eq!(iterator.next(), None);
    assert_eq!(iterator.next(), None);
}

#[test]
fn chunk_by_index_is_what_the_pass_hands_out() {
    let message = ChunkedMessage::new(ChunkSize::Custom(6), numbered(20)).unwrap();
    let chunks = collect(&message);
    for (index, chunk) in chunks.iter().enumerate() {
        assert_eq!(message.chunk(index as u8), Some(chunk.clone()));
    }
    assert_eq!(message.chunk(4), None);
    assert_eq!(message.chunk(255), None);
}

#[test]
fn a_random_id_is_shared_by_all_chunks() {
    let message = ChunkedMessage::new(ChunkSize::Custom(2), numbered(9)).unwrap();
    let id = *message.id().as_bytes();
    for chunk in collect(&message) {
        assert_eq!(&chunk[2..10], &id);
    }
}

#[test]
fn random_ids_differ() {
    let first = ChunkedMessageId::random();
    let second = ChunkedMessageId::random();
    let third = ChunkedMessageId::random();
    assert!(first != second || second != third);
}

#[test]
fn getters_give_what_the_message_was_made_of() {
    let id = ChunkedMessageId::from_int(42);
    let message = ChunkedMessage::with_id(ChunkSize::WAN, numbered(30), id).unwrap();
    assert_eq!(message.payload(), &numbered(30));
    assert_eq!(message.id(), id);
}
