use slog_gelf::id::ChunkedMessageId;

#[test]
fn from_int_is_big_endian() {
    let id = ChunkedMessageId::from_int(0x0102_0304_0506_0708);
    assert_eq!(id.as_bytes(), &[1, 2, 3, 4, 5, 6, 7, 8]);
    assert_eq!(ChunkedMessageId::from_int(1).as_bytes(), &[0, 0, 0, 0, 0, 0, 0, 1]);
    assert_eq!(
        ChunkedMessageId::from_int(0xff00_0000_0000_0000).as_bytes(),
        &[0xff, 0, 0, 0, 0, 0, 0, 0]
    );
}

#[test]
fn to_int_reads_the_first_byte_as_the_most_significant() {
    let id = ChunkedMessageId::from_bytes([0, 0, 0, 0, 0, 0, 1, 0]);
    assert_eq!(id.to_int(), 256);
    let id = ChunkedMessageId::from_bytes([0x12, 0x34, 0x56, 0x78, 0x9a, 0xbc, 0xde, 0xf0]);
    assert_eq!(id.to_int(), 0x1234_5678_9abc_def0);
}

#[test]
fn integers_come_back_unchanged() {
    let values: [u64; 9] = [
        0,
        1,
        255,
        256,
        0xdead_beef,
        0x8000_0000_0000_0000,
        0x7fff_ffff_ffff_ffff,
        u64::MAX,
        0x0123_4567_89ab_cdef,
    ];
    for value in values {
        assert_eq!(ChunkedMessageId::from_int(value).to_int(), value);
    }
}

#[test]
fn bytes_come_back_unchanged() {
    let bytes = [0xfe, 0xdc, 0xba, 0x98, 0x76, 0x54, 0x32, 0x10];
    let id = ChunkedMessageId::from_bytes(bytes);
    assert_eq!(id.as_bytes(), &bytes);
    assert_eq!(ChunkedMessageId::from_int(id.to_int()), id);
}

#[test]
fn a_random_id_has_eight_bytes() {
    assert_eq!(ChunkedMessageId::random().as_bytes().len(), 8);
}
