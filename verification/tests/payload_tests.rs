use replicode::atom::Atom;
use replicode::payload::{join_timestamp, pack_string, pack_timestamp};

fn bits(atoms: &[Atom]) -> Vec<u32> {
    atoms.iter().map(|a| a.atom_).collect()
}

#[test]
fn empty_string_is_a_header_alone() {
    assert_eq!(bits(&pack_string(b"").unwrap()), vec![0xC6000000]);
}

#[test]
fn four_characters_fill_one_block() {
    assert_eq!(bits(&pack_string(b"abcd").unwrap()), vec![0xC6000104, 0x64636261]);
}

#[test]
fn five_characters_take_a_second_block() {
    assert_eq!(
        bits(&pack_string(b"abcde").unwrap()),
        vec![0xC6000205, 0x64636261, 0x00000065]
    );
}

#[test]
fn blocks_are_little_endian() {
    let packed = pack_string(b"hello, world").unwrap();
    assert_eq!(packed[0], Atom::String(12));
    for (k, chunk) in b"hello, world".chunks(4).enumerate() {
        let word = u32::from_le_bytes([chunk[0], chunk[1], chunk[2], chunk[3]]);
        assert_eq!(packed[k + 1].atom_, word);
    }
    assert_eq!(packed.len(), 4);
}

#[test]
fn the_longest_string_has_255_characters() {
    let text = vec![b'x'; 255];
    let packed = pack_string(&text).unwrap();
    assert_eq!(packed.len(), 65);
    assert_eq!(packed[0].atom_, 0xC60040FF);
    assert_eq!(packed[63].atom_, 0x78787878);
    assert_eq!(packed[64].atom_, 0x00787878);
    assert!(pack_string(&vec![b'x'; 256]).is_none());
    assert!(pack_string(&vec![0u8; 1000]).is_none());
}

#[test]
fn timestamps_split_into_two_halves() {
    assert_eq!(bits(&pack_timestamp(0)), vec![0xC7000000, 0, 0]);
    assert_eq!(bits(&pack_timestamp(1)), vec![0xC7000000, 0, 1]);
    assert_eq!(bits(&pack_timestamp(-1)), vec![0xC7000000, 0xFFFFFFFF, 0xFFFFFFFF]);
    assert_eq!(bits(&pack_timestamp(i64::MIN)), vec![0xC7000000, 0x80000000, 0]);
    assert_eq!(bits(&pack_timestamp(i64::MAX)), vec![0xC7000000, 0x7FFFFFFF, 0xFFFFFFFF]);
    assert_eq!(
        bits(&pack_timestamp(0x0123_4567_89AB_CDEF)),
        vec![0xC7000000, 0x01234567, 0x89ABCDEF]
    );
}

#[test]
fn halves_join_as_shift_and_or() {
    assert_eq!(join_timestamp(0, 0), 0);
    assert_eq!(join_timestamp(0, 1), 1);
    assert_eq!(join_timestamp(1, 0), 1 << 32);
    assert_eq!(join_timestamp(0, 0xFFFFFFFF), 0xFFFFFFFF);
    assert_eq!(join_timestamp(0xFFFFFFFF, 0xFFFFFFFF), -1);
    assert_eq!(join_timestamp(0x80000000, 0), i64::MIN);
    assert_eq!(join_timestamp(0x7FFFFFFF, 0xFFFFFFFF), i64::MAX);
    for (high, low) in [(0x01234567u32, 0x89ABCDEFu32), (0xFEDCBA98, 0x76543210), (0x80000000, 1)] {
        assert_eq!(join_timestamp(high, low), ((high as i64) << 32) | (low as u32 as i64));
    }
}

#[test]
fn a_timestamp_comes_back_from_its_halves() {
    let samples = [
        0i64,
        1,
        -1,
        i64::MIN,
        i64::MAX,
        i64::MIN + 1,
        i64::MAX - 1,
        0xFFFFFFFF,
        0x100000000,
        -0x100000000,
        1_700_000_000_000_000,
        -1_700_000_000_000_000,
    ];
    for t in samples {
        let packed = pack_timestamp(t);
        assert_eq!(packed[0], Atom::Timestamp());
        assert_eq!(join_timestamp(packed[1].atom_, packed[2].atom_), t);
        assert_eq!(((packed[1].atom_ as i64) << 32) | (packed[2].atom_ as u32 as i64), t);
    }
}
