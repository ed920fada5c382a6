use modio::util::upload::{byte_ranges, ByteRanges, MULTIPART_FILE_PART_SIZE};

#[test]
pub fn multiple_byte_ranges() {
    const SIZE: u64 = 522 * 1024 * 1024;

    let ranges: Vec<_> = byte_ranges(SIZE).collect();

    assert_eq!(
        ranges,
        [
            (0, 52428799),
            (52428800, 104857599),
            (104857600, 157286399),
            (157286400, 209715199),
            (209715200, 262143999),
            (262144000, 314572799),
            (314572800, 367001599),
            (367001600, 419430399),
            (419430400, 471859199),
            (471859200, 524287999),
            (524288000, 547356671),
        ]
    );
}

#[test]
pub fn single_byte_range() {
    const SIZE: u64 = 25 * 1024 * 1024;

    let ranges: Vec<_> = byte_ranges(SIZE).collect();

    assert_eq!(ranges, [(0, SIZE - 1)]);
}

#[test]
fn byte_ranges_custom_chunks() {
    let mut iter = ByteRanges::new(14).chunks(5).into_iter();

    assert_eq!(iter.next(), Some((0, 4)));
    assert_eq!(iter.next(), Some((5, 9)));
    assert_eq!(iter.next(), Some((10, 13)));
    assert_eq!(iter.next(), None);
    assert_eq!(iter.next(), None);
}

#[test]
fn byte_ranges_two_parts() {
    let mut iter = byte_ranges(52 * 1024 * 1024);

    assert_eq!(iter.next(), Some((0, 52428799)));
    assert_eq!(iter.next(), Some((52428800, 54525951)));
    assert_eq!(iter.next(), None);
}

#[test]
fn byte_ranges_exact_multiple() {
    let ranges = ByteRanges::new(10).chunks(5).into_iter().collect();

    assert_eq!(ranges, [(0, 4), (5, 9)]);
}

#[test]
fn byte_ranges_empty_file() {
    assert!(ByteRanges::new(0).chunks(5).into_iter().collect().is_empty());
    assert_eq!(byte_ranges(0).next(), None);
}

#[test]
fn byte_ranges_tile_the_file() {
    let length = 3 * MULTIPART_FILE_PART_SIZE + 7;
    let ranges = byte_ranges(length).collect();

    assert_eq!(ranges.len(), 4);
    assert_eq!(ranges[0].0, 0);
    assert_eq!(ranges[3].1, length - 1);
    for pair in ranges.windows(2) {
        assert_eq!(pair[1].0, pair[0].1 + 1);
    }
}
