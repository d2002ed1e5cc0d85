use hexwidget::ByteProvider;

#[test]
fn len_is_the_length_of_the_slice() {
    let data: &[u8] = &[1, 2, 3];
    assert_eq!(ByteProvider::len(&data), 3);
    let empty: &[u8] = &[];
    assert_eq!(ByteProvider::len(&empty), 0);
}

#[test]
fn get_range_inside_the_buffer() {
    let bytes: Vec<u8> = (0u8..32).collect();
    let data: &[u8] = &bytes;
    assert_eq!(data.get_range(0..16), Some(&bytes[0..16]));
    assert_eq!(data.get_range(16..32), Some(&bytes[16..32]));
    assert_eq!(data.get_range(3..5), Some(&[3u8, 4][..]));
}

#[test]
fn get_range_clamps_the_end() {
    let bytes: Vec<u8> = (0u8..20).collect();
    let data: &[u8] = &bytes;
    assert_eq!(data.get_range(16..32), Some(&bytes[16..20]));
    assert_eq!(data.get_range(19..usize::MAX), Some(&[19u8][..]));
    assert_eq!(data.get_range(0..usize::MAX), Some(&bytes[..]));
}

#[test]
fn get_range_that_is_empty() {
    let bytes: Vec<u8> = (0u8..20).collect();
    let data: &[u8] = &bytes;
    assert_eq!(data.get_range(4..4), None);
    assert_eq!(data.get_range(0..0), None);
    assert_eq!(data.get_range(5..4), None);
}

#[test]
fn get_range_that_starts_at_or_past_the_end() {
    let bytes: Vec<u8> = (0u8..20).collect();
    let data: &[u8] = &bytes;
    assert_eq!(data.get_range(20..21), None);
    assert_eq!(data.get_range(20..usize::MAX), None);
    assert_eq!(data.get_range(32..48), None);
    assert_eq!(data.get_range(usize::MAX..usize::MAX), None);
    assert_eq!(data.get_range(usize::MAX..0), None);
    for end in 0usize..64 {
        assert_eq!(data.get_range(20..end), None);
        assert_eq!(data.get_range(21..end), None);
    }
}

#[test]
fn get_range_of_an_empty_buffer() {
    let data: &[u8] = &[];
    assert_eq!(data.get_range(0..16), None);
    assert_eq!(data.get_range(0..0), None);
}
