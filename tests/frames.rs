use vulkano_framing::shape::{check_len, pixel_index};
use vulkano_framing::upload::{all_sized_as, array_pixels, pixels};
use vulkano_framing::{BadLength, Frame, SliceFrame};

#[test]
fn check_len_accepts_matching_length() {
    assert_eq!(check_len(2, 3, 6), Ok(()));
    assert_eq!(check_len(0, 7, 0), Ok(()));
}

#[test]
fn check_len_reports_both_lengths() {
    let e = check_len(4, 4, 15).unwrap_err();
    assert_eq!(e.expected_len(), 16);
    assert_eq!(e.actual_len(), 15);
}

#[test]
fn construct_reports_dimensions_back() {
    let data = [1u8, 2, 3, 4, 5, 6];
    let f = SliceFrame::new(&data, 3, 2).unwrap();
    assert_eq!(f.width(), 3);
    assert_eq!(f.height(), 2);
    assert_eq!(f.as_slice(), &data[..]);
}

#[test]
fn construct_rejects_short_buffer() {
    let data = [0u32; 5];
    let e = SliceFrame::new(&data, 2, 3).err().unwrap();
    assert_eq!(e, BadLength { expected_len: 6, actual_len: 5 });
}

#[test]
fn construct_rejects_long_buffer() {
    let data = [0u32; 7];
    let e = SliceFrame::new(&data, 2, 3).err().unwrap();
    assert_eq!(e.expected_len, 6);
    assert_eq!(e.actual_len, 7);
}

#[test]
fn two_by_two_pixels() {
    let data = ['A', 'B', 'C', 'D'];
    let f = SliceFrame::new(&data, 2, 2).unwrap();
    assert_eq!(f.pixel(0, 0), 'A');
    assert_eq!(f.pixel(1, 0), 'B');
    assert_eq!(f.pixel(0, 1), 'C');
    assert_eq!(f.pixel(1, 1), 'D');
}

#[test]
fn pixel_reads_row_major_position() {
    let data: Vec<u16> = (0..12).collect();
    let f = SliceFrame::new(&data, 4, 3).unwrap();
    for y in 0..3 {
        for x in 0..4 {
            assert_eq!(f.pixel(x, y), data[y * 4 + x]);
        }
    }
    assert_eq!(pixel_index(4, 3, 3, 2), 11);
    assert_eq!(pixel_index(4, 3, 1, 1), 5);
}

#[test]
fn bad_length_text() {
    let e = BadLength { expected_len: 6, actual_len: 5 };
    assert_eq!(e.message(), "the buffer had to have 6 pixels, but had 5 pixels");
    assert_eq!(e.description(), "incorrect buffer length");
}

#[test]
fn upload_sequence_is_row_major_and_converted() {
    let data = [10u8, 11, 12, 20, 21, 22];
    let f = SliceFrame::new(&data, 3, 2).unwrap();
    let out: Vec<u32> = pixels(&f);
    assert_eq!(out, vec![10u32, 11, 12, 20, 21, 22]);
}

#[test]
fn upload_sequence_of_empty_frame() {
    let data: [u8; 0] = [];
    let f = SliceFrame::new(&data, 0, 5).unwrap();
    let out: Vec<u64> = pixels(&f);
    assert!(out.is_empty());
}

#[test]
fn array_sequence_is_frame_major() {
    let a = [1u8, 2, 3, 4];
    let b = [5u8, 6, 7, 8];
    let c = [9u8, 10, 11, 12];
    let frames = [
        SliceFrame::new(&a, 2, 2).unwrap(),
        SliceFrame::new(&b, 2, 2).unwrap(),
        SliceFrame::new(&c, 2, 2).unwrap(),
    ];
    let out: Vec<u16> = array_pixels(&frames).unwrap();
    assert_eq!(out.len(), 2 * 2 * 3);
    assert_eq!(out, (1u16..=12).collect::<Vec<u16>>());
}

#[test]
fn array_sequence_of_one_frame_matches_single() {
    let a = [3u8, 1, 4, 1, 5, 9];
    let frames = [SliceFrame::new(&a, 2, 3).unwrap()];
    let layered: Vec<u32> = array_pixels(&frames).unwrap();
    let single: Vec<u32> = pixels(&frames[0]);
    assert_eq!(layered, single);
}

#[test]
fn array_rejects_mismatched_sizes() {
    let a = [1u8, 2, 3, 4];
    let b = [5u8, 6, 7, 8];
    let frames = [
        SliceFrame::new(&a, 2, 2).unwrap(),
        SliceFrame::new(&b, 4, 1).unwrap(),
    ];
    let out: Option<Vec<u16>> = array_pixels(&frames);
    assert!(out.is_none());
    assert!(!all_sized_as(&frames, 2, 2));
    assert!(all_sized_as(&frames[..1], 2, 2));
}
