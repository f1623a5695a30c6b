use core_graphics2::display::{
    bit_depth, display_list_buffer, display_list_capacity, displays_from_list,
    get_displays_from_ids, kCGNullDirectDisplay, kIO16BitFloatPixels, kIO30BitDirectPixels,
    kIO32BitFloatPixels, kIO64BitDirectPixels, CGDisplay, IO16BitDirectPixels,
    IO1BitIndexedPixels, IO2BitIndexedPixels, IO32BitDirectPixels, IO4BitIndexedPixels,
    IO8BitIndexedPixels, IO8BitOverlayPixels, IOYUV422Pixels,
};
use core_graphics2::error::CGError;

#[test]
fn display_keeps_its_id() {
    assert_eq!(CGDisplay::new(7).id, 7);
    assert_eq!(CGDisplay::new(0).id, kCGNullDirectDisplay);
    assert_eq!(CGDisplay::new(u32::MAX).id, u32::MAX);
    assert_eq!(CGDisplay::new(3), CGDisplay { id: 3 });
}

#[test]
fn displays_from_ids_cuts_the_buffer_to_the_count() {
    let mut ids = vec![11, 22, 33, 0, 0];
    let displays = get_displays_from_ids(&mut ids, 3).expect("displays");
    assert_eq!(ids, vec![11, 22, 33]);
    assert_eq!(displays, vec![CGDisplay::new(11), CGDisplay::new(22), CGDisplay::new(33)]);
}

#[test]
fn displays_from_ids_with_a_count_beyond_the_buffer_takes_all() {
    let mut ids = vec![5, 6];
    let displays = get_displays_from_ids(&mut ids, 10).expect("displays");
    assert_eq!(ids, vec![5, 6]);
    assert_eq!(displays, vec![CGDisplay::new(5), CGDisplay::new(6)]);
}

#[test]
fn displays_from_ids_with_no_count_is_an_empty_list() {
    let mut ids = vec![5, 6];
    let displays = get_displays_from_ids(&mut ids, 0).expect("displays");
    assert!(ids.is_empty());
    assert!(displays.is_empty());

    let mut none: Vec<u32> = Vec::new();
    assert_eq!(get_displays_from_ids(&mut none, 4), Some(Vec::new()));
}

#[test]
fn failed_list_query_gives_nothing_and_leaves_the_buffer() {
    let mut ids = vec![1, 2, 3];
    assert_eq!(displays_from_list(CGError::Failure, &mut ids, 2), None);
    assert_eq!(ids, vec![1, 2, 3]);
    assert_eq!(displays_from_list(CGError::IllegalArgument, &mut ids, 0), None);
    assert_eq!(ids, vec![1, 2, 3]);
}

#[test]
fn successful_list_query_gives_the_displays_written() {
    let mut ids = vec![1, 2, 3];
    let displays = displays_from_list(CGError::Success, &mut ids, 2).expect("displays");
    assert_eq!(displays, vec![CGDisplay::new(1), CGDisplay::new(2)]);
    assert_eq!(ids, vec![1, 2]);
}

#[test]
fn list_capacity_is_the_low_32_bits() {
    assert_eq!(display_list_capacity(0), 0);
    assert_eq!(display_list_capacity(16), 16);
    assert_eq!(display_list_capacity(u32::MAX as usize), u32::MAX);
    if usize::BITS > 32 {
        let big = (1u64 << 32) as usize;
        assert_eq!(display_list_capacity(big), 0);
        assert_eq!(display_list_capacity(big + 5), 5);
    }
}

#[test]
fn list_buffer_is_filled_with_the_null_display() {
    assert!(display_list_buffer(0).is_empty());
    assert_eq!(display_list_buffer(4), vec![kCGNullDirectDisplay; 4]);
}

#[test]
fn bit_depth_of_each_known_encoding() {
    assert_eq!(bit_depth(Some(kIO32BitFloatPixels)), 96);
    assert_eq!(bit_depth(Some(kIO64BitDirectPixels)), 64);
    assert_eq!(bit_depth(Some(kIO16BitFloatPixels)), 48);
    assert_eq!(bit_depth(Some(kIO30BitDirectPixels)), 30);
    assert_eq!(bit_depth(Some(IO32BitDirectPixels)), 32);
    assert_eq!(bit_depth(Some(IO16BitDirectPixels)), 16);
    assert_eq!(bit_depth(Some(IOYUV422Pixels)), 16);
    assert_eq!(bit_depth(Some(IO8BitOverlayPixels)), 8);
    assert_eq!(bit_depth(Some(IO8BitIndexedPixels)), 8);
    assert_eq!(bit_depth(Some(IO4BitIndexedPixels)), 4);
    assert_eq!(bit_depth(Some(IO2BitIndexedPixels)), 2);
    assert_eq!(bit_depth(Some(IO1BitIndexedPixels)), 1);
}

#[test]
fn bit_depth_of_encodings_written_out() {
    assert_eq!(bit_depth(Some("--------RRRRRRRRGGGGGGGGBBBBBBBB")), 32);
    assert_eq!(bit_depth(Some("--RRRRRRRRRRGGGGGGGGGGBBBBBBBBBB")), 30);
    assert_eq!(bit_depth(Some("-RRRRRGGGGGBBBBB")), 16);
    assert_eq!(bit_depth(Some("Y4U2V2")), 16);
    assert_eq!(bit_depth(Some("PPPPPPPP")), 8);
    assert_eq!(bit_depth(Some("P")), 1);
}

#[test]
fn bit_depth_of_an_unknown_or_missing_encoding_is_zero() {
    assert_eq!(bit_depth(None), 0);
    assert_eq!(bit_depth(Some("")), 0);
    assert_eq!(bit_depth(Some("PPP")), 0);
    assert_eq!(bit_depth(Some("p")), 0);
    assert_eq!(bit_depth(Some("--------RRRRRRRRGGGGGGGGBBBBBBBB ")), 0);
    assert_eq!(bit_depth(Some("--------RRRRRRRRGGGGGGGGBBBBBBBA")), 0);
    assert_eq!(bit_depth(Some("R\u{e9}")), 0);
}
