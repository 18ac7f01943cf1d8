use netdisplay::datagram::{decode, DatagramHeader, DecodeError, HEADER_LEN, MARKER, MAX_PIXEL_LEN};

fn frame(x: u16, y: u16, width: u16, height: u16, pixels: &[u8]) -> Vec<u8> {
    let mut bytes = vec![0x55, 0xAA];
    for field in [x, y, width, height] {
        bytes.push((field & 0xff) as u8);
        bytes.push((field >> 8) as u8);
    }
    bytes.extend_from_slice(pixels);
    bytes
}

#[test]
fn two_pixel_tile_decodes() {
    let bytes = [0x55, 0xAA, 0, 0, 0, 0, 2, 0, 1, 0, 10, 20, 30, 40, 50, 60];
    let blit = decode(&bytes).unwrap();
    assert_eq!(blit.x(), 0);
    assert_eq!(blit.y(), 0);
    assert_eq!(blit.width(), 2);
    assert_eq!(blit.height(), 1);
    assert_eq!(blit.pixels(), &[10, 20, 30, 40, 50, 60]);
    assert!(!blit.is_empty());
}

#[test]
fn one_pixel_byte_missing_is_too_short() {
    let bytes = [0x55, 0xAA, 0, 0, 0, 0, 2, 0, 1, 0, 10, 20, 30, 40, 50];
    assert_eq!(decode(&bytes).err(), Some(DecodeError::TooShort));
}

#[test]
fn nine_bytes_are_too_short_whatever_they_hold() {
    assert_eq!(decode(&[0u8; 9]).err(), Some(DecodeError::TooShort));
    assert_eq!(decode(&[0xffu8; 9]).err(), Some(DecodeError::TooShort));
    let well_marked = [0x55, 0xAA, 0, 0, 0, 0, 0, 0, 0];
    assert_eq!(decode(&well_marked).err(), Some(DecodeError::TooShort));
}

#[test]
fn every_length_below_the_header_is_too_short() {
    let bytes = [0x55, 0xAA, 0, 0, 0, 0, 0, 0, 0, 0];
    for len in 0..HEADER_LEN {
        assert_eq!(decode(&bytes[..len]).err(), Some(DecodeError::TooShort));
    }
    assert!(decode(&bytes).is_ok());
}

#[test]
fn zero_marker_is_bad_marker() {
    let bytes = [0x00, 0x00, 0, 0, 0, 0, 2, 0, 1, 0, 10, 20, 30, 40, 50, 60];
    assert_eq!(decode(&bytes).err(), Some(DecodeError::BadMarker));
}

#[test]
fn marker_in_big_endian_order_is_bad_marker() {
    let bytes = [0xAA, 0x55, 0, 0, 0, 0, 2, 0, 1, 0, 10, 20, 30, 40, 50, 60];
    assert_eq!(decode(&bytes).err(), Some(DecodeError::BadMarker));
}

#[test]
fn marker_is_checked_before_the_size() {
    let bytes = [0x54, 0xAA, 0, 0, 0, 0, 0xff, 0xff, 0xff, 0xff];
    assert_eq!(decode(&bytes).err(), Some(DecodeError::BadMarker));
}

#[test]
fn fields_are_read_little_endian() {
    let bytes = [0x55, 0xAA, 0x02, 0x01, 0x04, 0x03, 0x01, 0x00, 0x01, 0x00, 7, 8, 9];
    let blit = decode(&bytes).unwrap();
    assert_eq!(blit.x(), 0x0102);
    assert_eq!(blit.y(), 0x0304);
    assert_eq!(blit.width(), 1);
    assert_eq!(blit.height(), 1);
    assert_eq!(blit.pixels(), &[7, 8, 9]);
}

#[test]
fn geometry_takes_the_full_sixteen_bits() {
    let bytes = frame(0xffff, 0xfffe, 0, 0xffff, &[]);
    let blit = decode(&bytes).unwrap();
    assert_eq!(blit.x(), 0xffff);
    assert_eq!(blit.y(), 0xfffe);
    assert_eq!(blit.width(), 0);
    assert_eq!(blit.height(), 0xffff);
}

#[test]
fn zero_width_or_height_is_accepted_without_pixels() {
    for (width, height) in [(0u16, 0u16), (0, 7), (7, 0)] {
        let bytes = frame(3, 4, width, height, &[]);
        let blit = decode(&bytes).unwrap();
        assert_eq!(blit.width(), width);
        assert_eq!(blit.height(), height);
        assert!(blit.is_empty());
        assert!(blit.pixels().is_empty());
    }
}

#[test]
fn zero_area_tile_ignores_what_follows() {
    let bytes = frame(0, 0, 0, 9, &[1, 2, 3, 4]);
    let blit = decode(&bytes).unwrap();
    assert!(blit.pixels().is_empty());
}

#[test]
fn bytes_behind_the_pixel_data_are_ignored() {
    let bytes = frame(1, 2, 1, 2, &[1, 2, 3, 4, 5, 6, 99, 98, 97]);
    let blit = decode(&bytes).unwrap();
    assert_eq!(blit.pixels(), &[1, 2, 3, 4, 5, 6]);
}

#[test]
fn pixel_data_is_the_buffer_from_offset_ten() {
    let pixels: Vec<u8> = (0..4 * 5 * 3).map(|i| i as u8).collect();
    let bytes = frame(9, 8, 4, 5, &pixels);
    let blit = decode(&bytes).unwrap();
    assert_eq!(blit.pixels().len(), 4 * 5 * 3);
    assert_eq!(blit.pixels(), &bytes[10..10 + 4 * 5 * 3]);
}

#[test]
fn header_alone_with_a_pixel_announced_is_too_short() {
    let bytes = frame(0, 0, 1, 1, &[]);
    assert_eq!(decode(&bytes).err(), Some(DecodeError::TooShort));
    let bytes = frame(0, 0, 1, 1, &[1, 2]);
    assert_eq!(decode(&bytes).err(), Some(DecodeError::TooShort));
    let bytes = frame(0, 0, 1, 1, &[1, 2, 3]);
    assert!(decode(&bytes).is_ok());
}

#[test]
fn largest_tile_does_not_overflow() {
    let bytes = frame(0, 0, 0xffff, 0xffff, &[0u8; 1190]);
    assert_eq!(decode(&bytes).err(), Some(DecodeError::TooShort));
    let header = DatagramHeader::parse(&bytes).unwrap();
    assert_eq!(header.pixel_len(), 12_884_508_675);
    assert_eq!(header.pixel_len(), MAX_PIXEL_LEN);
    assert_eq!(header.required_len(), 12_884_508_685);
}

#[test]
fn full_receive_buffer_holds_a_19_by_20_tile() {
    let mut buffer = vec![0u8; 1200];
    buffer[..10].copy_from_slice(&frame(0, 0, 19, 20, &[]));
    let blit = decode(&buffer).unwrap();
    assert_eq!(blit.pixels().len(), 1140);
    buffer[..10].copy_from_slice(&frame(0, 0, 20, 20, &[]));
    assert_eq!(decode(&buffer).err(), Some(DecodeError::TooShort));
}

#[test]
fn decoding_twice_gives_the_same_result() {
    let good = frame(5, 6, 2, 2, &[1, 2, 3, 4, 5, 6, 7, 8, 9, 10, 11, 12]);
    let first = decode(&good).unwrap();
    let second = decode(&good).unwrap();
    assert_eq!(
        (first.x(), first.y(), first.width(), first.height(), first.pixels()),
        (second.x(), second.y(), second.width(), second.height(), second.pixels())
    );
    let short = frame(5, 6, 2, 2, &[1, 2, 3]);
    assert_eq!(decode(&short).err(), decode(&short).err());
    let unmarked = [0u8; 32];
    assert_eq!(decode(&unmarked).err(), decode(&unmarked).err());
}

#[test]
fn header_parse_reads_the_four_fields() {
    let bytes = [0x55, 0xAA, 0x10, 0x00, 0x20, 0x00, 0x03, 0x00, 0x02, 0x00];
    let header = DatagramHeader::parse(&bytes).unwrap();
    assert_eq!(header, DatagramHeader { x: 16, y: 32, width: 3, height: 2 });
    assert_eq!(header.pixel_len(), 18);
    assert_eq!(header.required_len(), 28);
}

#[test]
fn header_parse_rejects_like_decode() {
    assert_eq!(DatagramHeader::parse(&[]).err(), Some(DecodeError::TooShort));
    assert_eq!(DatagramHeader::parse(&[0x55, 0xAA, 0, 0, 0, 0, 0, 0, 0]).err(), Some(DecodeError::TooShort));
    assert_eq!(DatagramHeader::parse(&[0x55, 0xAB, 0, 0, 0, 0, 0, 0, 0, 0]).err(), Some(DecodeError::BadMarker));
}

#[test]
fn header_parse_does_not_ask_for_the_pixels() {
    let bytes = frame(0, 0, 100, 100, &[]);
    assert!(DatagramHeader::parse(&bytes).is_ok());
    assert_eq!(decode(&bytes).err(), Some(DecodeError::TooShort));
}

#[test]
fn protocol_constants() {
    assert_eq!(HEADER_LEN, 10);
    assert_eq!(MARKER, 0xAA55);
}
