use capture_as_image::bitmap::{decode, encode};

fn le32(v: u32) -> [u8; 4] {
    [
        (v & 0xff) as u8,
        ((v >> 8) & 0xff) as u8,
        ((v >> 16) & 0xff) as u8,
        ((v >> 24) & 0xff) as u8,
    ]
}

#[test]
fn encode_empty_is_header_only() {
    let pixels: Vec<u8> = vec![];
    let stream = encode(0, 0, &pixels);
    assert_eq!(stream.len(), 54);
    let mut expected: Vec<u8> = vec![0x42, 0x4D];
    expected.extend_from_slice(&le32(54));
    expected.extend_from_slice(&[0, 0, 0, 0]);
    expected.extend_from_slice(&le32(54));
    expected.extend_from_slice(&le32(40));
    expected.extend_from_slice(&le32(0));
    expected.extend_from_slice(&le32(0));
    expected.extend_from_slice(&[1, 0, 32, 0]);
    expected.extend_from_slice(&[0; 24]);
    assert_eq!(stream, expected);
}

#[test]
fn encode_one_pixel_exact_bytes() {
    let pixels: Vec<u8> = vec![10, 20, 30, 40];
    let stream = encode(1, 1, &pixels);
    assert_eq!(stream.len(), 58);
    assert_eq!(&stream[0..2], &[0x42, 0x4D]);
    assert_eq!(&stream[2..6], &le32(58));
    assert_eq!(&stream[10..14], &le32(54));
    assert_eq!(&stream[14..18], &le32(40));
    assert_eq!(&stream[18..22], &le32(1));
    assert_eq!(&stream[22..26], &le32(1));
    assert_eq!(&stream[26..28], &[1, 0]);
    assert_eq!(&stream[28..30], &[32, 0]);
    assert_eq!(&stream[30..34], &le32(0));
    assert_eq!(&stream[54..58], &[10, 20, 30, 40]);
}

#[test]
fn encode_length_magic_and_dimension_fields() {
    let width: u32 = 3;
    let height: u32 = 2;
    let pixels: Vec<u8> = (0..(width * height * 4) as u8).collect();
    let stream = encode(width, height, &pixels);
    assert_eq!(stream.len(), 54 + pixels.len());
    assert_eq!(stream[0], 0x42);
    assert_eq!(stream[1], 0x4D);
    assert_eq!(&stream[18..22], &le32(width));
    assert_eq!(&stream[22..26], &le32(height));
    assert_eq!(&stream[54..], &pixels[..]);
}

#[test]
fn encode_twice_is_byte_identical() {
    let pixels: Vec<u8> = vec![9, 8, 7, 6, 5, 4, 3, 2];
    let first = encode(2, 1, &pixels);
    let second = encode(2, 1, &pixels);
    assert_eq!(first, second);
}

#[test]
fn decode_round_trips_encode() {
    let width: u32 = 2;
    let height: u32 = 3;
    let pixels: Vec<u8> = (100..124).collect();
    let stream = encode(width, height, &pixels);
    let decoded = decode(&stream).expect("an encoded stream must decode");
    assert_eq!(decoded.0, width);
    assert_eq!(decoded.1, height);
    assert_eq!(decoded.2, pixels);
}

#[test]
fn decode_round_trips_zero_area() {
    let pixels: Vec<u8> = vec![];
    let stream = encode(7, 0, &pixels);
    assert_eq!(stream.len(), 54);
    let decoded = decode(&stream).expect("a zero-area stream must decode");
    assert_eq!(decoded.0, 7);
    assert_eq!(decoded.1, 0);
    assert!(decoded.2.is_empty());
}

#[test]
fn decode_rejects_short_streams() {
    let stream: Vec<u8> = vec![0x42, 0x4D, 0, 0];
    assert!(decode(&stream).is_none());
    let stream: Vec<u8> = vec![0; 53];
    assert!(decode(&stream).is_none());
}

#[test]
fn decode_rejects_wrong_magic() {
    let pixels: Vec<u8> = vec![1, 2, 3, 4];
    let mut stream = encode(1, 1, &pixels);
    stream[0] = 0x43;
    assert!(decode(&stream).is_none());
}

#[test]
fn decode_rejects_wrong_size_field() {
    let pixels: Vec<u8> = vec![1, 2, 3, 4];
    let mut stream = encode(1, 1, &pixels);
    stream[2] = stream[2].wrapping_add(1);
    assert!(decode(&stream).is_none());
}

#[test]
fn decode_rejects_inconsistent_dimensions() {
    let pixels: Vec<u8> = vec![1, 2, 3, 4];
    let mut stream = encode(1, 1, &pixels);
    // claim a wider image without growing the body
    stream[18] = 2;
    assert!(decode(&stream).is_none());
}
