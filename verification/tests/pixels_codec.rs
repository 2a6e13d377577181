use captest::codec::{decode_image, encode_image, ContainerFormat, DecodeError, EncodeError};
use captest::pixels::{bgra_to_rgb8, normalize, CanonicalImage, NormalizeError, RawFrame};

fn bgra_frame(width: u32, height: u32, data: Vec<u8>) -> RawFrame {
    RawFrame::Bgra { width, height, data, display_time: Some(0) }
}

#[test]
fn normalizer_exactness_two_pixels() {
    // For bytes [B0,G0,R0,A0,B1,G1,R1,A1] the output must be exactly
    // [R0,G0,B0,R1,G1,B1].
    let data = vec![10u8, 20, 30, 255, 40, 50, 60, 128];
    let img = normalize(bgra_frame(2, 1, data)).unwrap();
    assert_eq!(img.width, 2);
    assert_eq!(img.height, 1);
    assert_eq!(img.pixels, vec![30u8, 20, 10, 60, 50, 40]);
}

#[test]
fn normalizer_rejects_length_not_multiple_of_four() {
    let r = normalize(bgra_frame(1, 1, vec![1u8, 2, 3]));
    assert!(matches!(r, Err(NormalizeError::MalformedBuffer)));
}

#[test]
fn normalizer_rejects_dimension_mismatch() {
    // Eight bytes is a whole number of pixels, but not 3*2 pixels.
    let r = normalize(bgra_frame(3, 2, vec![0u8; 8]));
    assert!(matches!(r, Err(NormalizeError::MalformedBuffer)));
}

#[test]
fn normalizer_rejects_other_variants() {
    let r = normalize(RawFrame::Rgb {
        width: 1,
        height: 1,
        data: vec![1u8, 2, 3],
        display_time: None,
    });
    assert!(matches!(r, Err(NormalizeError::UnsupportedVariant)));
    let r = normalize(RawFrame::Bgrx { width: 1, height: 1, data: vec![1u8, 2, 3, 4] });
    assert!(matches!(r, Err(NormalizeError::UnsupportedVariant)));
}

#[test]
fn normalizer_accepts_empty_frame() {
    let img = normalize(bgra_frame(0, 0, Vec::new())).unwrap();
    assert_eq!(img.width, 0);
    assert_eq!(img.height, 0);
    assert!(img.pixels.is_empty());
}

#[test]
fn bgra_conversion_drops_alpha() {
    let rgb = bgra_to_rgb8(&vec![1u8, 2, 3, 4, 5, 6, 7, 8, 9, 10, 11, 12]);
    assert_eq!(rgb, vec![3u8, 2, 1, 7, 6, 5, 11, 10, 9]);
}

#[test]
fn png_round_trip_is_exact() {
    // The lossless configuration: encoding then decoding reproduces the
    // dimensions and every pixel byte exactly.
    let pixels: Vec<u8> = (0..5u32 * 4 * 3).map(|i| (i * 7 % 251) as u8).collect();
    let img = CanonicalImage { width: 5, height: 4, pixels: pixels.clone() };
    let encoded = encode_image(&img, ContainerFormat::Png).unwrap();
    assert_eq!(encoded.format, ContainerFormat::Png);
    let back = decode_image(&encoded.bytes).unwrap();
    assert_eq!(back.width, 5);
    assert_eq!(back.height, 4);
    assert_eq!(back.pixels, pixels);
}

#[test]
fn jpeg_round_trip_keeps_dimensions() {
    // The lossy configuration: dimensions survive exactly, pixel values
    // within the codec's tolerance.
    let pixels = vec![200u8; 6 * 2 * 3];
    let img = CanonicalImage { width: 6, height: 2, pixels };
    let encoded = encode_image(&img, ContainerFormat::Jpeg { quality: 75 }).unwrap();
    assert_eq!(encoded.format, ContainerFormat::Jpeg { quality: 75 });
    let back = decode_image(&encoded.bytes).unwrap();
    assert_eq!(back.width, 6);
    assert_eq!(back.height, 2);
    assert_eq!(back.pixels.len(), 6 * 2 * 3);
    for (a, b) in back.pixels.iter().zip([200u8; 36].iter()) {
        assert!((*a as i32 - *b as i32).abs() <= 8);
    }
}

#[test]
fn encoder_distrusts_buffer_length() {
    // The defensive check: a canonical image whose buffer contradicts its
    // dimensions is refused, not encoded truncated.
    let img = CanonicalImage { width: 4, height: 4, pixels: vec![0u8; 7] };
    let r = encode_image(&img, ContainerFormat::Png);
    assert!(matches!(r, Err(EncodeError::BufferSizeMismatch)));
    let r = encode_image(&img, ContainerFormat::Jpeg { quality: 75 });
    assert!(matches!(r, Err(EncodeError::BufferSizeMismatch)));
}

#[test]
fn encoder_rejects_zero_sized_image() {
    let img = CanonicalImage { width: 0, height: 0, pixels: Vec::new() };
    let r = encode_image(&img, ContainerFormat::Png);
    assert!(matches!(r, Err(EncodeError::EncoderFailure)));
}

#[test]
fn jpeg_dimension_limit_is_exact() {
    // JPEG represents sides up to 65535 only; PNG has no such bound.
    let img = CanonicalImage { width: 65536, height: 1, pixels: vec![0u8; 65536 * 3] };
    let r = encode_image(&img, ContainerFormat::Jpeg { quality: 75 });
    assert!(matches!(r, Err(EncodeError::EncoderFailure)));
    assert!(encode_image(&img, ContainerFormat::Png).is_ok());
    let edge = CanonicalImage { width: 65535, height: 1, pixels: vec![0u8; 65535 * 3] };
    assert!(encode_image(&edge, ContainerFormat::Jpeg { quality: 75 }).is_ok());
}

#[test]
fn decoder_rejects_garbage() {
    let r = decode_image(&vec![0u8, 1, 2, 3, 4, 5, 6, 7]);
    assert!(matches!(r, Err(DecodeError::Undecodable)));
}

#[test]
fn encoded_bytes_are_not_the_pixels() {
    // The encoder must really produce a container, not hand the buffer back.
    let pixels = vec![7u8; 3 * 3 * 3];
    let img = CanonicalImage { width: 3, height: 3, pixels: pixels.clone() };
    let encoded = encode_image(&img, ContainerFormat::Png).unwrap();
    assert_ne!(encoded.bytes, pixels);
    // A PNG stream starts with the fixed signature.
    assert_eq!(&encoded.bytes[..8], &[137u8, 80, 78, 71, 13, 10, 26, 10]);
}
