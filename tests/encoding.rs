use base64::Engine;
use quick_launcher::{encode, png_data_url, png_file_data_url, readback_to_data_url, IconError, PixelBuffer};

const PREFIX: &str = "data:image/png;base64,";

fn decode(url: &str) -> (u32, u32, Vec<u8>) {
    assert!(url.starts_with(PREFIX));
    let png = base64::engine::general_purpose::STANDARD.decode(&url[PREFIX.len()..]).unwrap();
    let img = image::load_from_memory_with_format(&png, image::ImageFormat::Png).unwrap().to_rgba8();
    (img.width(), img.height(), img.into_raw())
}

#[test]
fn encode_round_trips_pixels() {
    let rgba: Vec<u8> = (0..3 * 2 * 4).map(|i| (i * 11 % 256) as u8).collect();
    let buf = PixelBuffer { width: 3, height: 2, rgba: rgba.clone() };
    let url = encode(&buf).unwrap();
    assert_eq!(decode(&url), (3, 2, rgba));
}

#[test]
fn encode_round_trips_single_transparent_pixel() {
    let buf = PixelBuffer { width: 1, height: 1, rgba: vec![9, 8, 7, 0] };
    let url = encode(&buf).unwrap();
    assert_eq!(decode(&url), (1, 1, vec![9, 8, 7, 0]));
}

#[test]
fn data_url_has_fixed_prefix() {
    assert_eq!(png_data_url("QUJD"), "data:image/png;base64,QUJD");
}

#[test]
fn png_file_is_base64_encoded() {
    assert_eq!(png_file_data_url(&vec![b'A', b'B', b'C', b'D']), "data:image/png;base64,QUJDRA==");
}

#[test]
fn readback_is_swapped_before_encoding() {
    let url = readback_to_data_url(2, 1, 1, vec![1, 2, 3, 4, 5, 6, 7, 8]).unwrap();
    assert_eq!(decode(&url), (2, 1, vec![3, 2, 1, 4, 7, 6, 5, 8]));
}

#[test]
fn failed_readback_is_not_encoded() {
    assert_eq!(readback_to_data_url(1, 1, 0, vec![0, 0, 0, 0]), Err(IconError::ReadbackFailed));
}
