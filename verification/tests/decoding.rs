use raw_rs::decoder::arw::{lower_hex_string, ArwDecoder};
use raw_rs::decoder::{Buffer, Decoder, DecodingError, Endian, RawLoader};

#[test]
fn endian_new_picks_byte_order() {
    assert!(matches!(Endian::new(true), Endian::BigEndian));
    assert!(matches!(Endian::new(false), Endian::LittleEndian));
}

#[test]
fn read_u16_big_endian() {
    let buf = [0x12u8, 0x34, 0x56, 0x78];
    assert_eq!(Endian::BigEndian.read_u16(&buf, 0), 0x1234);
    assert_eq!(Endian::BigEndian.read_u16(&buf, 1), 0x3456);
    assert_eq!(Endian::BigEndian.read_u16(&buf, 2), 0x5678);
}

#[test]
fn read_u16_little_endian() {
    let buf = [0x12u8, 0x34, 0x56, 0x78];
    assert_eq!(Endian::LittleEndian.read_u16(&buf, 0), 0x3412);
    assert_eq!(Endian::LittleEndian.read_u16(&buf, 2), 0x7856);
}

#[test]
fn byte_orders_mirror_on_swapped_bytes() {
    let buf = [0xabu8, 0xcd];
    let swapped = [0xcdu8, 0xab];
    assert_eq!(
        Endian::BigEndian.read_u16(&buf, 0),
        Endian::LittleEndian.read_u16(&swapped, 0)
    );
    assert_eq!(
        Endian::LittleEndian.read_u16(&buf, 0),
        Endian::BigEndian.read_u16(&swapped, 0)
    );
}

#[test]
fn decoding_error_keeps_message() {
    let e = DecodingError::new("bad file");
    assert_eq!(e.message(), "bad file");
}

#[test]
fn buffer_from_bytes() {
    let b = Buffer::new(Ok(vec![1u8, 2, 3])).unwrap();
    assert_eq!(b.size(), 3);
    assert_eq!(b.bytes(), &[1u8, 2, 3][..]);
}

#[test]
fn buffer_from_empty_read() {
    let b = Buffer::new(Ok(Vec::new())).unwrap();
    assert_eq!(b.size(), 0);
}

#[test]
fn buffer_from_read_error() {
    let e = Buffer::new(Err("permission denied".to_string())).unwrap_err();
    assert_eq!(e.message(), "permission denied");
}

#[test]
fn raw_loader_has_arw_decoder() {
    let loader = RawLoader::new();
    let buf = Buffer::new(Ok(vec![0u8; 4])).unwrap();
    assert!(loader.get_decoder(&buf).is_ok());
}

#[test]
fn raw_loader_decode_never_succeeds() {
    let loader = RawLoader::new();
    let e = loader.decode(Ok(vec![0x49u8, 0x49, 0x2a, 0x00])).unwrap_err();
    assert_eq!(e.message(), "error");
    let e = loader.decode(Ok(Vec::new())).unwrap_err();
    assert_eq!(e.message(), "error");
}

#[test]
fn raw_loader_decode_passes_read_error_on() {
    let loader = RawLoader::new();
    let e = loader.decode(Err("No such file or directory".to_string())).unwrap_err();
    assert_eq!(e.message(), "No such file or directory");
}

#[test]
fn arw_to_image_fails() {
    let d = ArwDecoder {};
    assert_eq!(d.to_image().unwrap_err().message(), "error");
}

#[test]
fn arw_new_little_endian_marker() {
    let e = ArwDecoder::new(&[0x49, 0x49, 0x2a, 0x00]).unwrap_err();
    assert_eq!(e.message(), "TIFF: don't know marker");
}

#[test]
fn arw_new_big_endian_marker() {
    let e = ArwDecoder::new(&[0x4d, 0x4d]).unwrap_err();
    assert_eq!(e.message(), "TIFF: don't know marker");
}

#[test]
fn arw_new_invalid_marker() {
    // read little-endian: 0x4d4e
    let e = ArwDecoder::new(&[0x4e, 0x4d, 0x00]).unwrap_err();
    assert_eq!(e.message(), "invalid format 0x4d4e");
    let e = ArwDecoder::new(&[0x05, 0x00]).unwrap_err();
    assert_eq!(e.message(), "invalid format 0x5");
    let e = ArwDecoder::new(&[0x00, 0x00]).unwrap_err();
    assert_eq!(e.message(), "invalid format 0x0");
    let e = ArwDecoder::new(&[0xff, 0xff]).unwrap_err();
    assert_eq!(e.message(), "invalid format 0xffff");
}

#[test]
fn lower_hex_matches_format() {
    for n in [0u16, 1, 9, 10, 15, 16, 255, 256, 0x1234, 0xabcd, 0x4949, 0xffff] {
        assert_eq!(lower_hex_string(n), format!("{:x}", n));
    }
}
