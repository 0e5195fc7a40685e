use rmskin_builder::{get_dll_bitness, BinaryError, Bitness};

fn pe_image(machine: u16) -> Vec<u8> {
    let mut buf = vec![0u8; 0x100];
    buf[0] = b'M';
    buf[1] = b'Z';
    let offset = 0x80_u32;
    buf[0x3c..0x40].copy_from_slice(&offset.to_le_bytes());
    buf[0x80..0x84].copy_from_slice(b"PE\x00\x00");
    buf[0x84..0x86].copy_from_slice(&machine.to_le_bytes());
    buf
}

fn invalid_binary(bad_header_val: bool) -> Result<Bitness, BinaryError> {
    let mut buf = [0u8; 80];
    let offset = 0x40_u32;
    buf[0x3c..0x40].copy_from_slice(&offset.to_le_bytes());
    if bad_header_val {
        buf[0x40..0x44].copy_from_slice(&[0xFF; 4]);
    } else {
        buf[0x40..0x44].copy_from_slice(b"PE\x00\x00");
        // an invalid machine type
        buf[0x44..0x46].copy_from_slice(&0_u16.to_le_bytes());
    }
    get_dll_bitness(&buf)
}

#[test]
fn validate_32bit() {
    assert!(matches!(
        get_dll_bitness(&pe_image(0x014c)),
        Ok(Bitness::Bit32())
    ));
}

#[test]
fn validate_64bit() {
    assert!(matches!(
        get_dll_bitness(&pe_image(0x8664)),
        Ok(Bitness::Bit64())
    ));
}

#[test]
fn bad_bin_header() {
    let result = invalid_binary(true);
    assert!(result.is_err());
    assert_eq!(result, Err(BinaryError::InvalidData));
}

#[test]
fn bad_machine_type() {
    let result = invalid_binary(false);
    assert!(matches!(result, Ok(Bitness::Unknown(0))));
}

#[test]
fn unknown_machine_keeps_its_code() {
    assert_eq!(get_dll_bitness(&pe_image(0xaa64)), Ok(Bitness::Unknown(0xaa64)));
    assert_eq!(get_dll_bitness(&pe_image(0x014d)), Ok(Bitness::Unknown(0x014d)));
    assert_eq!(get_dll_bitness(&pe_image(0xffff)), Ok(Bitness::Unknown(0xffff)));
}

#[test]
fn short_dos_header_is_truncated() {
    assert_eq!(get_dll_bitness(&[]), Err(BinaryError::UnexpectedEof));
    assert_eq!(get_dll_bitness(&[0u8; 63]), Err(BinaryError::UnexpectedEof));
}

#[test]
fn pe_offset_behind_the_end_is_truncated() {
    let mut buf = pe_image(0x014c);
    buf[0x3c..0x40].copy_from_slice(&0xffff_fff0_u32.to_le_bytes());
    assert_eq!(get_dll_bitness(&buf), Err(BinaryError::UnexpectedEof));
    let mut buf = vec![0u8; 64];
    buf[0x3c] = 61;
    assert_eq!(get_dll_bitness(&buf), Err(BinaryError::UnexpectedEof));
}

#[test]
fn missing_machine_type_is_truncated() {
    let mut buf = vec![0u8; 0x45];
    buf[0x3c] = 0x40;
    buf[0x40..0x44].copy_from_slice(b"PE\x00\x00");
    assert_eq!(get_dll_bitness(&buf), Err(BinaryError::UnexpectedEof));
    buf.push(0x86);
    assert_eq!(get_dll_bitness(&buf), Ok(Bitness::Unknown(0x8600)));
}

#[test]
fn wrong_signature_comes_before_missing_machine_type() {
    let mut buf = vec![0u8; 0x44];
    buf[0x3c] = 0x40;
    buf[0x40..0x44].copy_from_slice(b"PE\x00\x01");
    assert_eq!(get_dll_bitness(&buf), Err(BinaryError::InvalidData));
}

#[test]
fn pe_header_may_overlap_the_dos_header() {
    let mut buf = vec![0u8; 64];
    buf[0x3c] = 0x10;
    buf[0x10..0x14].copy_from_slice(b"PE\x00\x00");
    buf[0x14..0x16].copy_from_slice(&0x8664_u16.to_le_bytes());
    assert_eq!(get_dll_bitness(&buf), Ok(Bitness::Bit64()));
}
