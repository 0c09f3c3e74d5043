use nes::rom::{MirroringType, Rom, RomError};

fn image(prg_banks: u8, chr_banks: u8, ctrl1: u8, ctrl2: u8) -> Vec<u8> {
    let mut data = vec![0x4E, 0x45, 0x53, 0x1A, prg_banks, chr_banks, ctrl1, ctrl2];
    data.extend_from_slice(&[0u8; 8]);
    data.extend(std::iter::repeat(0u8).take(prg_banks as usize * 0x4000));
    data.extend(std::iter::repeat(0u8).take(chr_banks as usize * 0x2000));
    data
}

#[test]
fn parses_minimal_image() {
    let mut data = image(1, 1, 0, 0);
    data[16] = 0xAA;
    data[16 + 0x4000] = 0xBB;
    let rom = Rom::new(&data).unwrap();
    assert_eq!(rom.prg_rom.len(), 0x4000);
    assert_eq!(rom.chr_rom.len(), 0x2000);
    assert_eq!(rom.prg_rom[0], 0xAA);
    assert_eq!(rom.chr_rom[0], 0xBB);
    assert_eq!(rom.mapper_number, 0);
    assert!(matches!(rom.mirroring, MirroringType::Horizontal));
    assert!(!rom.battery_backed_ram);
    assert!(!rom.trainer);
}

#[test]
fn mirroring_and_flag_bits() {
    let data = image(1, 0, 0b0000_0111, 0);
    let rom = Rom::new(&data).unwrap();
    assert!(matches!(rom.mirroring, MirroringType::Vertical));
    assert!(rom.battery_backed_ram);
    assert!(rom.trainer);

    let data = image(1, 0, 0b0000_1000, 0);
    let rom = Rom::new(&data).unwrap();
    assert!(matches!(rom.mirroring, MirroringType::FourScreen));
}

#[test]
fn mapper_number_from_nibbles() {
    let data = image(1, 0, 0x40, 0x20);
    let rom = Rom::new(&data).unwrap();
    assert_eq!(rom.mapper_number, 0x24);
}

#[test]
fn rejects_short_image() {
    assert!(matches!(Rom::new(&[0x4E, 0x45, 0x53]), Err(RomError::TooShort)));
}

#[test]
fn rejects_bad_magic() {
    let mut data = image(1, 0, 0, 0);
    data[0] = 0x4F;
    assert!(matches!(Rom::new(&data), Err(RomError::BadMagic)));
}

#[test]
fn rejects_nonzero_header_tail() {
    let mut data = image(1, 0, 0, 0);
    data[12] = 1;
    assert!(matches!(Rom::new(&data), Err(RomError::NonzeroHeaderTail)));
}

#[test]
fn rejects_bad_control_bits() {
    let data = image(1, 0, 0, 0x05);
    assert!(matches!(Rom::new(&data), Err(RomError::BadControlBits)));
}

#[test]
fn rejects_size_mismatch() {
    let mut data = image(1, 0, 0, 0);
    data.push(0);
    assert!(matches!(Rom::new(&data), Err(RomError::SizeMismatch)));
    let mut data = image(2, 1, 0, 0);
    data.pop();
    assert!(matches!(Rom::new(&data), Err(RomError::SizeMismatch)));
}
