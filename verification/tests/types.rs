use mfrc522_async::picc::Command;
use mfrc522_async::{AtqA, Error, FifoData, GenericUid, Register, Sak, Type, Uid};

#[test]
fn test_atqa_creation() {
    let atqa = AtqA::new([0x04, 0x00]);
    assert_eq!(atqa.bytes(), [0x04, 0x00]);
}

#[test]
fn test_uid_creation() {
    let uid = Uid::Single(GenericUid::new([0x12, 0x34, 0x56, 0x78], 0x08));
    assert_eq!(uid.as_bytes(), &[0x12, 0x34, 0x56, 0x78]);
}

#[test]
fn test_generic_uid() {
    let uid = GenericUid::new([0x12, 0x34, 0x56, 0x78], 0x08);
    assert_eq!(uid.as_bytes(), &[0x12, 0x34, 0x56, 0x78]);
}

#[test]
fn test_fifo_data_copy_bits() {
    let fifo_data = FifoData {
        buffer: [0x12, 0x34, 0x00, 0x00, 0x00],
        valid_bytes: 2,
        valid_bits: 0,
    };

    let mut dst = [0u8; 6];
    let result_bits = fifo_data.copy_bits_to::<(), ()>(&mut dst, 0).unwrap();
    assert_eq!(result_bits, 16); // 2 bytes * 8 bits
    assert_eq!(dst[0], 0x12);
    assert_eq!(dst[1], 0x34);
}

#[test]
fn test_picc_command_values() {
    assert_eq!(Command::ReqA.byte(), 0x26);
    assert_eq!(Command::SelCl1.byte(), 0x93);
    assert_eq!(Command::SelCl2.byte(), 0x95);
    assert_eq!(Command::SelCl3.byte(), 0x97);
    assert_eq!(Command::CT.byte(), 0x88);
}

#[test]
fn test_register_values() {
    assert_eq!(Register::CommandReg.address(), 0x01);
    assert_eq!(Register::ComIrqReg.address(), 0x04);
    assert_eq!(Register::FIFODataReg.address(), 0x09);
    assert_eq!(Register::VersionReg.address(), 0x37);
}

#[test]
fn test_sak_type_detection() {
    // MIFARE Classic 1K
    let sak = Sak::from(0x08);
    assert_eq!(sak.get_type(), Type::Mifare1k);
    assert!(sak.is_complete());
    assert!(!sak.is_compliant());

    // MIFARE Ultralight
    let sak = Sak::from(0x00);
    assert_eq!(sak.get_type(), Type::MifareUL);
    assert!(sak.is_complete());
    assert!(!sak.is_compliant());

    // Not complete (cascade)
    let sak = Sak::from(0x04);
    assert_eq!(sak.get_type(), Type::NotComplete);
    assert!(!sak.is_complete());
}

#[test]
fn sak_types_of_other_cards() {
    assert_eq!(Sak::from(0x09).get_type(), Type::MifareMini);
    assert_eq!(Sak::from(0x18).get_type(), Type::Mifare4k);
    assert_eq!(Sak::from(0x10).get_type(), Type::MifarePlus);
    assert_eq!(Sak::from(0x11).get_type(), Type::MifarePlus);
    assert_eq!(Sak::from(0x01).get_type(), Type::TNP3XXX);
    assert_eq!(Sak::from(0x20).get_type(), Type::Iso14443_4);
    assert!(Sak::from(0x20).is_compliant());
    assert_eq!(Sak::from(0x40).get_type(), Type::Iso18092);
    assert_eq!(Sak::from(0x88).get_type(), Type::Mifare1k); // bit 8 is ignored
    assert_eq!(Sak::from(0x0C).get_type(), Type::Unknown);
    assert!(!Sak::from(0x0C).is_complete());
}

#[test]
fn uid_sizes_and_types() {
    let double = Uid::Double(GenericUid::new([1, 2, 3, 4, 5, 6, 7], 0x00));
    assert_eq!(double.as_bytes(), &[1, 2, 3, 4, 5, 6, 7]);
    assert_eq!(double.get_type(), Type::MifareUL);
    let triple = Uid::Triple(GenericUid::new([1, 2, 3, 4, 5, 6, 7, 8, 9, 10], 0x20));
    assert_eq!(triple.as_bytes().len(), 10);
    assert_eq!(triple.get_type(), Type::Iso14443_4);
    assert_eq!(GenericUid::new([9, 9, 9, 9], 0x18).get_type(), Type::Mifare4k);
}

#[test]
fn copy_bits_merges_the_partial_byte() {
    // 12 bits are known: the low nibble of dst[1] stays, the FIFO fills the rest.
    let fifo_data = FifoData { buffer: [0xAB, 0xCD, 0xEF, 0x00, 0x00], valid_bytes: 3, valid_bits: 4 };
    let mut dst = [0x11, 0x22, 0x33, 0x44, 0x55];
    let bits = fifo_data.copy_bits_to::<(), ()>(&mut dst, 12).unwrap();
    assert_eq!(dst, [0x11, 0xA2, 0xCD, 0xEF, 0x55]);
    assert_eq!(bits, 12 + 24 + 4);
}

#[test]
fn copy_bits_without_data_changes_nothing() {
    let fifo_data = FifoData { buffer: [0xFF; 5], valid_bytes: 0, valid_bits: 0 };
    let mut dst = [1u8, 2, 3];
    assert_eq!(fifo_data.copy_bits_to::<(), ()>(&mut dst, 9), Ok(9));
    assert_eq!(dst, [1, 2, 3]);
}

#[test]
fn copy_bits_without_room_fails() {
    let fifo_data = FifoData { buffer: [0xAB, 0xCD, 0xEF, 0x01, 0x02], valid_bytes: 5, valid_bits: 0 };
    let mut dst = [0u8; 5];
    // Known bits 8: the copy would start at byte 1 and need 5 bytes.
    assert_eq!(fifo_data.copy_bits_to::<(), ()>(&mut dst, 8), Err(Error::NoRoom));
    // The first byte was merged before the room was checked.
    assert_eq!(dst, [0x00, 0xAB, 0x00, 0x00, 0x00]);
}

#[test]
fn register_addresses_on_the_spi_bus() {
    assert_eq!(Register::VersionReg.read_address(), 0xEE);
    assert_eq!(Register::TxModeReg.write_address(), 0x24);
    assert_eq!(Register::CRCResultRegLow.read_address(), 0xC4);
    assert_eq!(Register::TestADCReg.address(), 0x3B);
    assert_eq!(mfrc522_async::register::Command::Transceive.byte(), 0x0C);
    assert_eq!(mfrc522_async::RxGain::DB48.register_value(), 0x70);
    assert_eq!(mfrc522_async::RxGain::DB33.register_value(), 0x40);
}
