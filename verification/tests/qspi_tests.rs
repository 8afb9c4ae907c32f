//! Command framing on the quad-SPI link: address validation, the read bit,
//! and bus-mode selection.

use capture_timestamp::qspi::{DdsMode, Error, QspiInterface, QspiMode};

#[test]
fn write_frames_address_then_payload() {
    let mut q = QspiInterface::new();
    let data = vec![0x11, 0x22, 0x33];
    assert_eq!(q.write(0x21, &data), Ok(()));
    assert_eq!(q.sent, vec![0x21, 0x11, 0x22, 0x33]);
}

#[test]
fn read_sets_the_read_bit() {
    let mut q = QspiInterface::new();
    let mut dest = vec![0u8; 4];
    assert_eq!(q.read(0x21, &mut dest), Ok(()));
    assert_eq!(q.sent, vec![0xA1]);
    assert_eq!(dest.len(), 4);
}

#[test]
fn invalid_address_is_rejected_untouched() {
    let mut q = QspiInterface::new();
    let data = vec![0x11];
    assert_eq!(q.write(0x80, &data), Err(Error::InvalidAddress));
    assert_eq!(q.write(0xFF, &data), Err(Error::InvalidAddress));
    let mut dest = vec![0u8; 2];
    assert_eq!(q.read(0x80, &mut dest), Err(Error::InvalidAddress));
    assert!(q.sent.is_empty());
}

#[test]
fn bus_mode_serves_each_dds_mode() {
    let mut q = QspiInterface::new();
    assert_eq!(q.configure_mode(DdsMode::SingleBitTwoWire), Ok(()));
    assert_eq!(q.mode, QspiMode::OneBit);
    assert_eq!(q.configure_mode(DdsMode::SingleBitThreeWire), Ok(()));
    assert_eq!(q.mode, QspiMode::OneBit);
    assert_eq!(q.configure_mode(DdsMode::TwoBitSerial), Ok(()));
    assert_eq!(q.mode, QspiMode::TwoBit);
    assert_eq!(q.configure_mode(DdsMode::FourBitSerial), Ok(()));
    assert_eq!(q.mode, QspiMode::FourBit);
}
