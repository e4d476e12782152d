use mfrc522_async::bus::{Action, Progress, Reply, SpiOp};
use mfrc522_async::{AtqA, Error, FifoData, Initialized, Mfrc522, Register, RxGain, Uid, Uninitialized};

type Script = Vec<(Action, Reply)>;

/// Drives a procedure through the scripted actions and replies, checking
/// each action it asks for, and returns how it finishes.
fn drive<T: std::fmt::Debug>(
    step: impl Fn(&Vec<Reply>) -> Progress<T, (), ()>,
    script: Script,
) -> Result<T, Error<(), ()>> {
    let mut replies = Vec::new();
    for (i, (expected, reply)) in script.into_iter().enumerate() {
        match step(&replies) {
            Progress::Pending(action) => assert_eq!(action, expected, "action {}", i),
            other => panic!("action {}: expected {:?}, got {:?}", i, expected, other),
        }
        replies.push(reply);
    }
    match step(&replies) {
        Progress::Done(result) => result,
        other => panic!("expected the end, got {:?}", other),
    }
}

fn write(reg: Register, value: u8) -> (Action, Reply) {
    (Action::Write(reg, value), Reply::Done)
}

fn read(reg: Register, first: u8, value: u8) -> (Action, Reply) {
    (Action::Read(reg), Reply::Data(vec![first, value]))
}

fn reset_to_idle_script() -> Script {
    vec![
        write(Register::ComIrqReg, 0x7F),
        write(Register::DivIrqReg, 0x7F),
        (Action::WaitForLow, Reply::Done),
        write(Register::CommandReg, 0x00),
        write(Register::FIFOLevelReg, 0x80),
    ]
}

fn wait_for_irq_source_script(timeout: u64, div_irq: u8, com_irq: u8) -> Script {
    vec![
        (Action::WaitForHigh(timeout), Reply::Done),
        read(Register::DivIrqReg, 0x39, div_irq),
        read(Register::ComIrqReg, 0x71, com_irq),
    ]
}

fn fifo_script(content: &[u8], control: u8) -> Script {
    vec![
        read(Register::FIFOLevelReg, 0xe0, content.len() as u8),
        (Action::ReadMany(Register::FIFODataReg, content.len()), Reply::Data(content.to_vec())),
        read(Register::ControlReg, 0x30, control),
    ]
}

fn crc_script(data: &[u8], crc: [u8; 2]) -> Script {
    let mut s = reset_to_idle_script();
    s.push((Action::WriteMany(Register::FIFODataReg, data.to_vec()), Reply::Done));
    s.push(write(Register::CommandReg, 0x03));
    s.extend(wait_for_irq_source_script(20, 0x04, 0x00));
    s.push(write(Register::CommandReg, 0x00));
    s.push(read(Register::CRCResultRegLow, 0x29, crc[0]));
    s.push(read(Register::CRCResultRegHigh, 0x93, crc[1]));
    s
}

fn transceive_script(tx: &[u8], framing: u8, answer: &[u8], control: u8) -> Script {
    let mut s = reset_to_idle_script();
    s.push((Action::WriteMany(Register::FIFODataReg, tx.to_vec()), Reply::Done));
    s.push(write(Register::CommandReg, 0x0C));
    s.push(write(Register::BitFramingReg, framing));
    s.extend(wait_for_irq_source_script(50, 0x00, 0x20));
    s.extend(fifo_script(answer, control));
    s
}

fn init_script() -> Script {
    vec![
        write(Register::CommandReg, 0x0F),
        read(Register::CommandReg, 0x82, 0x10), // still in power down
        read(Register::CommandReg, 0x82, 0x00), // power down cleared
        write(Register::TxModeReg, 0x00),
        write(Register::RxModeReg, 0x00),
        write(Register::ModWidthReg, 0x26),
        write(Register::TModeReg, 0x80),
        write(Register::TPrescalerReg, 0xA9),
        write(Register::TReloadRegHigh, 0x03),
        write(Register::TReloadRegLow, 0xE8),
        write(Register::TxASKReg, 0x40),
        write(Register::ModeReg, 0x3D),
        read(Register::TxControlReg, 0xA8, 0x00),
        write(Register::TxControlReg, 0x03),
        write(Register::ComlEnReg, 0x33),
        write(Register::DivlEnReg, 0x04),
        write(Register::ComIrqReg, 0x7F),
        write(Register::DivIrqReg, 0x7F),
    ]
}

/// A driver whose initialization ran to its end.
fn initialized_driver() -> Mfrc522<(), (), Initialized> {
    let driver = Mfrc522::new((), ());
    let done = drive(|r| driver.init(r), init_script()).unwrap();
    driver.initialized(done)
}

fn frames(action: &Action) -> Vec<SpiOp> {
    action.transaction().expect("a register access")
}

#[test]
fn test_reset_to_idle() {
    let script = reset_to_idle_script();
    // The SPI frames of the sequence.
    assert_eq!(frames(&script[0].0), vec![SpiOp::Write(vec![0x08, 0x7F])]);
    assert_eq!(frames(&script[1].0), vec![SpiOp::Write(vec![0x0A, 0x7F])]);
    assert_eq!(script[2].0.transaction(), None);
    assert_eq!(frames(&script[3].0), vec![SpiOp::Write(vec![0x02, 0x00])]);
    assert_eq!(frames(&script[4].0), vec![SpiOp::Write(vec![0x14, 0x80])]);
    let result = drive(|r| Mfrc522::new((), ()).reset_to_idle(r), script);
    assert_eq!(result, Ok(()));
}

#[test]
fn test_calculate_crc() {
    let driver = initialized_driver();
    let script = crc_script(&[0x01, 0x02, 0x40], [0xbe, 0xef]);
    assert_eq!(
        frames(&script[5].0),
        vec![SpiOp::Write(vec![0x12]), SpiOp::Write(vec![0x01, 0x02, 0x40])]
    );
    assert_eq!(frames(&script[6].0), vec![SpiOp::Write(vec![0x02, 0x03])]);
    assert_eq!(frames(&script[8].0), vec![SpiOp::TransferInPlace(vec![0x8A, 0x00])]);
    assert_eq!(frames(&script[9].0), vec![SpiOp::TransferInPlace(vec![0x88, 0x00])]);
    assert_eq!(frames(&script[11].0), vec![SpiOp::TransferInPlace(vec![0xC4, 0x00])]);
    assert_eq!(frames(&script[12].0), vec![SpiOp::TransferInPlace(vec![0xC2, 0x00])]);
    let result = drive(|r| driver.calculate_crc(&[0x01, 0x02, 0x40], r), script);
    assert_eq!(result, Ok([0xbe, 0xef]));
}

#[test]
fn test_transceive() {
    let driver = initialized_driver();
    let script = transceive_script(&[0xfe, 0xed], 0xA1, &[0x98, 0x76, 0x52, 0x2b], 0xf3);
    assert_eq!(frames(&script[6].0), vec![SpiOp::Write(vec![0x02, 0x0C])]);
    assert_eq!(frames(&script[7].0), vec![SpiOp::Write(vec![0x1A, 0xA1])]);
    assert_eq!(
        frames(&script[12].0),
        vec![SpiOp::Write(vec![0x92]), SpiOp::TransferInPlace(vec![0x92, 0x92, 0x92, 0x00])]
    );
    let result = drive(|r| driver.transceive::<4, (), ()>(&[0xfe, 0xed], 0xf9, 0xfa, r), script);
    assert_eq!(
        result,
        Ok(FifoData { buffer: [0x98, 0x76, 0x52, 0x2b], valid_bytes: 4, valid_bits: 3 })
    );
}

#[test]
fn test_version() {
    let script = vec![read(Register::VersionReg, 0xEE, 0x91)];
    assert_eq!(frames(&script[0].0), vec![SpiOp::TransferInPlace(vec![0xEE, 0x00])]);
    let version = drive(|r| Mfrc522::new((), ()).version(r), script).unwrap();
    assert_eq!(version, 0x91); // Expected version for MFRC522
}

#[test]
fn test_init_full_sequence_expectations() {
    let script = init_script();
    let expected_frames: Vec<Vec<SpiOp>> = vec![
        vec![SpiOp::Write(vec![0x02, 0x0F])],
        vec![SpiOp::TransferInPlace(vec![0x82, 0x00])],
        vec![SpiOp::TransferInPlace(vec![0x82, 0x00])],
        vec![SpiOp::Write(vec![0x24, 0x00])],
        vec![SpiOp::Write(vec![0x26, 0x00])],
        vec![SpiOp::Write(vec![0x48, 0x26])],
        vec![SpiOp::Write(vec![0x54, 0x80])],
        vec![SpiOp::Write(vec![0x56, 0xA9])],
        vec![SpiOp::Write(vec![0x58, 0x03])],
        vec![SpiOp::Write(vec![0x5A, 0xE8])],
        vec![SpiOp::Write(vec![0x2A, 0x40])],
        vec![SpiOp::Write(vec![0x22, 0x3D])],
        vec![SpiOp::TransferInPlace(vec![0xA8, 0x00])],
        vec![SpiOp::Write(vec![0x28, 0x03])],
        vec![SpiOp::Write(vec![0x04, 0x33])],
        vec![SpiOp::Write(vec![0x06, 0x04])],
        vec![SpiOp::Write(vec![0x08, 0x7F])],
        vec![SpiOp::Write(vec![0x0A, 0x7F])],
    ];
    for (step, expected) in script.iter().zip(expected_frames) {
        assert_eq!(frames(&step.0), expected);
    }
    let mfrc522: Mfrc522<u8, u16, Uninitialized> = Mfrc522::new(1u8, 2u16);
    let done = drive(|r| mfrc522.init(r), script).unwrap();
    let ready: Mfrc522<u8, u16, Initialized> = mfrc522.initialized(done);
    assert_eq!(ready.release(), (1u8, 2u16));
}

#[test]
fn test_new_with_empty_expectations() {
    let mfrc522 = Mfrc522::new(7u32, 8u64);
    let _mfrc522: Mfrc522<u32, u64, Uninitialized> = mfrc522;
    let mut mfrc522 = _mfrc522;
    {
        let (spi, irq) = mfrc522.bus();
        *spi += 1;
        *irq += 1;
    }
    assert_eq!(mfrc522.release(), (8u32, 9u64));
}

#[test]
fn reqa_reads_the_atqa() {
    let driver = initialized_driver();
    let mut script = reset_to_idle_script();
    script.push((Action::WriteMany(Register::FIFODataReg, vec![0x26]), Reply::Done));
    script.push(write(Register::CommandReg, 0x0C));
    script.push(write(Register::BitFramingReg, 0x87));
    script.extend(wait_for_irq_source_script(50, 0x00, 0x30));
    script.push(read(Register::FIFOLevelReg, 0, 2));
    script.push((Action::ReadMany(Register::FIFODataReg, 2), Reply::Data(vec![0x44, 0x00])));
    let atqa = drive(|r| driver.reqa(r), script.clone()).unwrap();
    assert_eq!(atqa.bytes(), [0x44, 0x00]);

    // new_card_present restores the modes first.
    let mut with_modes = vec![
        write(Register::TxModeReg, 0x00),
        write(Register::RxModeReg, 0x00),
        write(Register::ModWidthReg, 0x26),
    ];
    with_modes.extend(script);
    let atqa = drive(|r| driver.new_card_present(r), with_modes).unwrap();
    assert_eq!(atqa, AtqA::new([0x44, 0x00]));
}

#[test]
fn reqa_with_a_short_answer_is_incomplete() {
    let driver = initialized_driver();
    let mut script = reset_to_idle_script();
    script.push((Action::WriteMany(Register::FIFODataReg, vec![0x26]), Reply::Done));
    script.push(write(Register::CommandReg, 0x0C));
    script.push(write(Register::BitFramingReg, 0x87));
    script.extend(wait_for_irq_source_script(50, 0x00, 0x20));
    script.push(read(Register::FIFOLevelReg, 0, 1));
    assert_eq!(drive(|r| driver.reqa(r), script), Err(Error::IncompleteFrame));
}

#[test]
fn reqa_times_out_when_the_irq_line_stays_low() {
    let driver = initialized_driver();
    let mut script = reset_to_idle_script();
    script.push((Action::WriteMany(Register::FIFODataReg, vec![0x26]), Reply::Done));
    script.push(write(Register::CommandReg, 0x0C));
    script.push(write(Register::BitFramingReg, 0x87));
    script.push((Action::WaitForHigh(50), Reply::Expired));
    assert_eq!(drive(|r| driver.reqa(r), script), Err(Error::Timeout));
}

#[test]
fn timer_interrupt_is_a_timeout() {
    let driver = initialized_driver();
    let mut script = reset_to_idle_script();
    script.push((Action::WriteMany(Register::FIFODataReg, vec![0xAA]), Reply::Done));
    script.push(write(Register::CommandReg, 0x0C));
    script.push(write(Register::BitFramingReg, 0x80));
    script.extend(wait_for_irq_source_script(50, 0x00, 0x01));
    assert_eq!(drive(|r| driver.transceive::<2, (), ()>(&[0xAA], 0, 0, r), script), Err(Error::Timeout));
}

fn error_interrupt_script(error_reg: u8) -> Script {
    let mut script = reset_to_idle_script();
    script.push((Action::WriteMany(Register::FIFODataReg, vec![0xAA]), Reply::Done));
    script.push(write(Register::CommandReg, 0x0C));
    script.push(write(Register::BitFramingReg, 0x80));
    script.extend(wait_for_irq_source_script(50, 0x00, 0x02));
    script.push(read(Register::ErrorReg, 0, error_reg));
    script
}

#[test]
fn error_register_decides_the_error() {
    let driver = initialized_driver();
    let cases: [(u8, Error<(), ()>); 9] = [
        (0x01, Error::Protocol),
        (0x02, Error::Parity),
        (0x04, Error::Crc),
        (0x08, Error::Collision),
        (0x10, Error::BufferOverflow),
        (0x40, Error::Overheating),
        (0x80, Error::Wr),
        (0x0C, Error::Crc),       // CRC comes before collision
        (0x00, Error::Protocol),  // no flag: the error interrupt itself
    ];
    for (reg, expected) in cases {
        let result = drive(|r| driver.transceive::<2, (), ()>(&[0xAA], 0, 0, r), error_interrupt_script(reg));
        assert_eq!(result, Err(expected), "ErrorReg {:#x}", reg);
    }
}

#[test]
fn fifo_level_above_the_buffer_is_no_room() {
    let driver = initialized_driver();
    let mut script = reset_to_idle_script();
    script.push((Action::WriteMany(Register::FIFODataReg, vec![0xAA]), Reply::Done));
    script.push(write(Register::CommandReg, 0x0C));
    script.push(write(Register::BitFramingReg, 0x80));
    script.extend(wait_for_irq_source_script(50, 0x00, 0x20));
    script.push(read(Register::FIFOLevelReg, 0, 3));
    assert_eq!(drive(|r| driver.transceive::<2, (), ()>(&[0xAA], 0, 0, r), script), Err(Error::NoRoom));
}

#[test]
fn a_reply_that_does_not_answer_is_a_mismatch() {
    let replies = vec![Reply::Data(vec![0x01])];
    assert_eq!(Mfrc522::new((), ()).version::<(), ()>(&replies), Progress::Mismatch);
    let replies = vec![Reply::Done, Reply::Expired];
    assert_eq!(Mfrc522::new((), ()).reset_to_idle::<(), ()>(&replies), Progress::Mismatch);
    assert!(Action::Read(Register::ErrorReg).accepts(&Reply::Data(vec![0, 1])));
    assert!(!Action::Read(Register::ErrorReg).accepts(&Reply::Done));
    assert!(Action::WaitForHigh(5).accepts(&Reply::Expired));
    assert!(!Action::WaitForLow.accepts(&Reply::Expired));
}

#[test]
fn antenna_gain_is_written_to_rfcfg() {
    let driver = initialized_driver();
    let script = vec![write(Register::RFCfgReg, 0x70)];
    assert_eq!(frames(&script[0].0), vec![SpiOp::Write(vec![0x4C, 0x70])]);
    assert_eq!(drive(|r| driver.set_antenna_gain(RxGain::DB48, r), script), Ok(()));
}

/// The script of one cascade level without collision: the PICC answers the
/// four `uid` bytes with their BCC, and then `sak`.
fn select_level_script(cmd: u8, uid: [u8; 4], sak: u8) -> Script {
    let bcc = uid[0] ^ uid[1] ^ uid[2] ^ uid[3];
    let mut s = transceive_script(&[cmd, 0x20], 0x80, &[uid[0], uid[1], uid[2], uid[3], bcc], 0x00);
    let frame7 = [cmd, 0x70, uid[0], uid[1], uid[2], uid[3], bcc];
    s.extend(crc_script(&frame7, [0x11, 0x22]));
    let mut frame9 = frame7.to_vec();
    frame9.extend([0x11, 0x22]);
    s.extend(transceive_script(&frame9, 0x80, &[sak, 0x33, 0x44], 0x00));
    s.extend(crc_script(&[sak], [0x33, 0x44]));
    s
}

fn select_prelude() -> Script {
    vec![read(Register::CollReg, 0, 0x80), write(Register::CollReg, 0x00)]
}

#[test]
fn select_single_size_uid() {
    let driver = initialized_driver();
    let mut script = select_prelude();
    script.extend(select_level_script(0x93, [0xDE, 0xAD, 0xBE, 0xEF], 0x08));
    let atqa = AtqA::new([0x04, 0x00]);
    let uid = drive(|r| driver.select(&atqa, r), script).unwrap();
    assert!(matches!(uid, Uid::Single(_)));
    assert_eq!(uid.as_bytes(), &[0xDE, 0xAD, 0xBE, 0xEF]);
    assert_eq!(uid.get_type(), mfrc522_async::Type::Mifare1k);
}

#[test]
fn select_double_size_uid() {
    let driver = initialized_driver();
    let mut script = select_prelude();
    script.extend(select_level_script(0x93, [0x88, 0x04, 0x11, 0x22], 0x04));
    script.extend(select_level_script(0x95, [0x33, 0x44, 0x55, 0x66], 0x00));
    let atqa = AtqA::new([0x44, 0x00]);
    let uid = drive(|r| driver.select(&atqa, r), script).unwrap();
    assert!(matches!(uid, Uid::Double(_)));
    assert_eq!(uid.as_bytes(), &[0x04, 0x11, 0x22, 0x33, 0x44, 0x55, 0x66]);
    assert_eq!(uid.get_type(), mfrc522_async::Type::MifareUL);
}

#[test]
fn select_triple_size_uid() {
    let driver = initialized_driver();
    let mut script = select_prelude();
    script.extend(select_level_script(0x93, [0x88, 1, 2, 3], 0x04));
    script.extend(select_level_script(0x95, [0x88, 4, 5, 6], 0x04));
    script.extend(select_level_script(0x97, [7, 8, 9, 10], 0x20));
    let atqa = AtqA::new([0x84, 0x00]);
    let uid = drive(|r| driver.select(&atqa, r), script).unwrap();
    assert!(matches!(uid, Uid::Triple(_)));
    assert_eq!(uid.as_bytes(), &[1, 2, 3, 4, 5, 6, 7, 8, 9, 10]);
}

#[test]
fn select_a_fourth_cascade_level_breaks_the_protocol() {
    let driver = initialized_driver();
    let mut script = select_prelude();
    script.extend(select_level_script(0x93, [0x88, 1, 2, 3], 0x04));
    script.extend(select_level_script(0x95, [0x88, 4, 5, 6], 0x04));
    script.extend(select_level_script(0x97, [0x88, 7, 8, 9], 0x04));
    let atqa = AtqA::new([0x84, 0x00]);
    assert!(matches!(drive(|r| driver.select(&atqa, r), script), Err(Error::Protocol)));
}

#[test]
fn select_proprietary_atqa() {
    let driver = initialized_driver();
    // Two of the five low bits set: not bit frame anticollision; no bus access.
    let atqa = AtqA::new([0x06, 0x00]);
    assert!(matches!(drive(|r| driver.select(&atqa, r), vec![]), Err(Error::Proprietary)));
    let atqa = AtqA::new([0x00, 0x0C]);
    assert!(matches!(drive(|r| driver.select(&atqa, r), vec![]), Err(Error::Proprietary)));
}

#[test]
fn select_with_a_wrong_sak_crc() {
    let driver = initialized_driver();
    let mut script = select_prelude();
    let mut level = select_level_script(0x93, [1, 2, 3, 4], 0x08);
    // The CRC of the SAK computed by the MFRC522 differs from the one received.
    let last = level.len() - 1;
    level[last] = read(Register::CRCResultRegHigh, 0x93, 0x45);
    script.extend(level);
    let atqa = AtqA::new([0x04, 0x00]);
    assert!(matches!(drive(|r| driver.select(&atqa, r), script), Err(Error::Crc)));
}

#[test]
fn select_resolves_a_collision() {
    let driver = initialized_driver();
    let mut script = select_prelude();
    // First round: the transceive ends in an error interrupt with a collision.
    let mut first = reset_to_idle_script();
    first.push((Action::WriteMany(Register::FIFODataReg, vec![0x93, 0x20]), Reply::Done));
    first.push(write(Register::CommandReg, 0x0C));
    first.push(write(Register::BitFramingReg, 0x80));
    first.extend(wait_for_irq_source_script(50, 0x00, 0x02));
    first.push(read(Register::ErrorReg, 0, 0x08));
    // The collision is at bit 10; the FIFO holds the first byte and 1 bit.
    first.push(read(Register::CollReg, 0, 0x0A));
    first.extend(fifo_script(&[0x12, 0x01], 0x01));
    script.extend(first);
    // Second round: 10 bits known, bit 10 decided as 1: byte 1 = 0x01 | 0x02.
    // NVB = (2 + 1) << 4 | 2 = 0x32, frame of 4 bytes, 2 bits in the last.
    let mut second = transceive_script(&[0x93, 0x32, 0x12, 0x03], 0xA2, &[0x0C, 0x56, 0x78, 0x33], 0x00);
    // The first received byte completes byte 1 from bit 2 on: 0x0C & 0xFC | 0x03 & 0x03 = 0x0F.
    let uid = [0x12, 0x0F, 0x56, 0x78];
    let bcc = uid[0] ^ uid[1] ^ uid[2] ^ uid[3];
    let frame7 = [0x93, 0x70, uid[0], uid[1], uid[2], uid[3], bcc];
    second.extend(crc_script(&frame7, [0x11, 0x22]));
    let mut frame9 = frame7.to_vec();
    frame9.extend([0x11, 0x22]);
    second.extend(transceive_script(&frame9, 0x80, &[0x08, 0x33, 0x44], 0x00));
    second.extend(crc_script(&[0x08], [0x33, 0x44]));
    script.extend(second);
    let atqa = AtqA::new([0x04, 0x00]);
    let result = drive(|r| driver.select(&atqa, r), script).unwrap();
    assert_eq!(result.as_bytes(), &uid);
}

#[test]
fn select_collision_without_valid_position_fails() {
    let driver = initialized_driver();
    let mut script = select_prelude();
    let mut first = reset_to_idle_script();
    first.push((Action::WriteMany(Register::FIFODataReg, vec![0x93, 0x20]), Reply::Done));
    first.push(write(Register::CommandReg, 0x0C));
    first.push(write(Register::BitFramingReg, 0x80));
    first.extend(wait_for_irq_source_script(50, 0x00, 0x02));
    first.push(read(Register::ErrorReg, 0, 0x08));
    first.push(read(Register::CollReg, 0, 0x20)); // CollPosNotValid
    script.extend(first);
    let atqa = AtqA::new([0x04, 0x00]);
    assert!(matches!(drive(|r| driver.select(&atqa, r), script), Err(Error::Collision)));
}

#[test]
fn select_with_a_wrong_bcc_fails_before_select() {
    let driver = initialized_driver();
    let mut script = select_prelude();
    // The BCC received (0x05) is not the XOR of the UID bytes (0x04); no SELECT follows.
    script.extend(transceive_script(&[0x93, 0x20], 0x80, &[1, 2, 3, 4, 0x05], 0x00));
    let atqa = AtqA::new([0x04, 0x00]);
    assert!(matches!(drive(|r| driver.select(&atqa, r), script), Err(Error::Bcc)));
}

#[test]
fn init_times_out_when_the_power_down_bit_stays_set() {
    let driver = Mfrc522::new((), ());
    let mut script = vec![write(Register::CommandReg, 0x0F)];
    for _ in 0..mfrc522_async::procedure::POWER_UP_POLLS {
        script.push(read(Register::CommandReg, 0x82, 0x10));
    }
    assert!(matches!(drive(|r| driver.init(r), script), Err(Error::Timeout)));
}

fn collision_round(tx: &[u8], framing: u8, coll_reg: u8) -> Script {
    let mut round = reset_to_idle_script();
    round.push((Action::WriteMany(Register::FIFODataReg, tx.to_vec()), Reply::Done));
    round.push(write(Register::CommandReg, 0x0C));
    round.push(write(Register::BitFramingReg, framing));
    round.extend(wait_for_irq_source_script(50, 0x00, 0x02));
    round.push(read(Register::ErrorReg, 0, 0x08));
    round.push(read(Register::CollReg, 0, coll_reg));
    round
}

#[test]
fn select_collision_before_the_known_bits_fails() {
    let driver = initialized_driver();
    let mut script = select_prelude();
    // First round: a collision at bit 10, resolved to 1.
    script.extend(collision_round(&[0x93, 0x20], 0x80, 0x0A));
    script.extend(fifo_script(&[0x12, 0x01], 0x01));
    // Second round: 10 bits known, and the PICCs report a collision at bit 5.
    script.extend(collision_round(&[0x93, 0x32, 0x12, 0x03], 0xA2, 0x05));
    let atqa = AtqA::new([0x04, 0x00]);
    assert!(matches!(drive(|r| driver.select(&atqa, r), script), Err(Error::Collision)));
}
