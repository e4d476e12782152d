//! What the driver puts on the bus and decides, held against the MFRC522
//! datasheet and ISO/IEC 14443-3.

use vstd::prelude::*;

use crate::bus::{ActionView, Outcome, ReplyView};
use crate::picc::{type_of_sak, Sak, Type};
use crate::error::Error;
use crate::procedure::{calculate_crc_run, fifo_data_run, init_run, reset_run, transceive_run};
use crate::select::{anticollision_run, select_level_run};
use crate::uid::FifoView;
use crate::register::{Register, RxGain};

verus! {

/// The register at address `a` in the MFRC522's register map, if any.
pub open spec fn register_at(a: u8) -> Option<Register> {
    match a {
        0x01 => Some(Register::CommandReg),
        0x02 => Some(Register::ComlEnReg),
        0x03 => Some(Register::DivlEnReg),
        0x04 => Some(Register::ComIrqReg),
        0x05 => Some(Register::DivIrqReg),
        0x06 => Some(Register::ErrorReg),
        0x07 => Some(Register::Status1Reg),
        0x08 => Some(Register::Status2Reg),
        0x09 => Some(Register::FIFODataReg),
        0x0A => Some(Register::FIFOLevelReg),
        0x0B => Some(Register::WaterLevelReg),
        0x0C => Some(Register::ControlReg),
        0x0D => Some(Register::BitFramingReg),
        0x0E => Some(Register::CollReg),
        0x11 => Some(Register::ModeReg),
        0x12 => Some(Register::TxModeReg),
        0x13 => Some(Register::RxModeReg),
        0x14 => Some(Register::TxControlReg),
        0x15 => Some(Register::TxASKReg),
        0x16 => Some(Register::TxSelReg),
        0x17 => Some(Register::RxSelReg),
        0x18 => Some(Register::RxThresholdReg),
        0x19 => Some(Register::DemodReg),
        0x1C => Some(Register::MfTxReg),
        0x1D => Some(Register::MfRxReg),
        0x1F => Some(Register::SerialSpeedReg),
        0x21 => Some(Register::CRCResultRegHigh),
        0x22 => Some(Register::CRCResultRegLow),
        0x24 => Some(Register::ModWidthReg),
        0x26 => Some(Register::RFCfgReg),
        0x27 => Some(Register::GsNReg),
        0x28 => Some(Register::CWGsPReg),
        0x29 => Some(Register::ModGsPReg),
        0x2A => Some(Register::TModeReg),
        0x2B => Some(Register::TPrescalerReg),
        0x2C => Some(Register::TReloadRegHigh),
        0x2D => Some(Register::TReloadRegLow),
        0x2E => Some(Register::TCounterValRegHigh),
        0x2F => Some(Register::TCounterValRegLow),
        0x31 => Some(Register::TestSel1Reg),
        0x32 => Some(Register::TestSel2Reg),
        0x33 => Some(Register::TestPinEnReg),
        0x34 => Some(Register::TestPinValueReg),
        0x35 => Some(Register::TestBusReg),
        0x36 => Some(Register::AutoTestReg),
        0x37 => Some(Register::VersionReg),
        0x38 => Some(Register::AnalogTestReg),
        0x39 => Some(Register::TestDAC1Reg),
        0x3A => Some(Register::TestDAC2Reg),
        0x3B => Some(Register::TestADCReg),
        _ => None,
    }
}

/// Every register sits at its address in the MFRC522's register map (so
/// ControlReg at 0x0C is read on the SPI bus with the byte 0x98), and no two
/// registers share an address.
pub proof fn lemma_register_map(r: Register, s: Register)
    ensures
        register_at(r.addr()) == Some(r),
        r.addr() == s.addr() ==> r == s,
        r.read_byte() == 2 * r.addr() + 0x80,
        r.write_byte() == 2 * r.addr(),
{
    crate::laws::lemma_register_addressing(r);
}

/// The gain in dB that a receiver gain setting names.
pub open spec fn decibels(g: RxGain) -> nat {
    match g {
        RxGain::DB18 | RxGain::DB18Alt => 18,
        RxGain::DB23 | RxGain::DB23Alt => 23,
        RxGain::DB33 => 33,
        RxGain::DB38 => 38,
        RxGain::DB43 => 43,
        RxGain::DB48 => 48,
    }
}

/// The RFCfgReg value of a receiver gain holds the datasheet's RxGain code of
/// that gain in bits 6 to 4 and nothing else: 18 dB is 000 or 010, 23 dB 001
/// or 011, 33 dB 100, 38 dB 101, 43 dB 110 and 48 dB 111. From 33 dB on, a
/// higher gain has a higher value.
pub proof fn lemma_rx_gain_codes(g: RxGain, h: RxGain)
    ensures
        g.reg_value() & 0x8F == 0,
        decibels(g) == 18 ==> g.reg_value() == 0x00 || g.reg_value() == 0x20,
        decibels(g) == 23 ==> g.reg_value() == 0x10 || g.reg_value() == 0x30,
        decibels(g) == 33 ==> g.reg_value() == 0x40,
        decibels(g) == 38 ==> g.reg_value() == 0x50,
        decibels(g) == 43 ==> g.reg_value() == 0x60,
        decibels(g) == 48 ==> g.reg_value() == 0x70,
        33 <= decibels(g) < decibels(h) ==> g.reg_value() < h.reg_value(),
{
    assert forall|c: u8| c < 8 implies #[trigger] (c << 4u8) == c * 16 && (c << 4u8) & 0x8F == 0 by {
        assert(c < 8 ==> (c << 4u8) == c * 16 && (c << 4u8) & 0x8F == 0) by (bit_vector);
    }
    assert(g.code() < 8 && h.code() < 8);
    assert(g.reg_value() == g.code() * 16);
    assert(h.reg_value() == h.code() * 16);
}

/// A SAK tells ISO/IEC 14443-4 compliance by bit 6 (0x20) of its byte alone,
/// and a complete UID by bit 3 (0x04) being clear, whatever its other bits.
pub proof fn lemma_sak_bits(sak: Sak)
    ensures
        sak.compliant() <==> (sak.value() >> 5u8) & 1 == 1,
        sak.complete() <==> (sak.value() >> 2u8) & 1 == 0,
{
    let b = sak.value();
    assert((b & 0x20 != 0) <==> (b >> 5u8) & 1 == 1) by (bit_vector);
    assert((b & 0x04 == 0) <==> (b >> 2u8) & 1 == 0) by (bit_vector);
}

/// The type a SAK byte announces, by its seven low bits (NXP AN10833): 0x04
/// a UID not complete yet, 0x09 MIFARE Mini, 0x08 MIFARE Classic 1K, 0x18
/// MIFARE Classic 4K, 0x00 MIFARE Ultralight, 0x10 or 0x11 MIFARE Plus, 0x01
/// TNP3XXX, 0x20 ISO/IEC 14443-4, 0x40 ISO/IEC 18092; any other byte is unknown.
pub proof fn lemma_sak_types(b: u8)
    ensures
        type_of_sak(b) == Type::NotComplete <==> b & 0x7F == 0x04,
        type_of_sak(b) == Type::MifareMini <==> b & 0x7F == 0x09,
        type_of_sak(b) == Type::Mifare1k <==> b & 0x7F == 0x08,
        type_of_sak(b) == Type::Mifare4k <==> b & 0x7F == 0x18,
        type_of_sak(b) == Type::MifareUL <==> b & 0x7F == 0x00,
        type_of_sak(b) == Type::MifarePlus <==> b & 0x7F == 0x10 || b & 0x7F == 0x11,
        type_of_sak(b) == Type::TNP3XXX <==> b & 0x7F == 0x01,
        type_of_sak(b) == Type::Iso14443_4 <==> b & 0x7F == 0x20,
        type_of_sak(b) == Type::Iso18092 <==> b & 0x7F == 0x40,
{
}

/// Initialization after a successful reset (`n` actions, one reply each):
/// TxModeReg and RxModeReg 0x00, ModWidthReg 0x26; the timer started at the
/// end of each transmission (TModeReg 0x80) with the prescaler 0x0A9 and the
/// reload value 0x03E8; 100 % ASK (TxASKReg 0x40); the CRC preset 0x6363
/// (ModeReg 0x3D); then the antenna switched on by a read-modify-write of
/// TxControlReg, which writes back the value `d[1]` read with bits 0 and 1
/// (Tx1RFEn, Tx2RFEn) set and every other bit unchanged; then the RX, idle,
/// error and timer interrupts enabled (ComIEnReg 0x33), the CRC interrupt
/// enabled (DivIEnReg 0x04), and every interrupt request cleared. When every
/// write is acknowledged, initialization succeeds.
pub proof fn lemma_init_configures_the_chip<S, G>(rs: Seq<ReplyView>, n: int, d: Seq<u8>)
    requires
        reset_run::<S, G>(rs, 0).outcome == Outcome::<(), S, G>::Finished(Ok(())),
        n == reset_run::<S, G>(rs, 0).actions.len(),
        rs.len() >= n + 15,
        forall|i: int| n <= i < n + 15 && i != n + 9 ==> #[trigger] rs[i] == ReplyView::Done,
        rs[n + 9] == ReplyView::Data(d),
        d.len() == 2,
    ensures
        init_run::<S, G>(rs, 0).outcome == Outcome::<(), S, G>::Finished(Ok(())),
        init_run::<S, G>(rs, 0).actions.len() == n + 15,
        init_run::<S, G>(rs, 0).actions.subrange(0, n) == reset_run::<S, G>(rs, 0).actions,
        init_run::<S, G>(rs, 0).actions.subrange(n, n + 10) == seq![
            ActionView::Write(Register::TxModeReg, 0x00),
            ActionView::Write(Register::RxModeReg, 0x00),
            ActionView::Write(Register::ModWidthReg, 0x26),
            ActionView::Write(Register::TModeReg, 0x80),
            ActionView::Write(Register::TPrescalerReg, 0xA9),
            ActionView::Write(Register::TReloadRegHigh, 0x03),
            ActionView::Write(Register::TReloadRegLow, 0xE8),
            ActionView::Write(Register::TxASKReg, 0x40),
            ActionView::Write(Register::ModeReg, 0x3D),
            ActionView::Read(Register::TxControlReg),
        ],
        init_run::<S, G>(rs, 0).actions[n + 10] matches ActionView::Write(reg, v) && reg
            == Register::TxControlReg && v & 0x03 == 0x03 && v & 0xFC == d[1] & 0xFC,
        init_run::<S, G>(rs, 0).actions.subrange(n + 11, n + 15) == seq![
            ActionView::Write(Register::ComlEnReg, 0x33),
            ActionView::Write(Register::DivlEnReg, 0x04),
            ActionView::Write(Register::ComIrqReg, 0x7F),
            ActionView::Write(Register::DivIrqReg, 0x7F),
        ],
{
    let b = d[1];
    assert((b | 0x03u8) & 0x03 == 0x03 && (b | 0x03u8) & 0xFC == b & 0xFC) by (bit_vector);
    assert(0x20u8 | 0x10u8 | 0x02u8 | 0x01u8 == 0x33u8) by (bit_vector);
    assert(rs[n] == ReplyView::Done);
    assert(rs[n + 1] == ReplyView::Done);
    assert(rs[n + 2] == ReplyView::Done);
    assert(rs[n + 3] == ReplyView::Done);
    assert(rs[n + 4] == ReplyView::Done);
    assert(rs[n + 5] == ReplyView::Done);
    assert(rs[n + 6] == ReplyView::Done);
    assert(rs[n + 7] == ReplyView::Done);
    assert(rs[n + 8] == ReplyView::Done);
    assert(rs[n + 10] == ReplyView::Done);
    assert(rs[n + 11] == ReplyView::Done);
    assert(rs[n + 12] == ReplyView::Done);
    assert(rs[n + 13] == ReplyView::Done);
    assert(rs[n + 14] == ReplyView::Done);
    let run = init_run::<S, G>(rs, 0);
    assert(run.actions.subrange(0, n) =~= reset_run::<S, G>(rs, 0).actions);
    assert(run.actions.subrange(n, n + 10) =~= seq![
        ActionView::Write(Register::TxModeReg, 0x00),
        ActionView::Write(Register::RxModeReg, 0x00),
        ActionView::Write(Register::ModWidthReg, 0x26),
        ActionView::Write(Register::TModeReg, 0x80),
        ActionView::Write(Register::TPrescalerReg, 0xA9),
        ActionView::Write(Register::TReloadRegHigh, 0x03),
        ActionView::Write(Register::TReloadRegLow, 0xE8),
        ActionView::Write(Register::TxASKReg, 0x40),
        ActionView::Write(Register::ModeReg, 0x3D),
        ActionView::Read(Register::TxControlReg),
    ]);
    assert(run.actions.subrange(n + 11, n + 15) =~= seq![
        ActionView::Write(Register::ComlEnReg, 0x33),
        ActionView::Write(Register::DivlEnReg, 0x04),
        ActionView::Write(Register::ComIrqReg, 0x7F),
        ActionView::Write(Register::DivIrqReg, 0x7F),
    ]);
}

/// A CRC_A the coprocessor computes has two bytes.
pub proof fn lemma_crc_has_two_bytes<S, G>(data: Seq<u8>, rs: Seq<ReplyView>, pos: int)
    ensures
        calculate_crc_run::<S, G>(data, rs, pos).outcome matches Outcome::Finished(Ok(c)) ==> c.len() == 2,
{
    reveal(calculate_crc_run);
}

/// The FIFO data read into a buffer of `RX` bytes has `RX` bytes.
pub proof fn lemma_fifo_buffer_len<const RX: usize, S, G>(rs: Seq<ReplyView>, pos: int)
    ensures
        fifo_data_run::<RX, S, G>(rs, pos).outcome matches Outcome::Finished(Ok(f)) ==> f.buffer.len() == RX,
{
    reveal(fifo_data_run);
}

/// The answer a transceive reads into a buffer of `RX` bytes has `RX` bytes.
pub proof fn lemma_transceive_buffer_len<const RX: usize, S, G>(
    tx: Seq<u8>,
    tx_last_bits: u8,
    rx_align_bits: u8,
    rs: Seq<ReplyView>,
    pos: int,
)
    ensures
        transceive_run::<RX, S, G>(tx, tx_last_bits, rx_align_bits, rs, pos).outcome matches Outcome::Finished(Ok(f))
            ==> f.buffer.len() == RX,
{
    reveal(transceive_run);
    assert forall|p: int|
        (#[trigger] fifo_data_run::<RX, S, G>(rs, p).outcome matches Outcome::Finished(Ok(f)) ==> f.buffer.len() == RX) by {
        lemma_fifo_buffer_len::<RX, S, G>(rs, p);
    }
}

/// SELECT at a cascade level checks the CRC_A that follows the SAK: once
/// anticollision gave the frame `tx` with a valid BCC, the coprocessor the
/// CRC_A `crc` of the SELECT frame, the PICC the answer `rx` of three bytes
/// and the coprocessor the CRC_A `check` of the SAK byte, the level succeeds
/// with the frame sent and the SAK exactly when both CRC_A bytes received
/// equal those of `check`, and fails with `Crc` otherwise.
pub proof fn lemma_select_checks_the_sak_crc<S, G>(
    cmd: u8,
    rs: Seq<ReplyView>,
    pos: int,
    tx: Seq<u8>,
    p1: int,
    crc: Seq<u8>,
    p2: int,
    rx: FifoView,
    p3: int,
    check: Seq<u8>,
)
    requires
        anticollision_run::<S, G>(seq![cmd, 0u8, 0u8, 0u8, 0u8, 0u8, 0u8, 0u8, 0u8], 0, rs, pos).outcome
            == Outcome::<Seq<u8>, S, G>::Finished(Ok(tx)),
        p1 == pos + anticollision_run::<S, G>(seq![cmd, 0u8, 0u8, 0u8, 0u8, 0u8, 0u8, 0u8, 0u8], 0, rs, pos).actions.len(),
        tx[6] == tx[2] ^ tx[3] ^ tx[4] ^ tx[5],
        calculate_crc_run::<S, G>(tx.update(1, 0x70).subrange(0, 7), rs, p1).outcome
            == Outcome::<Seq<u8>, S, G>::Finished(Ok(crc)),
        p2 == p1 + calculate_crc_run::<S, G>(tx.update(1, 0x70).subrange(0, 7), rs, p1).actions.len(),
        transceive_run::<3, S, G>(tx.update(1, 0x70).update(7, crc[0]).update(8, crc[1]), 0, 0, rs, p2).outcome
            == Outcome::<FifoView, S, G>::Finished(Ok(rx)),
        p3 == p2 + transceive_run::<3, S, G>(tx.update(1, 0x70).update(7, crc[0]).update(8, crc[1]), 0, 0, rs, p2).actions.len(),
        rx.valid_bytes == 3,
        rx.valid_bits == 0,
        calculate_crc_run::<S, G>(seq![rx.buffer[0]], rs, p3).outcome == Outcome::<Seq<u8>, S, G>::Finished(Ok(check)),
    ensures
        select_level_run::<S, G>(cmd, rs, pos).outcome == if rx.buffer[1] == check[0] && rx.buffer[2] == check[1] {
            Outcome::<(Seq<u8>, u8), S, G>::Finished(
                Ok((tx.update(1, 0x70).update(7, crc[0]).update(8, crc[1]), rx.buffer[0])),
            )
        } else {
            Outcome::<(Seq<u8>, u8), S, G>::Finished(Err(Error::Crc))
        },
{
    reveal(select_level_run);
    crate::laws::lemma_anticollision_frame_len::<S, G>(seq![cmd, 0u8, 0u8, 0u8, 0u8, 0u8, 0u8, 0u8, 0u8], 0, rs, pos);
    lemma_crc_has_two_bytes::<S, G>(seq![rx.buffer[0]], rs, p3);
    lemma_transceive_buffer_len::<3, S, G>(tx.update(1, 0x70).update(7, crc[0]).update(8, crc[1]), 0, 0, rs, p2);
    assert(crate::select::select_frame(tx) =~= tx.update(1, 0x70));
    if rx.buffer[1] == check[0] && rx.buffer[2] == check[1] {
        assert(rx.buffer.subrange(1, 3) =~= check);
    } else {
        assert(rx.buffer.subrange(1, 3) != check) by {
            if rx.buffer.subrange(1, 3) == check {
                assert(rx.buffer.subrange(1, 3)[0] == rx.buffer[1]);
                assert(rx.buffer.subrange(1, 3)[1] == rx.buffer[2]);
            }
        }
    }
}

} // verus!
