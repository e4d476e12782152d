//! The driver's procedures, each as a function from the replies received so
//! far to its next action or its result, and each with its run as a model.

use vstd::prelude::*;

use crate::bus::{
    follows, read_many, read_reg, read_register, read_register_many, replies_view, then,
    wait_for_high, wait_for_low, wait_high, wait_low, write_many, write_reg, write_register,
    write_register_many, conclude, viewed, progress, progress_viewed, reports, reports_viewed,
    ActionView, Outcome, Progress, Reply, ReplyView, Run, Stop,
};
use crate::error::Error;
use crate::register::{
    self, Register, RxGain, CRC_IRQ, FORCE_100_ASK, IDLE_IRQ, POWER_DOWN, RX_IRQ, BUFFER_OVFL, COLL_ERR, CRC_ERR, ERR_IRQ, FLUSH_BUFFER, PARITY_ERR,
    PROTOCOL_ERR, TEMP_ERR, TIMER_IRQ, WR_ERR,
};
use crate::uid::{AtqA, FifoData, FifoView};
use crate::picc;

verus! {

/// Sending `cmd` to the MFRC522.
pub open spec fn command_run<S, G>(cmd: register::Command, rs: Seq<ReplyView>, pos: int) -> Run<(), S, G> {
    write_reg(Register::CommandReg, cmd.value(), rs, pos)
}

/// Flushing the FIFO buffer.
pub open spec fn fifo_flush_run<S, G>(rs: Seq<ReplyView>, pos: int) -> Run<(), S, G> {
    write_reg(Register::FIFOLevelReg, FLUSH_BUFFER, rs, pos)
}

/// Clearing both interrupt request registers, then waiting for the IRQ line to go low.
pub open spec fn clear_irq_state_run<S, G>(rs: Seq<ReplyView>, pos: int) -> Run<(), S, G> {
    then(
        write_reg(Register::ComIrqReg, 0x7F, rs, pos),
        pos,
        |u: (), p: int|
            then(
                write_reg(Register::DivIrqReg, 0x7F, rs, p),
                p,
                |u: (), q: int| wait_low(rs, q),
            ),
    )
}

/// Clearing the interrupt state, stopping any command, and flushing the FIFO.
#[verifier::opaque]
pub open spec fn reset_to_idle_run<S, G>(rs: Seq<ReplyView>, pos: int) -> Run<(), S, G> {
    then(
        clear_irq_state_run(rs, pos),
        pos,
        |u: (), p: int|
            then(
                command_run(register::Command::Idle, rs, p),
                p,
                |u: (), q: int| fifo_flush_run(rs, q),
            ),
    )
}

/// Sends `cmd` to the MFRC522.
pub(crate) fn command_at<S, G>(replies: &Vec<Reply>, pos: &mut usize, cmd: register::Command) -> (r: Result<(), Stop<S, G>>)
    requires
        *old(pos) <= replies@.len(),
    ensures
        *final(pos) <= replies@.len(),
        follows(r, command_run(cmd, replies_view(replies@), *old(pos) as int), *old(pos) as int, *final(pos) as int),
{
    write_register(replies, pos, Register::CommandReg, cmd.byte())
}

/// Flushes the FIFO buffer.
fn fifo_flush_at<S, G>(replies: &Vec<Reply>, pos: &mut usize) -> (r: Result<(), Stop<S, G>>)
    requires
        *old(pos) <= replies@.len(),
    ensures
        *final(pos) <= replies@.len(),
        follows(r, fifo_flush_run(replies_view(replies@), *old(pos) as int), *old(pos) as int, *final(pos) as int),
{
    write_register(replies, pos, Register::FIFOLevelReg, FLUSH_BUFFER)
}

/// Clears the interrupt request registers and waits for the IRQ line to go low.
fn clear_irq_state_at<S, G>(replies: &Vec<Reply>, pos: &mut usize) -> (r: Result<(), Stop<S, G>>)
    requires
        *old(pos) <= replies@.len(),
    ensures
        *final(pos) <= replies@.len(),
        follows(r, clear_irq_state_run(replies_view(replies@), *old(pos) as int), *old(pos) as int, *final(pos) as int),
{
    write_register(replies, pos, Register::ComIrqReg, 0x7F)?;
    write_register(replies, pos, Register::DivIrqReg, 0x7F)?;
    wait_for_low(replies, pos)?;
    Ok(())
}

/// Sanitize device state for performing next operation (Idle, IRQ, Fifo)
pub(crate) fn reset_to_idle_at<S, G>(replies: &Vec<Reply>, pos: &mut usize) -> (r: Result<(), Stop<S, G>>)
    requires
        *old(pos) <= replies@.len(),
    ensures
        *final(pos) <= replies@.len(),
        follows(r, reset_to_idle_run(replies_view(replies@), *old(pos) as int), *old(pos) as int, *final(pos) as int),
{
    reveal(reset_to_idle_run);
    clear_irq_state_at(replies, pos)?;
    command_at(replies, pos, register::Command::Idle)?;
    fifo_flush_at(replies, pos)?;
    Ok(())
}

/// The verdict of the error register: the first error flag set, in the order
/// protocol, parity, CRC, collision, buffer overflow, temperature, write.
pub open spec fn error_verdict<S, G>(err: u8) -> Result<(), Error<S, G>> {
    if err & PROTOCOL_ERR != 0 {
        Err(Error::Protocol)
    } else if err & PARITY_ERR != 0 {
        Err(Error::Parity)
    } else if err & CRC_ERR != 0 {
        Err(Error::Crc)
    } else if err & COLL_ERR != 0 {
        Err(Error::Collision)
    } else if err & BUFFER_OVFL != 0 {
        Err(Error::BufferOverflow)
    } else if err & TEMP_ERR != 0 {
        Err(Error::Overheating)
    } else if err & WR_ERR != 0 {
        Err(Error::Wr)
    } else {
        Ok(())
    }
}

/// Reading the error register and failing with the error it reports.
pub open spec fn check_error_run<S, G>(rs: Seq<ReplyView>, pos: int) -> Run<(), S, G> {
    then(read_reg(Register::ErrorReg, rs, pos), pos, |e: u8, p: int| conclude(error_verdict(e)))
}

/// Check error register
fn check_error_at<S, G>(replies: &Vec<Reply>, pos: &mut usize) -> (r: Result<(), Stop<S, G>>)
    requires
        *old(pos) <= replies@.len(),
    ensures
        *final(pos) <= replies@.len(),
        follows(r, check_error_run(replies_view(replies@), *old(pos) as int), *old(pos) as int, *final(pos) as int),
{
    let err = read_register(replies, pos, Register::ErrorReg)?;
    if err & PROTOCOL_ERR != 0 {
        Err(Stop::Fail(Error::Protocol))
    } else if err & PARITY_ERR != 0 {
        Err(Stop::Fail(Error::Parity))
    } else if err & CRC_ERR != 0 {
        Err(Stop::Fail(Error::Crc))
    } else if err & COLL_ERR != 0 {
        Err(Stop::Fail(Error::Collision))
    } else if err & BUFFER_OVFL != 0 {
        Err(Stop::Fail(Error::BufferOverflow))
    } else if err & TEMP_ERR != 0 {
        Err(Stop::Fail(Error::Overheating))
    } else if err & WR_ERR != 0 {
        Err(Stop::Fail(Error::Wr))
    } else {
        Ok(())
    }
}

/// What the interrupt request registers tell once the IRQ line went high.
pub open spec fn irq_source_run<S, G>(
    com_irq: u8,
    div_irq: u8,
    com_irq_mask: u8,
    div_irq_mask: u8,
    rs: Seq<ReplyView>,
    pos: int,
) -> Run<(), S, G> {
    if com_irq & ERR_IRQ != 0 {
        then(check_error_run(rs, pos), pos, |u: (), p: int| conclude(Err(Error::Protocol)))
    } else if com_irq & TIMER_IRQ != 0 {
        conclude(Err(Error::Timeout))
    } else if com_irq & com_irq_mask != 0 || div_irq & div_irq_mask != 0 {
        conclude(Ok(()))
    } else {
        conclude(Err(Error::Protocol))
    }
}

/// Waiting at most `timeout_ms` for the IRQ line, then reading DivIrqReg and
/// ComIrqReg to tell which interrupt source fired.
#[verifier::opaque]
pub open spec fn wait_for_irq_source_run<S, G>(
    timeout_ms: u64,
    com_irq_mask: u8,
    div_irq_mask: u8,
    rs: Seq<ReplyView>,
    pos: int,
) -> Run<(), S, G> {
    then(
        wait_high(timeout_ms, rs, pos),
        pos,
        |u: (), p: int|
            then(
                read_reg(Register::DivIrqReg, rs, p),
                p,
                |div_irq: u8, q: int|
                    then(
                        read_reg(Register::ComIrqReg, rs, q),
                        q,
                        |com_irq: u8, t: int|
                            irq_source_run(com_irq, div_irq, com_irq_mask, div_irq_mask, rs, t),
                    ),
            ),
    )
}

/// Wait for specific IRQ source with timeout
fn wait_for_irq_source_at<S, G>(
    replies: &Vec<Reply>,
    pos: &mut usize,
    timeout_ms: u64,
    com_irq_mask: u8,
    div_irq_mask: u8,
) -> (r: Result<(), Stop<S, G>>)
    requires
        *old(pos) <= replies@.len(),
    ensures
        *final(pos) <= replies@.len(),
        follows(
            r,
            wait_for_irq_source_run(timeout_ms, com_irq_mask, div_irq_mask, replies_view(replies@), *old(pos) as int),
            *old(pos) as int,
            *final(pos) as int,
        ),
{
    reveal(wait_for_irq_source_run);
    wait_for_high(replies, pos, timeout_ms)?;
    let div_irq = read_register(replies, pos, Register::DivIrqReg)?;
    let com_irq = read_register(replies, pos, Register::ComIrqReg)?;
    if com_irq & ERR_IRQ != 0 {
        check_error_at(replies, pos)?;
        Err(Stop::Fail(Error::Protocol))
    } else if com_irq & TIMER_IRQ != 0 {
        Err(Stop::Fail(Error::Timeout))
    } else if com_irq & com_irq_mask != 0 || div_irq & div_irq_mask != 0 {
        Ok(())
    } else {
        Err(Stop::Fail(Error::Protocol))
    }
}

/// `n` zero bytes.
pub open spec fn zeros(n: int) -> Seq<u8> {
    Seq::new(n as nat, |i: int| 0u8)
}

/// Reading the FIFO: its level, then as many bytes, then the valid bits of
/// the last byte from ControlReg; fails with `NoRoom` when the level exceeds `RX`.
#[verifier::opaque]
pub open spec fn fifo_data_run<const RX: usize, S, G>(rs: Seq<ReplyView>, pos: int) -> Run<FifoView, S, G> {
    if RX == 0 {
        conclude(Ok(FifoView { buffer: zeros(RX as int), valid_bytes: 0, valid_bits: 0 }))
    } else {
        then(
            read_reg(Register::FIFOLevelReg, rs, pos),
            pos,
            |level: u8, p: int|
                if level as usize > RX {
                    conclude(Err(Error::NoRoom))
                } else if level == 0 {
                    conclude(Ok(FifoView { buffer: zeros(RX as int), valid_bytes: 0, valid_bits: 0 }))
                } else {
                    then(
                        read_many(Register::FIFODataReg, level as nat, rs, p),
                        p,
                        |bytes: Seq<u8>, q: int|
                            then(
                                read_reg(Register::ControlReg, rs, q),
                                q,
                                |control: u8, t: int|
                                    conclude(
                                        Ok(
                                            FifoView {
                                                buffer: bytes + zeros(RX - level),
                                                valid_bytes: level as usize,
                                                valid_bits: (control & 0x07) as usize,
                                            },
                                        ),
                                    ),
                            ),
                    )
                },
        )
    }
}

/// Get FIFO data
pub(crate) fn fifo_data_at<const RX: usize, S, G>(replies: &Vec<Reply>, pos: &mut usize) -> (r: Result<FifoData<RX>, Stop<S, G>>)
    requires
        *old(pos) <= replies@.len(),
    ensures
        *final(pos) <= replies@.len(),
        follows(viewed(r), fifo_data_run::<RX, S, G>(replies_view(replies@), *old(pos) as int), *old(pos) as int, *final(pos) as int),
        r matches Ok(d) ==> d.valid_bytes <= RX && d.valid_bits < 8,
{
    reveal(fifo_data_run);
    let mut buffer: [u8; RX] = vstd::array::array_fill_for_copy_types(0u8);
    assert(buffer@ =~= zeros(RX as int));
    let mut valid_bytes: usize = 0;
    let mut valid_bits: usize = 0;
    if RX > 0 {
        let level = read_register(replies, pos, Register::FIFOLevelReg)?;
        valid_bytes = level as usize;
        if valid_bytes > RX {
            return Err(Stop::Fail(Error::NoRoom));
        }
        if valid_bytes > 0 {
            let bytes = read_register_many(replies, pos, Register::FIFODataReg, valid_bytes)?;
            let mut i: usize = 0;
            while i < valid_bytes
                invariant
                    valid_bytes <= RX,
                    bytes@.len() == valid_bytes,
                    0 <= i <= valid_bytes,
                    buffer@.len() == RX,
                    forall|j: int| 0 <= j < RX ==> #[trigger] buffer@[j] == if j < i {
                        bytes@[j]
                    } else {
                        0u8
                    },
                decreases valid_bytes - i,
            {
                buffer[i] = bytes[i];
                i = i + 1;
            }
            assert(buffer@ =~= bytes@ + zeros(RX - level));
            let control = read_register(replies, pos, Register::ControlReg)?;
            assert(control & 0x07 < 8) by (bit_vector);
            valid_bits = (control & 0x07) as usize;
        }
    }
    Ok(FifoData { buffer, valid_bytes, valid_bits })
}

/// The BitFramingReg value that starts a transmission (bit 7) with `rx_align_bits`
/// in bits 6 to 4 and `tx_last_bits` in bits 2 to 0.
pub open spec fn bit_framing(tx_last_bits: u8, rx_align_bits: u8) -> u8 {
    (0x80u8 | ((rx_align_bits & 0x07u8) << 4u8) | (tx_last_bits & 0x07u8)) as u8
}

/// Sending `tx` to the PICC and receiving its answer in the FIFO: the FIFO
/// is loaded, the Transceive command given and the transmission started, and
/// once the receiver or the command reports completion, the FIFO is read.
#[verifier::opaque]
pub open spec fn transceive_run<const RX: usize, S, G>(
    tx: Seq<u8>,
    tx_last_bits: u8,
    rx_align_bits: u8,
    rs: Seq<ReplyView>,
    pos: int,
) -> Run<FifoView, S, G> {
    then(
        reset_to_idle_run(rs, pos),
        pos,
        |u: (), p1: int|
            then(
                write_many(Register::FIFODataReg, tx, rs, p1),
                p1,
                |u: (), p2: int|
                    then(
                        command_run(register::Command::Transceive, rs, p2),
                        p2,
                        |u: (), p3: int|
                            then(
                                write_reg(
                                    Register::BitFramingReg,
                                    bit_framing(tx_last_bits, rx_align_bits),
                                    rs,
                                    p3,
                                ),
                                p3,
                                |u: (), p4: int|
                                    then(
                                        wait_for_irq_source_run(50, RX_IRQ | IDLE_IRQ, 0, rs, p4),
                                        p4,
                                        |u: (), p5: int| fifo_data_run::<RX, S, G>(rs, p5),
                                    ),
                            ),
                    ),
            ),
    )
}

/// Perform transceive operation with IRQ-based completion
pub(crate) fn transceive_at<const RX: usize, S, G>(
    replies: &Vec<Reply>,
    pos: &mut usize,
    tx_buffer: &[u8],
    tx_last_bits: u8,
    rx_align_bits: u8,
) -> (r: Result<FifoData<RX>, Stop<S, G>>)
    requires
        *old(pos) <= replies@.len(),
    ensures
        *final(pos) <= replies@.len(),
        follows(
            viewed(r),
            transceive_run::<RX, S, G>(tx_buffer@, tx_last_bits, rx_align_bits, replies_view(replies@), *old(pos) as int),
            *old(pos) as int,
            *final(pos) as int,
        ),
        r matches Ok(d) ==> d.valid_bytes <= RX && d.valid_bits < 8,
{
    reveal(transceive_run);
    reset_to_idle_at(replies, pos)?;
    write_register_many(replies, pos, Register::FIFODataReg, tx_buffer)?;
    command_at(replies, pos, register::Command::Transceive)?;
    let framing: u8 = 0x80u8 | ((rx_align_bits & 0x07u8) << 4u8) | (tx_last_bits & 0x07u8);
    write_register(replies, pos, Register::BitFramingReg, framing)?;
    wait_for_irq_source_at(replies, pos, 50, RX_IRQ | IDLE_IRQ, 0)?;
    fifo_data_at::<RX, S, G>(replies, pos)
}

/// Computing the CRC_A of `data` with the MFRC522's coprocessor: the result is
/// the low byte, then the high byte.
#[verifier::opaque]
pub open spec fn calculate_crc_run<S, G>(data: Seq<u8>, rs: Seq<ReplyView>, pos: int) -> Run<Seq<u8>, S, G> {
    then(
        reset_to_idle_run(rs, pos),
        pos,
        |u: (), p1: int|
            then(
                write_many(Register::FIFODataReg, data, rs, p1),
                p1,
                |u: (), p2: int|
                    then(
                        command_run(register::Command::CalcCRC, rs, p2),
                        p2,
                        |u: (), p3: int|
                            then(
                                wait_for_irq_source_run(20, 0, CRC_IRQ, rs, p3),
                                p3,
                                |u: (), p4: int|
                                    then(
                                        command_run(register::Command::Idle, rs, p4),
                                        p4,
                                        |u: (), p5: int|
                                            then(
                                                read_reg(Register::CRCResultRegLow, rs, p5),
                                                p5,
                                                |low: u8, p6: int|
                                                    then(
                                                        read_reg(Register::CRCResultRegHigh, rs, p6),
                                                        p6,
                                                        |high: u8, p7: int| conclude(Ok(seq![low, high])),
                                                    ),
                                            ),
                                    ),
                            ),
                    ),
            ),
    )
}

/// Calculate CRC for data using IRQ-based completion
pub(crate) fn calculate_crc_at<S, G>(replies: &Vec<Reply>, pos: &mut usize, data: &[u8]) -> (r: Result<[u8; 2], Stop<S, G>>)
    requires
        *old(pos) <= replies@.len(),
    ensures
        *final(pos) <= replies@.len(),
        follows(viewed(r), calculate_crc_run(data@, replies_view(replies@), *old(pos) as int), *old(pos) as int, *final(pos) as int),
{
    reveal(calculate_crc_run);
    reset_to_idle_at(replies, pos)?;
    write_register_many(replies, pos, Register::FIFODataReg, data)?;
    command_at(replies, pos, register::Command::CalcCRC)?;
    wait_for_irq_source_at(replies, pos, 20, 0, CRC_IRQ)?;
    command_at(replies, pos, register::Command::Idle)?;
    let low = read_register(replies, pos, Register::CRCResultRegLow)?;
    let high = read_register(replies, pos, Register::CRCResultRegHigh)?;
    let crc = [low, high];
    assert(crc@ =~= seq![low, high]);
    Ok(crc)
}

/// How many times CommandReg is read, at most, for the power-down bit to
/// clear after a soft reset before the reset fails with `Timeout`.
pub const POWER_UP_POLLS: u32 = 1000;

/// Reading CommandReg until its power-down bit is clear, at most `left` times;
/// when every read finds it set, the reset fails with `Timeout`.
pub open spec fn power_up_run<S, G>(rs: Seq<ReplyView>, pos: int, left: nat) -> Run<(), S, G>
    decreases left,
{
    let read = ActionView::Read(Register::CommandReg);
    if left == 0 {
        Run { actions: Seq::empty(), outcome: Outcome::Finished(Err(Error::Timeout)) }
    } else if pos < 0 || pos >= rs.len() {
        Run { actions: seq![read], outcome: Outcome::Waiting }
    } else {
        match rs[pos] {
            ReplyView::Data(d) => if d.len() != 2 {
                Run { actions: seq![read], outcome: Outcome::Mismatch }
            } else if d[1] & POWER_DOWN != 0 {
                let rest = power_up_run(rs, pos + 1, (left - 1) as nat);
                Run { actions: seq![read] + rest.actions, outcome: rest.outcome }
            } else {
                Run { actions: seq![read], outcome: Outcome::Finished(Ok(())) }
            },
            _ => Run { actions: seq![read], outcome: Outcome::Mismatch },
        }
    }
}

/// Resetting the chip: the SoftReset command, then polling until it powered up.
pub open spec fn reset_run<S, G>(rs: Seq<ReplyView>, pos: int) -> Run<(), S, G> {
    then(
        command_run(register::Command::SoftReset, rs, pos),
        pos,
        |u: (), p: int| power_up_run(rs, p, POWER_UP_POLLS as nat),
    )
}

/// Reset the chip
fn reset_at<S, G>(replies: &Vec<Reply>, pos: &mut usize) -> (r: Result<(), Stop<S, G>>)
    requires
        *old(pos) <= replies@.len(),
    ensures
        *final(pos) <= replies@.len(),
        follows(r, reset_run(replies_view(replies@), *old(pos) as int), *old(pos) as int, *final(pos) as int),
{
    let ghost pos0 = *pos as int;
    command_at(replies, pos, register::Command::SoftReset)?;
    let ghost rs = replies_view(replies@);
    let ghost mut done: Seq<ActionView> = seq![ActionView::Write(Register::CommandReg, register::Command::SoftReset.value())];
    let mut left: u32 = POWER_UP_POLLS;
    assert(reset_run::<S, G>(rs, pos0).actions
        =~= done + power_up_run::<S, G>(rs, *pos as int, left as nat).actions);
    loop
        invariant
            rs == replies_view(replies@),
            pos0 == *old(pos),
            pos0 < *pos <= replies@.len(),
            *pos == pos0 + done.len(),
            reset_run::<S, G>(rs, pos0).outcome == power_up_run::<S, G>(rs, *pos as int, left as nat).outcome,
            reset_run::<S, G>(rs, pos0).actions == done + power_up_run::<S, G>(rs, *pos as int, left as nat).actions,
        decreases left,
    {
        let ghost p = *pos as int;
        let ghost here = power_up_run::<S, G>(rs, p, left as nat);
        if left == 0 {
            assert(reset_run::<S, G>(rs, pos0).actions =~= done);
            return Err(Stop::Fail(Error::Timeout));
        }
        let status = match read_register::<S, G>(replies, pos, Register::CommandReg) {
            Ok(status) => status,
            Err(e) => {
                proof {
                    if p < rs.len() {
                        assert(rs[p] == replies@[p]@);
                    }
                    assert(here.actions =~= seq![ActionView::Read(Register::CommandReg)]);
                    assert((done + here.actions).last() == ActionView::Read(Register::CommandReg));
                }
                return Err(e);
            },
        };
        assert(rs[p] == replies@[p]@);
        if status & POWER_DOWN == 0 {
            assert(reset_run::<S, G>(rs, pos0).actions =~= done.push(ActionView::Read(Register::CommandReg)));
            return Ok(());
        }
        let ghost rest = power_up_run::<S, G>(rs, *pos as int, (left - 1) as nat);
        assert(here.actions == seq![ActionView::Read(Register::CommandReg)] + rest.actions);
        proof {
            done = done.push(ActionView::Read(Register::CommandReg));
        }
        assert(reset_run::<S, G>(rs, pos0).actions =~= done + rest.actions);
        left = left - 1;
    }
}

/// Initializing the MFRC522: reset; transmission, reception and modulation
/// settings; the timer for a 25 ms timeout; 100 % ASK; the CRC preset 0x6363;
/// the antenna on; the interrupt sources enabled and the requests cleared.
pub open spec fn init_run<S, G>(rs: Seq<ReplyView>, pos: int) -> Run<(), S, G> {
    then(reset_run(rs, pos), pos, |u: (), p0: int|
    then(write_reg(Register::TxModeReg, 0x00, rs, p0), p0, |u: (), p1: int|
    then(write_reg(Register::RxModeReg, 0x00, rs, p1), p1, |u: (), p2: int|
    then(write_reg(Register::ModWidthReg, 0x26, rs, p2), p2, |u: (), p3: int|
    then(write_reg(Register::TModeReg, 0x80, rs, p3), p3, |u: (), p4: int|
    then(write_reg(Register::TPrescalerReg, 0xA9, rs, p4), p4, |u: (), p5: int|
    then(write_reg(Register::TReloadRegHigh, 0x03, rs, p5), p5, |u: (), p6: int|
    then(write_reg(Register::TReloadRegLow, 0xE8, rs, p6), p6, |u: (), p7: int|
    then(write_reg(Register::TxASKReg, FORCE_100_ASK, rs, p7), p7, |u: (), p8: int|
    then(write_reg(Register::ModeReg, 0x3D, rs, p8), p8, |u: (), p9: int|
    then(read_reg(Register::TxControlReg, rs, p9), p9, |tx_control: u8, p10: int|
    then(write_reg(Register::TxControlReg, tx_control | 0x03, rs, p10), p10, |u: (), p11: int|
    then(write_reg(Register::ComlEnReg, RX_IRQ | IDLE_IRQ | ERR_IRQ | TIMER_IRQ, rs, p11), p11, |u: (), p12: int|
    then(write_reg(Register::DivlEnReg, CRC_IRQ, rs, p12), p12, |u: (), p13: int|
    then(write_reg(Register::ComIrqReg, 0x7F, rs, p13), p13, |u: (), p14: int|
    write_reg(Register::DivIrqReg, 0x7F, rs, p14))))))))))))))))
}

/// Proof that the initialization sequence ran to its end.
#[derive(Debug)]
pub struct Initialization {
    done: (),
}

fn init_at<S, G>(replies: &Vec<Reply>, pos: &mut usize) -> (r: Result<(), Stop<S, G>>)
    requires
        *old(pos) <= replies@.len(),
    ensures
        *final(pos) <= replies@.len(),
        follows(r, init_run(replies_view(replies@), *old(pos) as int), *old(pos) as int, *final(pos) as int),
{
    reset_at(replies, pos)?;
    write_register(replies, pos, Register::TxModeReg, 0x00)?;
    write_register(replies, pos, Register::RxModeReg, 0x00)?;
    write_register(replies, pos, Register::ModWidthReg, 0x26)?;
    // The timer starts at the end of a transmission; with the prescaler 0xA9,
    // f_timer = 13.56 MHz / (2 * 0xA9 + 1) = 40 kHz, and the reload value
    // 0x3E8 = 1000 ticks of 25 us gives a 25 ms timeout.
    write_register(replies, pos, Register::TModeReg, 0x80)?;
    write_register(replies, pos, Register::TPrescalerReg, 0xA9)?;
    write_register(replies, pos, Register::TReloadRegHigh, 0x03)?;
    write_register(replies, pos, Register::TReloadRegLow, 0xE8)?;
    write_register(replies, pos, Register::TxASKReg, FORCE_100_ASK)?;
    // CRC preset 0x6363 (ISO 14443-3 part 6.2.4): CRCPreset = 01 in the low bits.
    assert((0x3fu8 & !0x03u8) | 0x01u8 == 0x3Du8) by (bit_vector);
    write_register(replies, pos, Register::ModeReg, (0x3fu8 & !0x03u8) | 0x01u8)?;
    // Antenna on: TX1 and TX2 drive the carrier.
    let tx_control = read_register(replies, pos, Register::TxControlReg)?;
    write_register(replies, pos, Register::TxControlReg, tx_control | 0x03)?;
    write_register(replies, pos, Register::ComlEnReg, RX_IRQ | IDLE_IRQ | ERR_IRQ | TIMER_IRQ)?;
    write_register(replies, pos, Register::DivlEnReg, CRC_IRQ)?;
    write_register(replies, pos, Register::ComIrqReg, 0x7F)?;
    write_register(replies, pos, Register::DivIrqReg, 0x7F)?;
    Ok(())
}

/// Sending REQA as a 7-bit frame and reading the two-byte ATQA from the FIFO.
pub open spec fn reqa_run<S, G>(rs: Seq<ReplyView>, pos: int) -> Run<Seq<u8>, S, G> {
    then(reset_to_idle_run(rs, pos), pos, |u: (), p1: int|
    then(write_many(Register::FIFODataReg, seq![picc::Command::ReqA.value()], rs, p1), p1, |u: (), p2: int|
    then(command_run(register::Command::Transceive, rs, p2), p2, |u: (), p3: int|
    then(write_reg(Register::BitFramingReg, 0x87, rs, p3), p3, |u: (), p4: int|
    then(wait_for_irq_source_run(50, RX_IRQ | IDLE_IRQ, 0, rs, p4), p4, |u: (), p5: int|
    then(read_reg(Register::FIFOLevelReg, rs, p5), p5, |level: u8, p6: int|
        if level == 2 {
            read_many(Register::FIFODataReg, 2, rs, p6)
        } else {
            conclude(Err(Error::IncompleteFrame))
        }))))))
}

fn reqa_at<S, G>(replies: &Vec<Reply>, pos: &mut usize) -> (r: Result<AtqA, Stop<S, G>>)
    requires
        *old(pos) <= replies@.len(),
    ensures
        *final(pos) <= replies@.len(),
        follows(viewed(r), reqa_run(replies_view(replies@), *old(pos) as int), *old(pos) as int, *final(pos) as int),
{
    reset_to_idle_at(replies, pos)?;
    let reqa = [picc::Command::ReqA.byte()];
    assert(reqa@ =~= seq![picc::Command::ReqA.value()]);
    write_register_many(replies, pos, Register::FIFODataReg, &reqa)?;
    command_at(replies, pos, register::Command::Transceive)?;
    write_register(replies, pos, Register::BitFramingReg, 0x87)?;
    wait_for_irq_source_at(replies, pos, 50, RX_IRQ | IDLE_IRQ, 0)?;
    let level = read_register(replies, pos, Register::FIFOLevelReg)?;
    if level == 2 {
        let bytes = read_register_many(replies, pos, Register::FIFODataReg, 2)?;
        let atqa = AtqA::new([bytes[0], bytes[1]]);
        assert(atqa@ =~= bytes@);
        Ok(atqa)
    } else {
        Err(Stop::Fail(Error::IncompleteFrame))
    }
}

/// Restoring the transmission and reception settings, then REQA.
pub open spec fn new_card_present_run<S, G>(rs: Seq<ReplyView>, pos: int) -> Run<Seq<u8>, S, G> {
    then(write_reg(Register::TxModeReg, 0x00, rs, pos), pos, |u: (), p1: int|
    then(write_reg(Register::RxModeReg, 0x00, rs, p1), p1, |u: (), p2: int|
    then(write_reg(Register::ModWidthReg, 0x26, rs, p2), p2, |u: (), p3: int|
    reqa_run(rs, p3))))
}

fn new_card_present_at<S, G>(replies: &Vec<Reply>, pos: &mut usize) -> (r: Result<AtqA, Stop<S, G>>)
    requires
        *old(pos) <= replies@.len(),
    ensures
        *final(pos) <= replies@.len(),
        follows(viewed(r), new_card_present_run(replies_view(replies@), *old(pos) as int), *old(pos) as int, *final(pos) as int),
{
    write_register(replies, pos, Register::TxModeReg, 0x00)?;
    write_register(replies, pos, Register::RxModeReg, 0x00)?;
    write_register(replies, pos, Register::ModWidthReg, 0x26)?;
    reqa_at(replies, pos)
}

/// Initialize the MFRC522: the next action of the initialization, or its result.
pub(crate) fn init<S, G>(replies: &Vec<Reply>) -> (p: Progress<Initialization, S, G>)
    ensures
        reports(
            match p {
                Progress::Pending(a) => Progress::Pending(a),
                Progress::Done(Ok(_)) => Progress::Done(Ok(())),
                Progress::Done(Err(e)) => Progress::Done(Err(e)),
                Progress::Mismatch => Progress::Mismatch,
            },
            init_run::<S, G>(replies_view(replies@), 0),
        ),
{
    let mut pos: usize = 0;
    match init_at::<S, G>(replies, &mut pos) {
        Ok(()) => Progress::Done(Ok(Initialization { done: () })),
        Err(Stop::Fail(e)) => Progress::Done(Err(e)),
        Err(Stop::Pending(a)) => Progress::Pending(a),
        Err(Stop::Mismatch) => Progress::Mismatch,
    }
}

/// Send REQA command and wait for response using IRQ: the next action, or the ATQA.
pub(crate) fn reqa<S, G>(replies: &Vec<Reply>) -> (p: Progress<AtqA, S, G>)
    ensures
        reports_viewed(p, reqa_run::<S, G>(replies_view(replies@), 0)),
{
    let mut pos: usize = 0;
    let r = reqa_at::<S, G>(replies, &mut pos);
    progress_viewed(r, Ghost(reqa_run::<S, G>(replies_view(replies@), 0)), Ghost(0), Ghost(pos as int))
}

/// Has a card been detected? The next action, or the ATQA.
pub(crate) fn new_card_present<S, G>(replies: &Vec<Reply>) -> (p: Progress<AtqA, S, G>)
    ensures
        reports_viewed(p, new_card_present_run::<S, G>(replies_view(replies@), 0)),
{
    let mut pos: usize = 0;
    let r = new_card_present_at::<S, G>(replies, &mut pos);
    progress_viewed(r, Ghost(new_card_present_run::<S, G>(replies_view(replies@), 0)), Ghost(0), Ghost(pos as int))
}

/// Returns the version reported by the MFRC522: the next action, or the version.
pub(crate) fn version<S, G>(replies: &Vec<Reply>) -> (p: Progress<u8, S, G>)
    ensures
        reports(p, read_reg::<S, G>(Register::VersionReg, replies_view(replies@), 0)),
{
    let mut pos: usize = 0;
    let r = read_register::<S, G>(replies, &mut pos, Register::VersionReg);
    progress(r, Ghost(read_reg::<S, G>(Register::VersionReg, replies_view(replies@), 0)), Ghost(0), Ghost(pos as int))
}

/// Sets the antenna gain of the receiver: the next action, or the result.
pub(crate) fn set_antenna_gain<S, G>(gain: RxGain, replies: &Vec<Reply>) -> (p: Progress<(), S, G>)
    ensures
        reports(p, write_reg::<S, G>(Register::RFCfgReg, gain.reg_value(), replies_view(replies@), 0)),
{
    let mut pos: usize = 0;
    let r = write_register::<S, G>(replies, &mut pos, Register::RFCfgReg, gain.register_value());
    progress(r, Ghost(write_reg::<S, G>(Register::RFCfgReg, gain.reg_value(), replies_view(replies@), 0)), Ghost(0), Ghost(pos as int))
}

/// Sanitize device state for performing next operation: the next action, or the result.
pub(crate) fn reset_to_idle<S, G>(replies: &Vec<Reply>) -> (p: Progress<(), S, G>)
    ensures
        reports(p, reset_to_idle_run::<S, G>(replies_view(replies@), 0)),
{
    let mut pos: usize = 0;
    let r = reset_to_idle_at::<S, G>(replies, &mut pos);
    progress(r, Ghost(reset_to_idle_run::<S, G>(replies_view(replies@), 0)), Ghost(0), Ghost(pos as int))
}

/// Calculate the CRC_A of `data` with the coprocessor: the next action, or the CRC (low byte first).
pub(crate) fn calculate_crc<S, G>(data: &[u8], replies: &Vec<Reply>) -> (p: Progress<[u8; 2], S, G>)
    ensures
        reports_viewed(p, calculate_crc_run::<S, G>(data@, replies_view(replies@), 0)),
{
    let mut pos: usize = 0;
    let r = calculate_crc_at::<S, G>(replies, &mut pos, data);
    progress_viewed(r, Ghost(calculate_crc_run::<S, G>(data@, replies_view(replies@), 0)), Ghost(0), Ghost(pos as int))
}

/// Send `tx_buffer` to the PICC and read its answer: the next action, or the FIFO data.
pub(crate) fn transceive<const RX: usize, S, G>(
    tx_buffer: &[u8],
    tx_last_bits: u8,
    rx_align_bits: u8,
    replies: &Vec<Reply>,
) -> (p: Progress<FifoData<RX>, S, G>)
    ensures
        reports_viewed(p, transceive_run::<RX, S, G>(tx_buffer@, tx_last_bits, rx_align_bits, replies_view(replies@), 0)),
{
    let mut pos: usize = 0;
    let r = transceive_at::<RX, S, G>(replies, &mut pos, tx_buffer, tx_last_bits, rx_align_bits);
    progress_viewed(r, Ghost(transceive_run::<RX, S, G>(tx_buffer@, tx_last_bits, rx_align_bits, replies_view(replies@), 0)), Ghost(0), Ghost(pos as int))
}

} // verus!
