//! What holds of the driver as a whole, across its procedures.

use vstd::prelude::*;

use crate::bus::{
    continues, lemma_continues_itself, lemma_single_continues, lemma_then_continues, ActionView, Outcome,
    ReplyView,
};
use crate::error::Error;
use crate::procedure::{
    bit_framing, calculate_crc_run, check_error_run, clear_irq_state_run, error_verdict, fifo_data_run,
    init_run, irq_source_run, new_card_present_run, power_up_run, reqa_run, reset_run,
    reset_to_idle_run, transceive_run, wait_for_irq_source_run, POWER_UP_POLLS,
};
use crate::register::{Register, ERR_IRQ, POWER_DOWN};
use crate::select::{
    anticollision_round, anticollision_run, bcc_valid, bit_frame_anticollision, cascade_run, collision_run,
    copy_into_frame, frame_len, nvb, select_frame, select_level_run, select_run, set_collision_bit,
    Round,
};
use crate::uid::{copy_bits, high_mask, merge_bits, FifoView, UidView};

verus! {

/// Every register has a 6-bit address. On the SPI bus a read of it starts with
/// the address shifted left by one with bit 7 set, a write with bit 7 clear;
/// bit 0 is clear in both.
pub proof fn lemma_register_addressing(reg: Register)
    ensures
        reg.addr() < 0x40,
        reg.read_byte() == 2 * reg.addr() + 0x80,
        reg.write_byte() == 2 * reg.addr(),
        reg.read_byte() & 0x80 == 0x80,
        reg.write_byte() & 0x80 == 0,
        reg.read_byte() & 0x01 == 0,
        reg.write_byte() & 0x01 == 0,
{
    let a = reg.addr();
    assert(a < 0x40);
    assert(((a << 1u8) | 0x80u8) == 2 * a + 0x80 && ((a << 1u8) | 0x80u8) & 0x80 == 0x80 && ((
    a << 1u8) | 0x80u8) & 0x01 == 0 && (a << 1u8) == 2 * a && (a << 1u8) & 0x80 == 0 && (a
        << 1u8) & 0x01 == 0) by (bit_vector)
        requires
            a < 0x40u8,
    ;
}

/// The error register reports no error exactly when none of its seven error
/// flags is set (bit 5 carries none).
pub proof fn lemma_error_verdict_ok_iff_no_flag<S, G>(err: u8)
    ensures
        error_verdict::<S, G>(err) is Ok <==> err & 0xDF == 0,
{
    assert((err & 0xDFu8 == 0) <==> (err & 0x01u8 == 0 && err & 0x02u8 == 0 && err & 0x04u8 == 0
        && err & 0x08u8 == 0 && err & 0x10u8 == 0 && err & 0x40u8 == 0 && err & 0x80u8 == 0))
        by (bit_vector);
}

/// When the error interrupt is set, waiting for an interrupt source never
/// succeeds, whatever the error register holds and whichever sources are awaited.
pub proof fn lemma_error_interrupt_never_succeeds<S, G>(
    com_irq: u8,
    div_irq: u8,
    com_irq_mask: u8,
    div_irq_mask: u8,
    rs: Seq<ReplyView>,
    pos: int,
)
    requires
        com_irq & ERR_IRQ != 0,
    ensures
        !(irq_source_run::<S, G>(com_irq, div_irq, com_irq_mask, div_irq_mask, rs, pos).outcome is Finished
            && irq_source_run::<S, G>(com_irq, div_irq, com_irq_mask, div_irq_mask, rs, pos).outcome->Finished_0 is Ok),
{
}

/// The BitFramingReg value of a transceive starts the transmission (bit 7),
/// holds the receive alignment in bits 6 to 4 and the bits of the last byte
/// sent in bits 2 to 0, and leaves bit 3 clear.
pub proof fn lemma_bit_framing_fields(tx_last_bits: u8, rx_align_bits: u8)
    ensures
        bit_framing(tx_last_bits, rx_align_bits) & 0x80 == 0x80,
        (bit_framing(tx_last_bits, rx_align_bits) >> 4u8) & 0x07 == rx_align_bits & 0x07,
        bit_framing(tx_last_bits, rx_align_bits) & 0x07 == tx_last_bits & 0x07,
        bit_framing(tx_last_bits, rx_align_bits) & 0x08 == 0,
{
    let b = bit_framing(tx_last_bits, rx_align_bits);
    assert(b == (0x80u8 | ((rx_align_bits & 0x07u8) << 4u8) | (tx_last_bits & 0x07u8)));
    assert({
        let v = 0x80u8 | ((rx_align_bits & 0x07u8) << 4u8) | (tx_last_bits & 0x07u8);
        &&& v & 0x80 == 0x80
        &&& (v >> 4u8) & 0x07 == rx_align_bits & 0x07
        &&& v & 0x07 == tx_last_bits & 0x07
        &&& v & 0x08 == 0
    }) by (bit_vector);
}

/// Merging a received byte at bit `k` keeps the `k` low bits already known
/// and takes the others from the received byte.
pub proof fn lemma_merge_keeps_known_bits(byte: u8, old: u8, k: u8)
    requires
        k < 8,
    ensures
        merge_bits(byte, old, k) & high_mask(k) == byte & high_mask(k),
        merge_bits(byte, old, k) & !high_mask(k) == old & !high_mask(k),
{
    assert(((byte & (0xFFu8 << k)) | (old & !(0xFFu8 << k))) & (0xFFu8 << k) == byte & (0xFFu8
        << k) && ((byte & (0xFFu8 << k)) | (old & !(0xFFu8 << k))) & !(0xFFu8 << k) == old & !(
    0xFFu8 << k)) by (bit_vector);
}

/// The NVB of an anticollision frame counts the whole bytes sent, command
/// and NVB included, in its high nibble and the bits of the last byte in its
/// low nibble; the frame is exactly as long as those bytes and bits need.
pub proof fn lemma_nvb_fields(known_bits: u8)
    requires
        known_bits <= 32,
    ensures
        nvb(known_bits) >> 4u8 == 2 + known_bits / 8,
        nvb(known_bits) & 0x0F == known_bits % 8,
        frame_len(known_bits) * 8 == 16 + known_bits + if known_bits % 8 == 0 {
            0int
        } else {
            8 - known_bits % 8
        },
{
    let n = (2 + known_bits / 8) as u8;
    let l = known_bits % 8;
    assert(((n << 4u8) + l) as u8 >> 4u8 == n && ((n << 4u8) + l) as u8 & 0x0F == l) by (bit_vector)
        requires
            n <= 6,
            l < 8,
    ;
}

/// The bit that a resolved collision sets is the colliding one: bit number
/// `known_bits` (counted from 1) of the UID-CLn bytes that start at byte 2.
pub proof fn lemma_collision_bit_position(tx: Seq<u8>, known_bits: u8)
    requires
        1 <= known_bits <= 32,
        tx.len() == 9,
    ensures
        ({
            let check_bit = ((known_bits - 1) % 8) as u8;
            let index = 1 + known_bits / 8 + if known_bits % 8 != 0 {
                1int
            } else {
                0
            };
            &&& (index - 2) * 8 + check_bit == known_bits - 1
            &&& 2 <= index < 7
            &&& set_collision_bit(tx, known_bits).len() == 9
            &&& forall|i: int| 0 <= i < 9 && i != index ==> set_collision_bit(tx, known_bits)[i] == tx[i]
        }),
{
}

/// The BCC of a SELECT frame checks its four UID bytes: their XOR with it is zero.
pub proof fn lemma_bcc_checks(tx: Seq<u8>)
    requires
        tx.len() == 9,
    ensures
        select_frame(tx)[2] ^ select_frame(tx)[3] ^ select_frame(tx)[4] ^ select_frame(tx)[5]
            ^ select_frame(tx)[6] == 0,
        select_frame(tx)[1] == 0x70,
{
    let (a, b, c, d) = (tx[2], tx[3], tx[4], tx[5]);
    assert(a ^ b ^ c ^ d ^ (a ^ b ^ c ^ d) == 0) by (bit_vector);
}

/// When the BCC received at a cascade level does not check the four UID bytes
/// received with it, selecting at that level fails with `Bcc` right after
/// anticollision: no SELECT frame is sent.
pub proof fn lemma_bcc_mismatch_fails<S, G>(cmd: u8, rs: Seq<ReplyView>, pos: int)
    requires
        anticollision_run::<S, G>(seq![cmd, 0u8, 0u8, 0u8, 0u8, 0u8, 0u8, 0u8, 0u8], 0, rs, pos).outcome
            matches Outcome::Finished(Ok(tx)) && !bcc_valid(tx),
    ensures
        select_level_run::<S, G>(cmd, rs, pos).outcome == Outcome::<(Seq<u8>, u8), S, G>::Finished(Err(Error::Bcc)),
        select_level_run::<S, G>(cmd, rs, pos).actions
            == anticollision_run::<S, G>(seq![cmd, 0u8, 0u8, 0u8, 0u8, 0u8, 0u8, 0u8, 0u8], 0, rs, pos).actions,
{
    reveal(select_level_run);
    let a = anticollision_run::<S, G>(seq![cmd, 0u8, 0u8, 0u8, 0u8, 0u8, 0u8, 0u8, 0u8], 0, rs, pos);
    assert(select_level_run::<S, G>(cmd, rs, pos).actions =~= a.actions);
}

/// Copying FIFO data keeps the length of the destination.
pub proof fn lemma_copy_bits_len<S, G>(fifo: FifoView, dst: Seq<u8>, k: u8)
    requires
        fifo.valid_bytes > 0 ==> k / 8 < dst.len(),
    ensures
        copy_bits::<S, G>(fifo, dst, k).0.len() == dst.len(),
{
}

/// Anticollision keeps the 9 bytes of the frame.
pub proof fn lemma_anticollision_frame_len<S, G>(tx: Seq<u8>, known_bits: u8, rs: Seq<ReplyView>, pos: int)
    requires
        tx.len() == 9,
        known_bits <= 32,
    ensures
        anticollision_run::<S, G>(tx, known_bits, rs, pos).outcome matches Outcome::Finished(Ok(t)) ==> t.len() == 9,
    decreases rs.len() - pos,
{
    assert forall|coll: u8| #[trigger] (coll & 0x1Fu8) <= 31 by {
        assert(coll & 0x1Fu8 <= 31) by (bit_vector);
    }
    let round = anticollision_round::<S, G>(tx, known_bits, rs, pos);
    let tx1 = tx.update(1, nvb(known_bits));
    assert forall|fifo: FifoView| (#[trigger] copy_into_frame::<S, G>(tx1, fifo, known_bits)) is Ok implies copy_into_frame::<S, G>(tx1, fifo, known_bits)->Ok_0.len() == 9 by {
        lemma_copy_bits_len::<S, G>(fifo, tx1.subrange(2, 7), known_bits);
    }
    match round.outcome {
        Outcome::Finished(Ok(Round::Narrowed(tx2, known))) => {
            let next = pos + round.actions.len();
            if pos < next <= rs.len() {
                assert(1 <= known <= 32);
                assert(tx2.len() == 9);
                lemma_anticollision_frame_len::<S, G>(tx2, known, rs, next);
            }
        },
        _ => {},
    }
}

/// Selecting at one cascade level keeps the 9 bytes of the frame.
pub proof fn lemma_select_level_frame_len<S, G>(cmd: u8, rs: Seq<ReplyView>, pos: int)
    ensures
        select_level_run::<S, G>(cmd, rs, pos).outcome matches Outcome::Finished(Ok((t, sak))) ==> t.len() == 9,
{
    reveal(select_level_run);
    let tx0 = seq![cmd, 0u8, 0u8, 0u8, 0u8, 0u8, 0u8, 0u8, 0u8];
    lemma_anticollision_frame_len::<S, G>(tx0, 0, rs, pos);
}

/// From cascade level `level` on, with the bytes of the earlier levels in
/// `prefix`, a selected UID has 4, 7 or 10 bytes and its SAK is complete.
pub proof fn lemma_cascade_uid_size<S, G>(level: u8, prefix: Seq<u8>, rs: Seq<ReplyView>, pos: int)
    requires
        level < 3,
        prefix.len() == 3 * level,
    ensures
        cascade_run::<S, G>(level, prefix, rs, pos).outcome matches Outcome::Finished(Ok(u)) ==> {
            &&& u.bytes.len() == 4 || u.bytes.len() == 7 || u.bytes.len() == 10
            &&& u.sak & 0x04 == 0
        },
    decreases 3 - level,
{
    let l = select_level_run::<S, G>(crate::select::cascade_command(level).value(), rs, pos);
    lemma_select_level_frame_len::<S, G>(crate::select::cascade_command(level).value(), rs, pos);
    match l.outcome {
        Outcome::Finished(Ok((tx, sak))) => {
            if sak & 0x04 != 0 && level < 2 {
                lemma_cascade_uid_size::<S, G>(
                    (level + 1) as u8,
                    prefix + tx.subrange(3, 6),
                    rs,
                    pos + l.actions.len(),
                );
            }
        },
        _ => {},
    }
}

/// A PICC that SELECT completes has a UID of 4, 7 or 10 bytes (single,
/// double or triple size), and the SAK that completed it has the cascade bit clear.
pub proof fn lemma_select_uid_size<S, G>(atqa: Seq<u8>, rs: Seq<ReplyView>, pos: int)
    ensures
        select_run::<S, G>(atqa, rs, pos).outcome matches Outcome::Finished(Ok(u)) ==> {
            &&& u.bytes.len() == 4 || u.bytes.len() == 7 || u.bytes.len() == 10
            &&& u.sak & 0x04 == 0
        },
{
    lemma_cascade_uid_size::<S, G>(0, Seq::empty(), rs, pos + 2);
}

/// An ATQA that does not announce bit frame anticollision ends SELECT with
/// `Proprietary` before any bus access.
pub proof fn lemma_proprietary_atqa<S, G>(atqa: Seq<u8>, rs: Seq<ReplyView>, pos: int)
    requires
        !bit_frame_anticollision(atqa),
    ensures
        select_run::<S, G>(atqa, rs, pos).actions.len() == 0,
        select_run::<S, G>(atqa, rs, pos).outcome == Outcome::<UidView, S, G>::Finished(Err(Error::Proprietary)),
{
}

/// A REQA that succeeds answers an ATQA of two bytes.
pub proof fn lemma_reqa_answers_two_bytes<S, G>(rs: Seq<ReplyView>, pos: int)
    ensures
        reqa_run::<S, G>(rs, pos).outcome matches Outcome::Finished(Ok(atqa)) ==> atqa.len() == 2,
{
}

/// `n` reads of CommandReg.
pub open spec fn command_reads(n: nat) -> Seq<ActionView> {
    Seq::new(n, |i: int| ActionView::Read(Register::CommandReg))
}

/// Whether each of the `n` replies from `pos` on is a read of CommandReg
/// with the power-down bit set.
pub open spec fn powered_down(rs: Seq<ReplyView>, pos: int, n: nat) -> bool {
    &&& 0 <= pos
    &&& pos + n <= rs.len()
    &&& forall|i: int|
        pos <= i < pos + n ==> (#[trigger] rs[i] matches ReplyView::Data(d) && d.len() == 2
            && d[1] & POWER_DOWN != 0)
}

/// A poll that finds the power-down bit set at each of its `left` reads gives up with `Timeout`.
pub proof fn lemma_power_up_gives_up<S, G>(rs: Seq<ReplyView>, pos: int, left: nat)
    requires
        powered_down(rs, pos, left),
    ensures
        power_up_run::<S, G>(rs, pos, left).actions == command_reads(left),
        power_up_run::<S, G>(rs, pos, left).outcome == Outcome::<(), S, G>::Finished(Err(Error::Timeout)),
    decreases left,
{
    if left == 0 {
        assert(command_reads(0) =~= Seq::<ActionView>::empty());
    } else {
        assert(rs[pos] matches ReplyView::Data(d) && d.len() == 2 && d[1] & POWER_DOWN != 0);
        lemma_power_up_gives_up::<S, G>(rs, pos + 1, (left - 1) as nat);
        assert(seq![ActionView::Read(Register::CommandReg)] + command_reads((left - 1) as nat) =~= command_reads(left));
    }
}

/// When the power-down bit never clears after the soft reset, initialization
/// gives up with `Timeout` after `POWER_UP_POLLS` reads of CommandReg, having
/// written no register but CommandReg.
pub proof fn lemma_init_times_out_when_powered_down<S, G>(rs: Seq<ReplyView>)
    requires
        rs.len() > 0,
        rs[0] is Done,
        powered_down(rs, 1, POWER_UP_POLLS as nat),
    ensures
        init_run::<S, G>(rs, 0).outcome == Outcome::<(), S, G>::Finished(Err(Error::Timeout)),
        init_run::<S, G>(rs, 0).actions == seq![
            ActionView::Write(Register::CommandReg, crate::register::Command::SoftReset.value()),
        ] + command_reads(POWER_UP_POLLS as nat),
{
    lemma_power_up_gives_up::<S, G>(rs, 1, POWER_UP_POLLS as nat);
}

/// Resetting to idle continues with one more reply.
pub broadcast proof fn lemma_reset_to_idle_continues<S, G>(rs: Seq<ReplyView>, r: ReplyView, pos: int)
    requires
        pos >= 0,
    ensures
        #[trigger] continues(reset_to_idle_run::<S, G>(rs, pos), reset_to_idle_run::<S, G>(rs.push(r), pos)),
{
    broadcast use {lemma_continues_itself, lemma_single_continues, lemma_then_continues};

    reveal(reset_to_idle_run);
}

/// Waiting for an interrupt source continues with one more reply.
pub broadcast proof fn lemma_wait_for_irq_source_continues<S, G>(
    timeout_ms: u64,
    com_irq_mask: u8,
    div_irq_mask: u8,
    rs: Seq<ReplyView>,
    r: ReplyView,
    pos: int,
)
    requires
        pos >= 0,
    ensures
        #[trigger] continues(
            wait_for_irq_source_run::<S, G>(timeout_ms, com_irq_mask, div_irq_mask, rs, pos),
            wait_for_irq_source_run::<S, G>(timeout_ms, com_irq_mask, div_irq_mask, rs.push(r), pos),
        ),
{
    broadcast use {lemma_continues_itself, lemma_single_continues, lemma_then_continues};

    reveal(wait_for_irq_source_run);
    assert forall|com: u8, div: u8, p: int| p >= 0 implies #[trigger] continues(
        irq_source_run::<S, G>(com, div, com_irq_mask, div_irq_mask, rs, p),
        irq_source_run::<S, G>(com, div, com_irq_mask, div_irq_mask, rs.push(r), p),
    ) by {}
}

/// Reading the FIFO continues with one more reply.
pub broadcast proof fn lemma_fifo_data_continues<const RX: usize, S, G>(rs: Seq<ReplyView>, r: ReplyView, pos: int)
    requires
        pos >= 0,
    ensures
        #[trigger] continues(fifo_data_run::<RX, S, G>(rs, pos), fifo_data_run::<RX, S, G>(rs.push(r), pos)),
{
    broadcast use {lemma_continues_itself, lemma_single_continues, lemma_then_continues};

    reveal(fifo_data_run);
}

/// A transceive continues with one more reply.
pub broadcast proof fn lemma_transceive_continues<const RX: usize, S, G>(
    tx: Seq<u8>,
    tx_last_bits: u8,
    rx_align_bits: u8,
    rs: Seq<ReplyView>,
    r: ReplyView,
    pos: int,
)
    requires
        pos >= 0,
    ensures
        #[trigger] continues(
            transceive_run::<RX, S, G>(tx, tx_last_bits, rx_align_bits, rs, pos),
            transceive_run::<RX, S, G>(tx, tx_last_bits, rx_align_bits, rs.push(r), pos),
        ),
{
    broadcast use {
        lemma_continues_itself,
        lemma_single_continues,
        lemma_then_continues,
        lemma_reset_to_idle_continues,
        lemma_wait_for_irq_source_continues,
        lemma_fifo_data_continues,
    };

    reveal(transceive_run);
}

/// A CRC calculation continues with one more reply.
pub broadcast proof fn lemma_calculate_crc_continues<S, G>(data: Seq<u8>, rs: Seq<ReplyView>, r: ReplyView, pos: int)
    requires
        pos >= 0,
    ensures
        #[trigger] continues(calculate_crc_run::<S, G>(data, rs, pos), calculate_crc_run::<S, G>(data, rs.push(r), pos)),
{
    broadcast use {
        lemma_continues_itself,
        lemma_single_continues,
        lemma_then_continues,
        lemma_reset_to_idle_continues,
        lemma_wait_for_irq_source_continues,
    };

    reveal(calculate_crc_run);
}

/// Polling for the end of the power-down continues with one more reply.
pub broadcast proof fn lemma_power_up_continues<S, G>(rs: Seq<ReplyView>, r: ReplyView, pos: int, left: nat)
    requires
        pos >= 0,
    ensures
        #[trigger] continues(power_up_run::<S, G>(rs, pos, left), power_up_run::<S, G>(rs.push(r), pos, left)),
    decreases left,
{
    let run = power_up_run::<S, G>(rs, pos, left);
    let more = power_up_run::<S, G>(rs.push(r), pos, left);
    if left == 0 {
        assert(more.actions =~= run.actions);
    } else if pos < rs.len() {
        assert(rs.push(r)[pos] == rs[pos]);
        match rs[pos] {
            ReplyView::Data(d) => if d.len() == 2 && d[1] & crate::register::POWER_DOWN != 0 {
                lemma_power_up_continues::<S, G>(rs, r, pos + 1, (left - 1) as nat);
                let rest = power_up_run::<S, G>(rs, pos + 1, (left - 1) as nat);
                if rest.outcome is Waiting {
                    assert(more.actions.subrange(0, run.actions.len() as int) =~= run.actions);
                } else {
                    assert(more.actions =~= run.actions);
                }
            } else {
                assert(more.actions =~= run.actions);
            },
            _ => {
                assert(more.actions =~= run.actions);
            },
        }
    } else {
        assert(more.actions.subrange(0, run.actions.len() as int) =~= run.actions);
    }
}

/// Resetting the chip continues with one more reply.
pub broadcast proof fn lemma_reset_continues<S, G>(rs: Seq<ReplyView>, r: ReplyView, pos: int)
    requires
        pos >= 0,
    ensures
        #[trigger] continues(reset_run::<S, G>(rs, pos), reset_run::<S, G>(rs.push(r), pos)),
{
    broadcast use {
        lemma_continues_itself,
        lemma_single_continues,
        lemma_then_continues,
        lemma_power_up_continues,
    };

}

/// After a collision, reading its position and the bits received continues with one more reply.
pub broadcast proof fn lemma_collision_continues<S, G>(tx: Seq<u8>, known_bits: u8, rs: Seq<ReplyView>, r: ReplyView, pos: int)
    requires
        pos >= 0,
    ensures
        #[trigger] continues(collision_run::<S, G>(tx, known_bits, rs, pos), collision_run::<S, G>(tx, known_bits, rs.push(r), pos)),
{
    broadcast use {
        lemma_continues_itself,
        lemma_single_continues,
        lemma_then_continues,
        lemma_fifo_data_continues,
    };

}

/// A round of anticollision continues with one more reply.
pub broadcast proof fn lemma_anticollision_round_continues<S, G>(
    tx: Seq<u8>,
    known_bits: u8,
    rs: Seq<ReplyView>,
    r: ReplyView,
    pos: int,
)
    requires
        pos >= 0,
    ensures
        #[trigger] continues(
            anticollision_round::<S, G>(tx, known_bits, rs, pos),
            anticollision_round::<S, G>(tx, known_bits, rs.push(r), pos),
        ),
{
    let last = known_bits % 8;
    let tx1 = tx.update(1, nvb(known_bits));
    let frame = tx1.subrange(0, frame_len(known_bits));
    lemma_transceive_continues::<5, S, G>(frame, last, last, rs, r, pos);
    let sent = transceive_run::<5, S, G>(frame, last, last, rs, pos);
    let sent_more = transceive_run::<5, S, G>(frame, last, last, rs.push(r), pos);
    let run = anticollision_round::<S, G>(tx, known_bits, rs, pos);
    let more = anticollision_round::<S, G>(tx, known_bits, rs.push(r), pos);
    match sent.outcome {
        Outcome::Finished(Err(Error::Collision)) => {
            let p = pos + sent.actions.len();
            lemma_collision_continues::<S, G>(tx1, known_bits, rs, r, p);
            let c = collision_run::<S, G>(tx1, known_bits, rs, p);
            if c.outcome is Waiting {
                assert(more.actions.subrange(0, run.actions.len() as int) =~= run.actions);
            } else {
                assert(more.actions =~= run.actions);
            }
        },
        Outcome::Waiting => {
            assert(more.actions.subrange(0, run.actions.len() as int) =~= run.actions);
        },
        _ => {
            assert(more.actions =~= run.actions);
        },
    }
}

/// Anticollision continues with one more reply.
pub broadcast proof fn lemma_anticollision_continues<S, G>(
    tx: Seq<u8>,
    known_bits: u8,
    rs: Seq<ReplyView>,
    r: ReplyView,
    pos: int,
)
    requires
        pos >= 0,
    ensures
        #[trigger] continues(
            anticollision_run::<S, G>(tx, known_bits, rs, pos),
            anticollision_run::<S, G>(tx, known_bits, rs.push(r), pos),
        ),
    decreases rs.len() - pos,
{
    lemma_anticollision_round_continues::<S, G>(tx, known_bits, rs, r, pos);
    let round = anticollision_round::<S, G>(tx, known_bits, rs, pos);
    let round_more = anticollision_round::<S, G>(tx, known_bits, rs.push(r), pos);
    let run = anticollision_run::<S, G>(tx, known_bits, rs, pos);
    let more = anticollision_run::<S, G>(tx, known_bits, rs.push(r), pos);
    match round.outcome {
        Outcome::Finished(Ok(Round::Narrowed(tx2, known))) => {
            let next = pos + round.actions.len();
            if pos < next <= rs.len() {
                lemma_anticollision_continues::<S, G>(tx2, known, rs, r, next);
                let rest = anticollision_run::<S, G>(tx2, known, rs, next);
                if rest.outcome is Waiting {
                    assert(more.actions.subrange(0, run.actions.len() as int) =~= run.actions);
                } else {
                    assert(more.actions =~= run.actions);
                }
            } else {
                assert(more.actions.subrange(0, run.actions.len() as int) =~= run.actions);
            }
        },
        Outcome::Waiting => {
            assert(round_more.actions.subrange(0, round.actions.len() as int) =~= round.actions);
            assert(more.actions.subrange(0, run.actions.len() as int) =~= run.actions);
        },
        _ => {
            assert(more.actions =~= run.actions);
        },
    }
}

/// Selecting at one cascade level continues with one more reply.
pub broadcast proof fn lemma_select_level_continues<S, G>(cmd: u8, rs: Seq<ReplyView>, r: ReplyView, pos: int)
    requires
        pos >= 0,
    ensures
        #[trigger] continues(select_level_run::<S, G>(cmd, rs, pos), select_level_run::<S, G>(cmd, rs.push(r), pos)),
{
    broadcast use {
        lemma_continues_itself,
        lemma_then_continues,
        lemma_anticollision_continues,
        lemma_calculate_crc_continues,
        lemma_transceive_continues,
    };

    reveal(select_level_run);
}

/// The cascade levels continue with one more reply.
pub broadcast proof fn lemma_cascade_continues<S, G>(level: u8, prefix: Seq<u8>, rs: Seq<ReplyView>, r: ReplyView, pos: int)
    requires
        pos >= 0,
    ensures
        #[trigger] continues(cascade_run::<S, G>(level, prefix, rs, pos), cascade_run::<S, G>(level, prefix, rs.push(r), pos)),
    decreases 3 - level,
{
    let cmd = crate::select::cascade_command(level).value();
    lemma_select_level_continues::<S, G>(cmd, rs, r, pos);
    let l = select_level_run::<S, G>(cmd, rs, pos);
    let run = cascade_run::<S, G>(level, prefix, rs, pos);
    let more = cascade_run::<S, G>(level, prefix, rs.push(r), pos);
    match l.outcome {
        Outcome::Finished(Ok((tx, sak))) => {
            if sak & 0x04 != 0 && level < 2 {
                let p = pos + l.actions.len();
                let prefix2 = prefix + tx.subrange(3, 6);
                lemma_cascade_continues::<S, G>((level + 1) as u8, prefix2, rs, r, p);
                let rest = cascade_run::<S, G>((level + 1) as u8, prefix2, rs, p);
                if rest.outcome is Waiting {
                    assert(more.actions.subrange(0, run.actions.len() as int) =~= run.actions);
                } else {
                    assert(more.actions =~= run.actions);
                }
            } else {
                assert(more.actions =~= run.actions);
            }
        },
        Outcome::Waiting => {
            assert(more.actions.subrange(0, run.actions.len() as int) =~= run.actions);
        },
        _ => {
            assert(more.actions =~= run.actions);
        },
    }
}

/// Every procedure of the driver continues when the reply to the action it
/// asks for is appended to the replies it was given: the actions it asked
/// for stay, in order, and once it has ended, more replies change nothing.
/// So asking again after each reply, as whoever drives it does, runs one
/// single run.
pub proof fn lemma_procedures_continue<S, G>(rs: Seq<ReplyView>, r: ReplyView, atqa: Seq<u8>, data: Seq<u8>, tx: Seq<u8>, tx_last_bits: u8, rx_align_bits: u8, reg: Register, value: u8)
    ensures
        continues(init_run::<S, G>(rs, 0), init_run::<S, G>(rs.push(r), 0)),
        continues(reqa_run::<S, G>(rs, 0), reqa_run::<S, G>(rs.push(r), 0)),
        continues(new_card_present_run::<S, G>(rs, 0), new_card_present_run::<S, G>(rs.push(r), 0)),
        continues(select_run::<S, G>(atqa, rs, 0), select_run::<S, G>(atqa, rs.push(r), 0)),
        continues(crate::bus::read_reg::<S, G>(reg, rs, 0), crate::bus::read_reg::<S, G>(reg, rs.push(r), 0)),
        continues(crate::bus::write_reg::<S, G>(reg, value, rs, 0), crate::bus::write_reg::<S, G>(reg, value, rs.push(r), 0)),
        continues(reset_to_idle_run::<S, G>(rs, 0), reset_to_idle_run::<S, G>(rs.push(r), 0)),
        continues(calculate_crc_run::<S, G>(data, rs, 0), calculate_crc_run::<S, G>(data, rs.push(r), 0)),
        continues(
            transceive_run::<5, S, G>(tx, tx_last_bits, rx_align_bits, rs, 0),
            transceive_run::<5, S, G>(tx, tx_last_bits, rx_align_bits, rs.push(r), 0),
        ),
{
    broadcast use {
        lemma_continues_itself,
        lemma_single_continues,
        lemma_then_continues,
        lemma_reset_to_idle_continues,
        lemma_wait_for_irq_source_continues,
        lemma_calculate_crc_continues,
        lemma_transceive_continues,
        lemma_reset_continues,
        lemma_cascade_continues,
    };

}

} // verus!
