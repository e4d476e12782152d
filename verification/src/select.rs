//! Selecting a PICC: the anticollision loop of ISO 14443-3 at each cascade
//! level, then SELECT, until the PICC reports its UID complete.

use vstd::prelude::*;

use crate::bus::{
    conclude, follows, progress_viewed, read_reg, read_register, replies_view, reports_viewed,
    then, viewed, write_reg, write_register, ActionView, Outcome, Progress, Reply, ReplyView, Run,
    Stop,
};
use crate::error::Error;
use crate::picc;
use crate::procedure::{
    calculate_crc_at, calculate_crc_run, fifo_data_at, fifo_data_run, transceive_at,
    transceive_run,
};
use crate::register::Register;
use crate::uid::{copy_bits, AtqA, FifoData, FifoView, GenericUid, Uid, UidView};

verus! {

/// The number of bits set among the lowest `n` bits of `v`.
pub open spec fn ones(v: u8, n: nat) -> nat
    decreases n,
{
    if n == 0 {
        0
    } else {
        ones(v, (n - 1) as nat) + ((v >> ((n - 1) as u8)) & 1u8) as nat
    }
}

/// Whether the ATQA announces bit frame anticollision: exactly one of its
/// first byte's five low bits is set. Otherwise the PICC is proprietary.
pub open spec fn bit_frame_anticollision(atqa: Seq<u8>) -> bool {
    ones(atqa[0] & 0x1F, 8) == 1
}

/// The number of bits set in `v` (Rust's `count_ones`).
fn count_ones(v: u8) -> (c: u32)
    ensures
        c == ones(v, 8),
{
    let mut c: u32 = 0;
    let mut i: u8 = 0;
    while i < 8
        invariant
            0 <= i <= 8,
            c == ones(v, i as nat),
            c <= i,
        decreases 8 - i,
    {
        assert((v >> i) & 1u8 <= 1) by (bit_vector);
        c = c + ((v >> i) & 1u8) as u32;
        i = i + 1;
    }
    c
}

/// The SELECT frame `tx` after the UID-CLn bytes (2 to 6) took the FIFO data
/// by [`copy_bits`], with `known_bits` bits of them already known.
pub open spec fn copy_into_frame<S, G>(tx: Seq<u8>, fifo: FifoView, known_bits: u8) -> Result<Seq<u8>, Error<S, G>> {
    let (part, r) = copy_bits::<S, G>(fifo, tx.subrange(2, 7), known_bits);
    match r {
        Ok(_) => Ok(tx.subrange(0, 2) + part + tx.subrange(7, 9)),
        Err(e) => Err(e),
    }
}

/// The NVB byte of an anticollision frame with `known_bits` known UID bits:
/// the number of whole bytes sent (2 plus the known whole bytes) in the high
/// nibble, the number of bits of the last byte in the low nibble.
pub open spec fn nvb(known_bits: u8) -> u8 {
    ((((2 + known_bits / 8) as u8) << 4u8) + known_bits % 8) as u8
}

/// The number of bytes an anticollision frame with `known_bits` known UID bits takes.
pub open spec fn frame_len(known_bits: u8) -> int {
    2 + known_bits / 8 + if known_bits % 8 > 0 {
        1int
    } else {
        0
    }
}

/// `tx` with the bit at (1-based) position `known_bits` of the UID set: the
/// value that the colliding bit is resolved to.
pub open spec fn set_collision_bit(tx: Seq<u8>, known_bits: u8) -> Seq<u8> {
    let check_bit = ((known_bits - 1) % 8) as u8;
    let index = 1 + known_bits / 8 + if known_bits % 8 != 0 {
        1int
    } else {
        0
    };
    tx.update(index, tx[index] | (1u8 << check_bit))
}

/// What a round of anticollision learns.
pub ghost enum Round {
    /// All UID bits of this cascade level are known; the frame holds them.
    Known(Seq<u8>),
    /// A collision was resolved: the frame and the number of bits now known.
    Narrowed(Seq<u8>, u8),
}

/// After a collision: reading where it happened, failing when the position is
/// not valid or precedes the bits already known, and otherwise reading the
/// bits received so far and deciding the colliding bit to be 1.
pub open spec fn collision_run<S, G>(tx: Seq<u8>, known_bits: u8, rs: Seq<ReplyView>, pos: int) -> Run<Round, S, G> {
    then(
        read_reg(Register::CollReg, rs, pos),
        pos,
        |coll: u8, p: int|
            if coll & 0x20 != 0 {
                conclude(Err(Error::Collision))
            } else {
                let coll_pos: u8 = if coll & 0x1F == 0 {
                    32
                } else {
                    coll & 0x1F
                };
                if coll_pos < known_bits {
                    conclude(Err(Error::Collision))
                } else {
                    then(
                        fifo_data_run::<5, S, G>(rs, p),
                        p,
                        |fifo: FifoView, q: int|
                            match copy_into_frame::<S, G>(tx, fifo, known_bits) {
                                Ok(tx2) => conclude(
                                    Ok(Round::Narrowed(set_collision_bit(tx2, coll_pos), coll_pos)),
                                ),
                                Err(e) => conclude(Err(e)),
                            },
                    )
                }
            },
    )
}

/// One round of anticollision with `known_bits` bits of the UID known: the
/// frame with its NVB is sent, and the answer either completes the UID bits
/// or reports a collision to resolve.
pub open spec fn anticollision_round<S, G>(tx: Seq<u8>, known_bits: u8, rs: Seq<ReplyView>, pos: int) -> Run<Round, S, G> {
    let last = known_bits % 8;
    let tx1 = tx.update(1, nvb(known_bits));
    let sent = transceive_run::<5, S, G>(tx1.subrange(0, frame_len(known_bits)), last, last, rs, pos);
    match sent.outcome {
        Outcome::Finished(Ok(fifo)) => Run {
            actions: sent.actions,
            outcome: Outcome::Finished(
                match copy_into_frame::<S, G>(tx1, fifo, known_bits) {
                    Ok(tx2) => Ok(Round::Known(tx2)),
                    Err(e) => Err(e),
                },
            ),
        },
        Outcome::Finished(Err(Error::Collision)) => {
            let c = collision_run(tx1, known_bits, rs, pos + sent.actions.len());
            Run { actions: sent.actions + c.actions, outcome: c.outcome }
        },
        Outcome::Finished(Err(e)) => Run { actions: sent.actions, outcome: Outcome::Finished(Err(e)) },
        Outcome::Waiting => Run { actions: sent.actions, outcome: Outcome::Waiting },
        Outcome::Mismatch => Run { actions: sent.actions, outcome: Outcome::Mismatch },
    }
}

/// Copies the FIFO data into the UID-CLn bytes (2 to 6) of the frame `tx`.
fn copy_into_frame_exec<S, G>(fifo: &FifoData<5>, tx: &mut [u8; 9], known_bits: u8) -> (r: Result<(), Error<S, G>>)
    requires
        known_bits <= 32,
        fifo.valid_bytes <= 5,
        fifo.valid_bits < 8,
    ensures
        match copy_into_frame::<S, G>(old(tx)@, fifo@, known_bits) {
            Ok(t) => r is Ok && final(tx)@ == t,
            Err(e) => r == Err::<(), Error<S, G>>(e),
        },
{
    let mut part: [u8; 5] = [tx[2], tx[3], tx[4], tx[5], tx[6]];
    assert(part@ =~= old(tx)@.subrange(2, 7));
    match fifo.copy_bits_to::<S, G>(&mut part, known_bits) {
        Ok(_) => {},
        Err(e) => return Err(e),
    }
    tx[2] = part[0];
    tx[3] = part[1];
    tx[4] = part[2];
    tx[5] = part[3];
    tx[6] = part[4];
    assert(tx@ =~= old(tx)@.subrange(0, 2) + part@ + old(tx)@.subrange(7, 9));
    Ok(())
}

/// The result of a round as its model: `Known` or `Narrowed`, with the frame `tx`.
pub open spec fn round_result<S, G>(r: Result<Option<u8>, Stop<S, G>>, tx: Seq<u8>) -> Result<Round, Stop<S, G>> {
    match r {
        Ok(None) => Ok(Round::Known(tx)),
        Ok(Some(k)) => Ok(Round::Narrowed(tx, k)),
        Err(e) => Err(e),
    }
}

/// One round of anticollision; `Some` of the bits known after a resolved collision.
fn anticollision_round_at<S, G>(
    replies: &Vec<Reply>,
    pos: &mut usize,
    tx: &mut [u8; 9],
    known_bits: u8,
) -> (r: Result<Option<u8>, Stop<S, G>>)
    requires
        *old(pos) <= replies@.len(),
        known_bits <= 32,
    ensures
        *final(pos) <= replies@.len(),
        follows(
            round_result(r, final(tx)@),
            anticollision_round::<S, G>(old(tx)@, known_bits, replies_view(replies@), *old(pos) as int),
            *old(pos) as int,
            *final(pos) as int,
        ),
        r matches Ok(Some(k)) ==> known_bits <= k <= 32 && 1 <= k,
{
    let tx_last_bits: u8 = known_bits % 8;
    let tx_bytes: u8 = 2 + known_bits / 8;
    let end: usize = tx_bytes as usize + if tx_last_bits > 0 {
        1
    } else {
        0
    };
    assert((tx_bytes << 4u8) + tx_last_bits <= 0xFF) by (bit_vector)
        requires
            tx_bytes <= 6,
            tx_last_bits < 8,
    ;
    tx[1] = (tx_bytes << 4u8) + tx_last_bits;
    let ghost tx1 = tx@;
    assert(tx1 == old(tx)@.update(1, nvb(known_bits)));
    let sent = transceive_at::<5, S, G>(replies, pos, &tx[0..end], tx_last_bits, tx_last_bits);
    match sent {
        Ok(fifo) => {
            match copy_into_frame_exec::<S, G>(&fifo, tx, known_bits) {
                Ok(()) => Ok(None),
                Err(e) => Err(Stop::Fail(e)),
            }
        },
        Err(Stop::Fail(Error::Collision)) => {
            let coll = read_register(replies, pos, Register::CollReg)?;
            if coll & 0x20 != 0 {
                return Err(Stop::Fail(Error::Collision));
            }
            let mut coll_pos: u8 = coll & 0x1F;
            if coll_pos == 0 {
                coll_pos = 32;
            }
            assert(coll & 0x1Fu8 <= 31) by (bit_vector);
            if coll_pos < known_bits {
                return Err(Stop::Fail(Error::Collision));
            }
            let fifo = fifo_data_at::<5, S, G>(replies, pos)?;
            match copy_into_frame_exec::<S, G>(&fifo, tx, known_bits) {
                Ok(()) => {},
                Err(e) => return Err(Stop::Fail(e)),
            }
            let known: u8 = coll_pos;
            let count: u8 = known % 8;
            let check_bit: u8 = (known - 1) % 8;
            let index: usize = 1 + (known / 8) as usize + if count != 0 {
                1
            } else {
                0
            };
            tx[index] = tx[index] | (1u8 << check_bit);
            Ok(Some(known))
        },
        Err(e) => Err(e),
    }
}

/// Anticollision at one cascade level: rounds until all UID bits are known.
/// (A round that finishes uses at least one reply and no more than there are,
/// so the rounds that follow it start further on.)
pub open spec fn anticollision_run<S, G>(tx: Seq<u8>, known_bits: u8, rs: Seq<ReplyView>, pos: int) -> Run<Seq<u8>, S, G>
    decreases rs.len() - pos,
{
    let round = anticollision_round::<S, G>(tx, known_bits, rs, pos);
    match round.outcome {
        Outcome::Finished(Ok(Round::Known(tx2))) => Run { actions: round.actions, outcome: Outcome::Finished(Ok(tx2)) },
        Outcome::Finished(Ok(Round::Narrowed(tx2, known))) => {
            let next = pos + round.actions.len();
            if pos < next <= rs.len() {
                let rest = anticollision_run::<S, G>(tx2, known, rs, next);
                Run { actions: round.actions + rest.actions, outcome: rest.outcome }
            } else {
                Run { actions: round.actions, outcome: Outcome::Waiting }
            }
        },
        Outcome::Finished(Err(e)) => Run { actions: round.actions, outcome: Outcome::Finished(Err(e)) },
        Outcome::Waiting => Run { actions: round.actions, outcome: Outcome::Waiting },
        Outcome::Mismatch => Run { actions: round.actions, outcome: Outcome::Mismatch },
    }
}

/// Runs anticollision rounds until the UID bits of this cascade level are all known.
fn anticollision_at<S, G>(replies: &Vec<Reply>, pos: &mut usize, tx: &mut [u8; 9]) -> (r: Result<(), Stop<S, G>>)
    requires
        *old(pos) <= replies@.len(),
    ensures
        *final(pos) <= replies@.len(),
        follows(
            match r {
                Ok(()) => Ok(final(tx)@),
                Err(e) => Err(e),
            },
            anticollision_run::<S, G>(old(tx)@, 0, replies_view(replies@), *old(pos) as int),
            *old(pos) as int,
            *final(pos) as int,
        ),
{
    let ghost rs = replies_view(replies@);
    let ghost pos0 = *pos as int;
    let ghost tx0 = tx@;
    let ghost mut done: Seq<ActionView> = Seq::empty();
    let mut known_bits: u8 = 0;
    loop
        invariant
            rs == replies_view(replies@),
            pos0 == *old(pos),
            tx0 == old(tx)@,
            pos0 <= *pos <= replies@.len(),
            *pos == pos0 + done.len(),
            known_bits <= 32,
            anticollision_run::<S, G>(tx0, 0, rs, pos0).outcome
                == anticollision_run::<S, G>(tx@, known_bits, rs, *pos as int).outcome,
            anticollision_run::<S, G>(tx0, 0, rs, pos0).actions
                == done + anticollision_run::<S, G>(tx@, known_bits, rs, *pos as int).actions,
        decreases replies@.len() - *pos,
    {
        let ghost p = *pos as int;
        let ghost tx_here = tx@;
        let ghost round = anticollision_round::<S, G>(tx_here, known_bits, rs, p);
        let ghost here = anticollision_run::<S, G>(tx_here, known_bits, rs, p);
        match anticollision_round_at::<S, G>(replies, pos, tx, known_bits) {
            Ok(None) => {
                assert(here.actions == round.actions);
                return Ok(());
            },
            Ok(Some(known)) => {
                assert(p < *pos <= rs.len());
                let ghost rest = anticollision_run::<S, G>(tx@, known, rs, *pos as int);
                assert(here.actions == round.actions + rest.actions);
                proof {
                    done = done + round.actions;
                }
                assert(anticollision_run::<S, G>(tx0, 0, rs, pos0).actions =~= done + rest.actions);
                known_bits = known;
            },
            Err(e) => {
                return Err(e);
            },
        }
    }
}

/// The SELECT frame with its UID-CLn bytes known: NVB 0x70 (seven whole
/// bytes) and the BCC, the XOR of the four UID bytes, in byte 6.
pub open spec fn select_frame(tx: Seq<u8>) -> Seq<u8> {
    tx.update(1, 0x70).update(6, tx[2] ^ tx[3] ^ tx[4] ^ tx[5])
}

/// Whether the BCC received in byte 6 of the frame checks the four UID
/// bytes before it: it is their XOR.
pub open spec fn bcc_valid(tx: Seq<u8>) -> bool {
    tx[6] == tx[2] ^ tx[3] ^ tx[4] ^ tx[5]
}

/// Selecting at one cascade level: anticollision; a BCC that does not check
/// the UID bytes received fails with `Bcc`; otherwise SELECT with its CRC_A,
/// answered by a SAK of one byte with a valid CRC_A. The value is the SELECT
/// frame sent and the SAK byte.
#[verifier::opaque]
pub open spec fn select_level_run<S, G>(cmd: u8, rs: Seq<ReplyView>, pos: int) -> Run<(Seq<u8>, u8), S, G> {
    then(
        anticollision_run::<S, G>(seq![cmd, 0u8, 0u8, 0u8, 0u8, 0u8, 0u8, 0u8, 0u8], 0, rs, pos),
        pos,
        |tx: Seq<u8>, p1: int|
            if !bcc_valid(tx) {
                conclude(Err(Error::Bcc))
            } else {
                select_frame_run::<S, G>(select_frame(tx), rs, p1)
            },
    )
}

/// Sending the SELECT frame `frame` (its first seven bytes) with its CRC_A,
/// answered by a SAK of one byte with a valid CRC_A. The value is the frame
/// sent and the SAK byte.
pub open spec fn select_frame_run<S, G>(frame: Seq<u8>, rs: Seq<ReplyView>, pos: int) -> Run<(Seq<u8>, u8), S, G> {
    then(
        calculate_crc_run::<S, G>(frame.subrange(0, 7), rs, pos),
        pos,
        |crc: Seq<u8>, p2: int|
            then(
                transceive_run::<3, S, G>(frame.update(7, crc[0]).update(8, crc[1]), 0, 0, rs, p2),
                p2,
                |rx: FifoView, p3: int|
                    if rx.valid_bytes != 3 || rx.valid_bits != 0 {
                        conclude(Err(Error::IncompleteFrame))
                    } else {
                        then(
                            calculate_crc_run::<S, G>(seq![rx.buffer[0]], rs, p3),
                            p3,
                            |check: Seq<u8>, p4: int|
                                if rx.buffer.subrange(1, 3) != check {
                                    conclude(Err(Error::Crc))
                                } else {
                                    conclude(Ok((frame.update(7, crc[0]).update(8, crc[1]), rx.buffer[0])))
                                },
                        )
                    },
            ),
    )
}

/// Selects at one cascade level; the SELECT frame sent and the SAK byte.
fn select_level_at<S, G>(replies: &Vec<Reply>, pos: &mut usize, cmd: u8) -> (r: Result<([u8; 9], u8), Stop<S, G>>)
    requires
        *old(pos) <= replies@.len(),
    ensures
        *final(pos) <= replies@.len(),
        follows(
            match r {
                Ok((tx, sak)) => Ok((tx@, sak)),
                Err(e) => Err(e),
            },
            select_level_run::<S, G>(cmd, replies_view(replies@), *old(pos) as int),
            *old(pos) as int,
            *final(pos) as int,
        ),
{
    reveal(select_level_run);
    let mut tx: [u8; 9] = [cmd, 0, 0, 0, 0, 0, 0, 0, 0];
    assert(tx@ =~= seq![cmd, 0u8, 0u8, 0u8, 0u8, 0u8, 0u8, 0u8, 0u8]);
    anticollision_at::<S, G>(replies, pos, &mut tx)?;
    let ghost known = tx@;
    if tx[6] != tx[2] ^ tx[3] ^ tx[4] ^ tx[5] {
        return Err(Stop::Fail(Error::Bcc));
    }
    // NVB: 7 valid bytes
    tx[1] = 0x70;
    // BCC
    tx[6] = tx[2] ^ tx[3] ^ tx[4] ^ tx[5];
    assert(tx@ == select_frame(known));
    let head: [u8; 7] = [tx[0], tx[1], tx[2], tx[3], tx[4], tx[5], tx[6]];
    assert(head@ =~= select_frame(known).subrange(0, 7));
    let crc = calculate_crc_at::<S, G>(replies, pos, &head)?;
    tx[7] = crc[0];
    tx[8] = crc[1];
    let rx = transceive_at::<3, S, G>(replies, pos, &tx, 0, 0)?;
    if rx.valid_bytes != 3 || rx.valid_bits != 0 {
        return Err(Stop::Fail(Error::IncompleteFrame));
    }
    let sak_byte = [rx.buffer[0]];
    assert(sak_byte@ =~= seq![rx.buffer@[0]]);
    let check = calculate_crc_at::<S, G>(replies, pos, &sak_byte)?;
    if rx.buffer[1] != check[0] || rx.buffer[2] != check[1] {
        assert(rx.buffer@.subrange(1, 3) != check@);
        return Err(Stop::Fail(Error::Crc));
    }
    assert(rx.buffer@.subrange(1, 3) =~= check@);
    Ok((tx, rx.buffer[0]))
}

/// The anticollision / select command of cascade level `level` (counted from 0).
pub open spec fn cascade_command(level: u8) -> picc::Command {
    if level == 0 {
        picc::Command::SelCl1
    } else if level == 1 {
        picc::Command::SelCl2
    } else {
        picc::Command::SelCl3
    }
}

/// Selecting from cascade level `level` on, with the UID bytes of the earlier
/// levels in `prefix`. A SAK with the cascade bit clear completes the UID with
/// the four UID-CLn bytes of this level; a SAK with it set adds the three bytes
/// after the cascade tag and goes on to the next level, but there is none after
/// the third: the SAK then breaks the protocol.
pub open spec fn cascade_run<S, G>(level: u8, prefix: Seq<u8>, rs: Seq<ReplyView>, pos: int) -> Run<UidView, S, G>
    decreases 3 - level,
{
    let l = select_level_run::<S, G>(cascade_command(level).value(), rs, pos);
    match l.outcome {
        Outcome::Finished(Ok((tx, sak))) => if sak & 0x04 == 0 {
            Run {
                actions: l.actions,
                outcome: Outcome::Finished(Ok(UidView { bytes: prefix + tx.subrange(2, 6), sak })),
            }
        } else if level >= 2 {
            Run { actions: l.actions, outcome: Outcome::Finished(Err(Error::Protocol)) }
        } else {
            let rest = cascade_run::<S, G>(
                (level + 1) as u8,
                prefix + tx.subrange(3, 6),
                rs,
                pos + l.actions.len(),
            );
            Run { actions: l.actions + rest.actions, outcome: rest.outcome }
        },
        Outcome::Finished(Err(e)) => Run { actions: l.actions, outcome: Outcome::Finished(Err(e)) },
        Outcome::Waiting => Run { actions: l.actions, outcome: Outcome::Waiting },
        Outcome::Mismatch => Run { actions: l.actions, outcome: Outcome::Mismatch },
    }
}

/// Selecting the PICC that answered REQA with `atqa`: a PICC that does not
/// announce bit frame anticollision is proprietary; otherwise ValuesAfterColl
/// is cleared in CollReg and the cascade levels are run.
pub open spec fn select_run<S, G>(atqa: Seq<u8>, rs: Seq<ReplyView>, pos: int) -> Run<UidView, S, G> {
    if !bit_frame_anticollision(atqa) {
        conclude(Err(Error::Proprietary))
    } else {
        then(
            read_reg(Register::CollReg, rs, pos),
            pos,
            |coll: u8, p: int|
                then(
                    write_reg(Register::CollReg, coll & !0x80u8, rs, p),
                    p,
                    |u: (), q: int| cascade_run::<S, G>(0, Seq::empty(), rs, q),
                ),
        )
    }
}

fn select_at<S, G>(replies: &Vec<Reply>, pos: &mut usize, atqa: &AtqA) -> (r: Result<Uid, Stop<S, G>>)
    requires
        *old(pos) <= replies@.len(),
    ensures
        *final(pos) <= replies@.len(),
        follows(viewed(r), select_run::<S, G>(atqa@, replies_view(replies@), *old(pos) as int), *old(pos) as int, *final(pos) as int),
{
    let ghost rs = replies_view(replies@);
    let ghost pos0 = *pos as int;
    let atqa_bytes = atqa.bytes();
    if count_ones(atqa_bytes[0] & 0x1F) != 1 {
        return Err(Stop::Fail(Error::Proprietary));
    }
    // Clear ValuesAfterColl
    let coll = read_register(replies, pos, Register::CollReg)?;
    write_register(replies, pos, Register::CollReg, coll & !0x80u8)?;
    let ghost start = *pos as int;
    let ghost mut done: Seq<ActionView> = Seq::empty();
    let mut cascade_level: u8 = 0;
    let mut uid_bytes: [u8; 10] = [0u8; 10];
    let mut uid_idx: usize = 0;
    let mut sak: u8 = 0;
    loop
        invariant_except_break
            *pos == start + done.len(),
            select_run::<S, G>(atqa@, rs, pos0).outcome
                == cascade_run::<S, G>(cascade_level, uid_bytes@.subrange(0, uid_idx as int), rs, *pos as int).outcome,
            select_run::<S, G>(atqa@, rs, pos0).actions.len() == (start - pos0) + done.len()
                + cascade_run::<S, G>(cascade_level, uid_bytes@.subrange(0, uid_idx as int), rs, *pos as int).actions.len(),
            cascade_run::<S, G>(cascade_level, uid_bytes@.subrange(0, uid_idx as int), rs, *pos as int).actions.len() > 0 ==>
                select_run::<S, G>(atqa@, rs, pos0).actions.last()
                == cascade_run::<S, G>(cascade_level, uid_bytes@.subrange(0, uid_idx as int), rs, *pos as int).actions.last(),
        invariant
            rs == replies_view(replies@),
            pos0 == *old(pos),
            start <= *pos <= replies@.len(),
            cascade_level < 3,
            uid_idx == 3 * cascade_level,
            uid_bytes@.len() == 10,
        ensures
            select_run::<S, G>(atqa@, rs, pos0).outcome == Outcome::<UidView, S, G>::Finished(
                Ok(UidView { bytes: uid_bytes@.subrange(0, uid_idx + 4), sak }),
            ),
            select_run::<S, G>(atqa@, rs, pos0).actions.len() == *pos - pos0,
            uid_idx + 4 <= 10,
            uid_idx == 3 * cascade_level,
            *pos <= replies@.len(),
        decreases 3 - cascade_level,
    {
        let ghost p = *pos as int;
        let ghost prefix = uid_bytes@.subrange(0, uid_idx as int);
        let cmd = if cascade_level == 0 {
            picc::Command::SelCl1
        } else if cascade_level == 1 {
            picc::Command::SelCl2
        } else {
            picc::Command::SelCl3
        };
        let ghost level_run = select_level_run::<S, G>(cmd.value(), rs, p);
        let (tx, sak_byte) = match select_level_at::<S, G>(replies, pos, cmd.byte()) {
            Ok(selected) => selected,
            Err(e) => {
                return Err(e);
            },
        };
        if sak_byte & 0x04 != 0 {
            if cascade_level >= 2 {
                return Err(Stop::Fail(Error::Protocol));
            }
            uid_bytes[uid_idx] = tx[3];
            uid_bytes[uid_idx + 1] = tx[4];
            uid_bytes[uid_idx + 2] = tx[5];
            assert(uid_bytes@.subrange(0, uid_idx + 3) =~= prefix + tx@.subrange(3, 6));
            proof {
                done = done + level_run.actions;
            }
            uid_idx = uid_idx + 3;
            cascade_level = cascade_level + 1;
        } else {
            uid_bytes[uid_idx] = tx[2];
            uid_bytes[uid_idx + 1] = tx[3];
            uid_bytes[uid_idx + 2] = tx[4];
            uid_bytes[uid_idx + 3] = tx[5];
            assert(uid_bytes@.subrange(0, uid_idx + 4) =~= prefix + tx@.subrange(2, 6));
            sak = sak_byte;
            break;
        }
    }
    let sak_byte = sak;
    let sak = picc::Sak::from(sak_byte);
    proof {
        picc::lemma_sak_from_byte(sak_byte);
    }
    if cascade_level == 0 {
        let bytes: [u8; 4] = [uid_bytes[0], uid_bytes[1], uid_bytes[2], uid_bytes[3]];
        assert(bytes@ =~= uid_bytes@.subrange(0, 4));
        Ok(Uid::Single(GenericUid::from_parts(bytes, sak)))
    } else if cascade_level == 1 {
        let bytes: [u8; 7] = [
            uid_bytes[0],
            uid_bytes[1],
            uid_bytes[2],
            uid_bytes[3],
            uid_bytes[4],
            uid_bytes[5],
            uid_bytes[6],
        ];
        assert(bytes@ =~= uid_bytes@.subrange(0, 7));
        Ok(Uid::Double(GenericUid::from_parts(bytes, sak)))
    } else {
        assert(uid_bytes@ =~= uid_bytes@.subrange(0, 10));
        Ok(Uid::Triple(GenericUid::from_parts(uid_bytes, sak)))
    }
}

/// Select a PICC after REQA: the next action, or the UID.
pub(crate) fn select<S, G>(atqa: &AtqA, replies: &Vec<Reply>) -> (p: Progress<Uid, S, G>)
    ensures
        reports_viewed(p, select_run::<S, G>(atqa@, replies_view(replies@), 0)),
{
    let mut pos: usize = 0;
    let r = select_at::<S, G>(replies, &mut pos, atqa);
    progress_viewed(r, Ghost(select_run::<S, G>(atqa@, replies_view(replies@), 0)), Ghost(0), Ghost(pos as int))
}

} // verus!
