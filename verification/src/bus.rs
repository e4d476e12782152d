//! The exchange between the driver's logic and the bus it runs on.
//!
//! A procedure of the driver never performs I/O itself. Given the replies to
//! the actions it asked for so far, it either asks for one more [`Action`] or
//! finishes. Whoever owns the SPI device and the IRQ line performs the action,
//! appends its [`Reply`], and asks again, until the procedure finishes.
//!
//! The model of a procedure is a [`Run`]: given all replies received, the
//! actions it asks for in order, and how it ends.

use vstd::prelude::*;

use crate::error::Error;
use crate::register::Register;

verus! {

/// One operation of an SPI transaction.
#[derive(Clone, Debug, PartialEq)]
pub enum SpiOp {
    /// Write these bytes.
    Write(Vec<u8>),
    /// Send these bytes and replace them with the bytes received.
    TransferInPlace(Vec<u8>),
}

/// What an [`SpiOp`] is, as a value.
pub ghost enum SpiOpView {
    /// Write these bytes.
    Write(Seq<u8>),
    /// Send these bytes and replace them with the bytes received.
    TransferInPlace(Seq<u8>),
}

impl View for SpiOp {
    type V = SpiOpView;

    open spec fn view(&self) -> SpiOpView {
        match self {
            SpiOp::Write(b) => SpiOpView::Write(b@),
            SpiOp::TransferInPlace(b) => SpiOpView::TransferInPlace(b@),
        }
    }
}

/// What a procedure asks of the bus.
#[derive(Clone, Debug, PartialEq)]
pub enum Action {
    /// Read one register.
    Read(Register),
    /// Write one register.
    Write(Register, u8),
    /// Read this many bytes from one register.
    ReadMany(Register, usize),
    /// Write these bytes to one register.
    WriteMany(Register, Vec<u8>),
    /// Wait until the IRQ line is low.
    WaitForLow,
    /// Wait until the IRQ line is high, for at most this many milliseconds.
    WaitForHigh(u64),
}

/// What an [`Action`] is, as a value.
pub ghost enum ActionView {
    /// Read one register.
    Read(Register),
    /// Write one register.
    Write(Register, u8),
    /// Read this many bytes from one register.
    ReadMany(Register, nat),
    /// Write these bytes to one register.
    WriteMany(Register, Seq<u8>),
    /// Wait until the IRQ line is low.
    WaitForLow,
    /// Wait until the IRQ line is high, for at most this many milliseconds.
    WaitForHigh(u64),
}

impl View for Action {
    type V = ActionView;

    open spec fn view(&self) -> ActionView {
        match self {
            Action::Read(r) => ActionView::Read(*r),
            Action::Write(r, v) => ActionView::Write(*r, *v),
            Action::ReadMany(r, n) => ActionView::ReadMany(*r, *n as nat),
            Action::WriteMany(r, b) => ActionView::WriteMany(*r, b@),
            Action::WaitForLow => ActionView::WaitForLow,
            Action::WaitForHigh(t) => ActionView::WaitForHigh(*t),
        }
    }
}

/// The answer to an [`Action`].
#[derive(Clone, Debug, PartialEq)]
pub enum Reply {
    /// The write went through, or the IRQ line reached the awaited level.
    Done,
    /// The bytes of the transaction's `TransferInPlace` buffer after a read.
    Data(Vec<u8>),
    /// The IRQ line did not reach the awaited level in time.
    Expired,
}

/// What a [`Reply`] is, as a value.
pub ghost enum ReplyView {
    /// The write went through, or the IRQ line reached the awaited level.
    Done,
    /// The bytes received.
    Data(Seq<u8>),
    /// The IRQ line did not reach the awaited level in time.
    Expired,
}

impl View for Reply {
    type V = ReplyView;

    open spec fn view(&self) -> ReplyView {
        match self {
            Reply::Done => ReplyView::Done,
            Reply::Data(b) => ReplyView::Data(b@),
            Reply::Expired => ReplyView::Expired,
        }
    }
}

/// The replies as values.
pub open spec fn replies_view(replies: Seq<Reply>) -> Seq<ReplyView> {
    Seq::new(replies.len(), |i: int| replies[i]@)
}

/// The bytes sent to read `n` bytes of `reg` in one transfer: the register's
/// read address for each byte but the last, and 0 for the last.
pub open spec fn read_many_pattern(reg: Register, n: nat) -> Seq<u8> {
    Seq::new(n, |i: int| if i == n - 1 { 0u8 } else { reg.read_byte() })
}

/// The SPI transaction that performs a register access; a wait has none.
pub open spec fn transaction_of(a: ActionView) -> Option<Seq<SpiOpView>> {
    match a {
        ActionView::Read(reg) => Some(
            seq![SpiOpView::TransferInPlace(seq![reg.read_byte(), 0u8])],
        ),
        ActionView::Write(reg, v) => Some(seq![SpiOpView::Write(seq![reg.write_byte(), v])]),
        ActionView::ReadMany(reg, n) => Some(
            seq![
                SpiOpView::Write(seq![reg.read_byte()]),
                SpiOpView::TransferInPlace(read_many_pattern(reg, n)),
            ],
        ),
        ActionView::WriteMany(reg, bytes) => Some(
            seq![SpiOpView::Write(seq![reg.write_byte()]), SpiOpView::Write(bytes)],
        ),
        ActionView::WaitForLow => None,
        ActionView::WaitForHigh(_) => None,
    }
}

/// Whether `r` is a well-formed reply to `a`.
pub open spec fn answers(a: ActionView, r: ReplyView) -> bool {
    match a {
        ActionView::Read(_) => r matches ReplyView::Data(d) && d.len() == 2,
        ActionView::ReadMany(_, n) => r matches ReplyView::Data(d) && d.len() == n,
        ActionView::Write(_, _) => r is Done,
        ActionView::WriteMany(_, _) => r is Done,
        ActionView::WaitForLow => r is Done,
        ActionView::WaitForHigh(_) => r is Done || r is Expired,
    }
}

/// The operations as values.
pub open spec fn ops_view(ops: Seq<SpiOp>) -> Seq<SpiOpView> {
    Seq::new(ops.len(), |i: int| ops[i]@)
}

impl Action {
    /// The SPI transaction that performs this action, or `None` for a wait.
    pub fn transaction(&self) -> (t: Option<Vec<SpiOp>>)
        ensures
            match t {
                Some(ops) => transaction_of(self@) == Some(ops_view(ops@)),
                None => transaction_of(self@) is None,
            },
    {
        match self {
            Action::Read(reg) => {
                let frame = vec![reg.read_address(), 0u8];
                assert(frame@ =~= seq![reg.read_byte(), 0u8]);
                let mut ops = Vec::new();
                ops.push(SpiOp::TransferInPlace(frame));
                assert(ops_view(ops@) =~= seq![SpiOpView::TransferInPlace(seq![reg.read_byte(), 0u8])]);
                Some(ops)
            },
            Action::Write(reg, v) => {
                let mut ops = Vec::new();
                let frame = vec![reg.write_address(), *v];
                assert(frame@ =~= seq![reg.write_byte(), *v]);
                ops.push(SpiOp::Write(frame));
                assert(ops_view(ops@) =~= seq![SpiOpView::Write(seq![reg.write_byte(), *v])]);
                Some(ops)
            },
            Action::ReadMany(reg, n) => {
                let addr = reg.read_address();
                let mut buf: Vec<u8> = Vec::new();
                let mut i: usize = 0;
                while i < *n
                    invariant
                        0 <= i <= *n,
                        addr == reg.read_byte(),
                        buf@.len() == i,
                        forall|j: int| 0 <= j < i ==> #[trigger] buf@[j] == if j == *n - 1 {
                            0u8
                        } else {
                            addr
                        },
                    decreases *n - i,
                {
                    if i + 1 == *n {
                        buf.push(0u8);
                    } else {
                        buf.push(addr);
                    }
                    i = i + 1;
                }
                assert(buf@ =~= read_many_pattern(*reg, *n as nat));
                let mut ops = Vec::new();
                let head = vec![addr];
                assert(head@ =~= seq![reg.read_byte()]);
                ops.push(SpiOp::Write(head));
                ops.push(SpiOp::TransferInPlace(buf));
                assert(ops_view(ops@) =~= seq![
                    SpiOpView::Write(seq![reg.read_byte()]),
                    SpiOpView::TransferInPlace(read_many_pattern(*reg, *n as nat)),
                ]);
                Some(ops)
            },
            Action::WriteMany(reg, bytes) => {
                let mut ops = Vec::new();
                let head = vec![reg.write_address()];
                assert(head@ =~= seq![reg.write_byte()]);
                ops.push(SpiOp::Write(head));
                let body = bytes.clone();
                assert(body@ =~= bytes@);
                ops.push(SpiOp::Write(body));
                assert(ops_view(ops@) =~= seq![SpiOpView::Write(seq![reg.write_byte()]), SpiOpView::Write(bytes@)]);
                Some(ops)
            },
            Action::WaitForLow => None,
            Action::WaitForHigh(_) => None,
        }
    }

    /// Whether `reply` is a well-formed answer to this action.
    pub fn accepts(&self, reply: &Reply) -> (b: bool)
        ensures
            b == answers(self@, reply@),
    {
        match (self, reply) {
            (Action::Read(_), Reply::Data(d)) => d.len() == 2,
            (Action::ReadMany(_, n), Reply::Data(d)) => d.len() == *n,
            (Action::Write(_, _), Reply::Done) => true,
            (Action::WriteMany(_, _), Reply::Done) => true,
            (Action::WaitForLow, Reply::Done) => true,
            (Action::WaitForHigh(_), Reply::Done) => true,
            (Action::WaitForHigh(_), Reply::Expired) => true,
            _ => false,
        }
    }
}

/// How a procedure ends, given the replies it received.
pub ghost enum Outcome<T, S, G> {
    /// It waits for the reply to its last action.
    Waiting,
    /// A reply did not answer the action it was given for.
    Mismatch,
    /// It finished with this result.
    Finished(Result<T, Error<S, G>>),
}

/// A procedure's run: the actions it asks for, in order, and how it ends.
pub ghost struct Run<T, S, G> {
    /// The actions, in the order asked for.
    pub actions: Seq<ActionView>,
    /// How the run ends.
    pub outcome: Outcome<T, S, G>,
}

/// The run that finishes at once with `v`.
pub open spec fn finish<T, S, G>(v: T) -> Run<T, S, G> {
    Run { actions: Seq::empty(), outcome: Outcome::Finished(Ok(v)) }
}

/// The run that fails at once with `e`.
pub open spec fn fail<T, S, G>(e: Error<S, G>) -> Run<T, S, G> {
    Run { actions: Seq::empty(), outcome: Outcome::Finished(Err(e)) }
}

/// The run that ends at once with `r`.
pub open spec fn conclude<T, S, G>(r: Result<T, Error<S, G>>) -> Run<T, S, G> {
    Run { actions: Seq::empty(), outcome: Outcome::Finished(r) }
}

/// `first`, started at reply `pos`; when it succeeds, followed by `next` of its value
/// started at the first reply that `first` did not use.
pub open spec fn then<A, B, S, G>(
    first: Run<A, S, G>,
    pos: int,
    next: spec_fn(A, int) -> Run<B, S, G>,
) -> Run<B, S, G> {
    match first.outcome {
        Outcome::Finished(Ok(a)) => {
            let second = next(a, pos + first.actions.len());
            Run { actions: first.actions + second.actions, outcome: second.outcome }
        },
        Outcome::Finished(Err(e)) => Run { actions: first.actions, outcome: Outcome::Finished(Err(e)) },
        Outcome::Waiting => Run { actions: first.actions, outcome: Outcome::Waiting },
        Outcome::Mismatch => Run { actions: first.actions, outcome: Outcome::Mismatch },
    }
}

/// The run of the single action `a` at reply `pos`, whose reply `decode` reads.
pub open spec fn single<T, S, G>(
    a: ActionView,
    rs: Seq<ReplyView>,
    pos: int,
    decode: spec_fn(ReplyView) -> Option<Result<T, Error<S, G>>>,
) -> Run<T, S, G> {
    Run {
        actions: seq![a],
        outcome: if pos >= rs.len() {
            Outcome::Waiting
        } else {
            match decode(rs[pos]) {
                Some(r) => Outcome::Finished(r),
                None => Outcome::Mismatch,
            }
        },
    }
}

/// Reading register `reg`: its value is the second byte of the transfer.
pub open spec fn read_reg<S, G>(reg: Register, rs: Seq<ReplyView>, pos: int) -> Run<u8, S, G> {
    single(
        ActionView::Read(reg),
        rs,
        pos,
        |r: ReplyView|
            match r {
                ReplyView::Data(d) => if d.len() == 2 {
                    Some(Ok(d[1]))
                } else {
                    None
                },
                _ => None,
            },
    )
}

/// Writing `v` to register `reg`.
pub open spec fn write_reg<S, G>(reg: Register, v: u8, rs: Seq<ReplyView>, pos: int) -> Run<
    (),
    S,
    G,
> {
    single(
        ActionView::Write(reg, v),
        rs,
        pos,
        |r: ReplyView|
            match r {
                ReplyView::Done => Some(Ok(())),
                _ => None,
            },
    )
}

/// Reading `n` bytes from register `reg`.
pub open spec fn read_many<S, G>(reg: Register, n: nat, rs: Seq<ReplyView>, pos: int) -> Run<
    Seq<u8>,
    S,
    G,
> {
    single(
        ActionView::ReadMany(reg, n),
        rs,
        pos,
        |r: ReplyView|
            match r {
                ReplyView::Data(d) => if d.len() == n {
                    Some(Ok(d))
                } else {
                    None
                },
                _ => None,
            },
    )
}

/// Writing `bytes` to register `reg`.
pub open spec fn write_many<S, G>(
    reg: Register,
    bytes: Seq<u8>,
    rs: Seq<ReplyView>,
    pos: int,
) -> Run<(), S, G> {
    single(
        ActionView::WriteMany(reg, bytes),
        rs,
        pos,
        |r: ReplyView|
            match r {
                ReplyView::Done => Some(Ok(())),
                _ => None,
            },
    )
}

/// Waiting for the IRQ line to go low.
pub open spec fn wait_low<S, G>(rs: Seq<ReplyView>, pos: int) -> Run<(), S, G> {
    single(
        ActionView::WaitForLow,
        rs,
        pos,
        |r: ReplyView|
            match r {
                ReplyView::Done => Some(Ok(())),
                _ => None,
            },
    )
}

/// Waiting at most `timeout_ms` for the IRQ line to go high; fails with `Timeout` when it does not.
pub open spec fn wait_high<S, G>(timeout_ms: u64, rs: Seq<ReplyView>, pos: int) -> Run<(), S, G> {
    single(
        ActionView::WaitForHigh(timeout_ms),
        rs,
        pos,
        |r: ReplyView|
            match r {
                ReplyView::Done => Some(Ok(())),
                ReplyView::Expired => Some(Err(Error::Timeout)),
                _ => None,
            },
    )
}

/// Whether `more`, a run on the replies of `run` and one more, continues `run`:
/// a run that waited keeps the actions it asked for, in order, at the head of
/// `more`; a run that ended stays as it is.
pub open spec fn continues<T, S, G>(run: Run<T, S, G>, more: Run<T, S, G>) -> bool {
    if run.outcome is Waiting {
        &&& run.actions.len() <= more.actions.len()
        &&& more.actions.subrange(0, run.actions.len() as int) == run.actions
    } else {
        more == run
    }
}

/// A run continues itself.
pub broadcast proof fn lemma_continues_itself<T, S, G>(run: Run<T, S, G>)
    ensures
        #[trigger] continues(run, run),
{
    assert(run.actions.subrange(0, run.actions.len() as int) =~= run.actions);
}

/// A single action continues: the reply to it, once there, is the new one.
pub broadcast proof fn lemma_single_continues<T, S, G>(
    a: ActionView,
    rs: Seq<ReplyView>,
    r: ReplyView,
    pos: int,
    decode: spec_fn(ReplyView) -> Option<Result<T, Error<S, G>>>,
)
    requires
        pos >= 0,
    ensures
        #[trigger] continues(single(a, rs, pos, decode), single(a, rs.push(r), pos, decode)),
{
    if pos < rs.len() {
        assert(rs.push(r)[pos] == rs[pos]);
    }
    let run = single(a, rs, pos, decode);
    let more = single(a, rs.push(r), pos, decode);
    if !(run.outcome is Waiting) {
        assert(more.actions =~= run.actions);
    } else {
        assert(more.actions.subrange(0, run.actions.len() as int) =~= run.actions);
    }
}

/// A sequence of runs continues when its parts do.
pub broadcast proof fn lemma_then_continues<A, B, S, G>(
    first: Run<A, S, G>,
    first_more: Run<A, S, G>,
    pos: int,
    next: spec_fn(A, int) -> Run<B, S, G>,
    next_more: spec_fn(A, int) -> Run<B, S, G>,
)
    requires
        pos >= 0,
        continues(first, first_more),
        forall|a: A, p: int| p >= 0 ==> #[trigger] continues(next(a, p), next_more(a, p)),
    ensures
        #[trigger] continues(then(first, pos, next), then(first_more, pos, next_more)),
{
    let run = then(first, pos, next);
    let more = then(first_more, pos, next_more);
    match first.outcome {
        Outcome::Finished(Ok(a)) => {
            let p = pos + first.actions.len();
            assert(continues(next(a, p), next_more(a, p)));
            if next(a, p).outcome is Waiting {
                assert(more.actions.subrange(0, run.actions.len() as int) =~= run.actions);
            } else {
                assert(more.actions =~= run.actions);
            }
        },
        Outcome::Waiting => {
            assert(more.actions.subrange(0, run.actions.len() as int) =~= run.actions);
        },
        _ => {
            assert(more.actions =~= run.actions);
        },
    }
}

/// Why a procedure stopped before finishing.
pub enum Stop<S, G> {
    /// It needs the reply to this action.
    Pending(Action),
    /// It failed.
    Fail(Error<S, G>),
    /// A reply did not answer the action it was given for.
    Mismatch,
}

/// Whether the result `r` of an executable procedure, started at reply `start`
/// and left at reply `end`, is the run `run`.
pub open spec fn follows<T, S, G>(
    r: Result<T, Stop<S, G>>,
    run: Run<T, S, G>,
    start: int,
    end: int,
) -> bool {
    match r {
        Ok(v) => run.outcome == Outcome::<T, S, G>::Finished(Ok(v)) && end == start
            + run.actions.len(),
        Err(Stop::Fail(e)) => run.outcome == Outcome::<T, S, G>::Finished(Err(e)) && end == start
            + run.actions.len(),
        Err(Stop::Pending(a)) => run.outcome is Waiting && run.actions.len() > 0 && a@
            == run.actions.last(),
        Err(Stop::Mismatch) => run.outcome is Mismatch,
    }
}

/// `r` with its value taken by its view.
pub open spec fn viewed<T: View, S, G>(r: Result<T, Stop<S, G>>) -> Result<T::V, Stop<S, G>> {
    match r {
        Ok(v) => Ok(v@),
        Err(e) => Err(e),
    }
}

/// Where a procedure is, for whoever drives it.
#[derive(Debug, PartialEq)]
pub enum Progress<T, S, G> {
    /// Perform this action, append its reply, and ask again.
    Pending(Action),
    /// The procedure finished with this result.
    Done(Result<T, Error<S, G>>),
    /// A reply did not answer the action it was given for.
    Mismatch,
}

/// Whether `p` tells where the run `run` is.
pub open spec fn reports<T, S, G>(p: Progress<T, S, G>, run: Run<T, S, G>) -> bool {
    match p {
        Progress::Pending(a) => run.outcome is Waiting && run.actions.len() > 0 && a@
            == run.actions.last(),
        Progress::Done(r) => run.outcome == Outcome::<T, S, G>::Finished(r),
        Progress::Mismatch => run.outcome is Mismatch,
    }
}

/// Whether `p` tells where the run `run` is, its value taken by its view.
pub open spec fn reports_viewed<T: View, S, G>(p: Progress<T, S, G>, run: Run<T::V, S, G>) -> bool {
    match p {
        Progress::Pending(a) => run.outcome is Waiting && run.actions.len() > 0 && a@
            == run.actions.last(),
        Progress::Done(Ok(v)) => run.outcome == Outcome::<T::V, S, G>::Finished(Ok(v@)),
        Progress::Done(Err(e)) => run.outcome == Outcome::<T::V, S, G>::Finished(Err(e)),
        Progress::Mismatch => run.outcome is Mismatch,
    }
}

/// The progress of a procedure that stopped or finished with `r`, its value taken by its view.
pub fn progress_viewed<T: View, S, G>(r: Result<T, Stop<S, G>>, Ghost(run): Ghost<Run<T::V, S, G>>, Ghost(start): Ghost<int>, Ghost(end): Ghost<int>) -> (p: Progress<T, S, G>)
    requires
        follows(viewed(r), run, start, end),
    ensures
        reports_viewed(p, run),
{
    match r {
        Ok(v) => Progress::Done(Ok(v)),
        Err(Stop::Fail(e)) => Progress::Done(Err(e)),
        Err(Stop::Pending(a)) => Progress::Pending(a),
        Err(Stop::Mismatch) => Progress::Mismatch,
    }
}

/// The progress of a procedure that stopped or finished with `r`.
pub fn progress<T, S, G>(r: Result<T, Stop<S, G>>, Ghost(run): Ghost<Run<T, S, G>>, Ghost(start): Ghost<int>, Ghost(end): Ghost<int>) -> (p: Progress<T, S, G>)
    requires
        follows(r, run, start, end),
    ensures
        reports(p, run),
{
    match r {
        Ok(v) => Progress::Done(Ok(v)),
        Err(Stop::Fail(e)) => Progress::Done(Err(e)),
        Err(Stop::Pending(a)) => Progress::Pending(a),
        Err(Stop::Mismatch) => Progress::Mismatch,
    }
}

/// Reads register `reg`.
pub fn read_register<S, G>(replies: &Vec<Reply>, pos: &mut usize, reg: Register) -> (r: Result<
    u8,
    Stop<S, G>,
>)
    requires
        *old(pos) <= replies@.len(),
    ensures
        *final(pos) <= replies@.len(),
        follows(r, read_reg(reg, replies_view(replies@), *old(pos) as int), *old(pos) as int, *final(pos) as int),
{
    if *pos >= replies.len() {
        return Err(Stop::Pending(Action::Read(reg)));
    }
    match &replies[*pos] {
        Reply::Data(d) => {
            if d.len() == 2 {
                *pos = *pos + 1;
                Ok(d[1])
            } else {
                Err(Stop::Mismatch)
            }
        },
        _ => Err(Stop::Mismatch),
    }
}

/// Writes `v` to register `reg`.
pub fn write_register<S, G>(replies: &Vec<Reply>, pos: &mut usize, reg: Register, v: u8) -> (r: Result<
    (),
    Stop<S, G>,
>)
    requires
        *old(pos) <= replies@.len(),
    ensures
        *final(pos) <= replies@.len(),
        follows(r, write_reg(reg, v, replies_view(replies@), *old(pos) as int), *old(pos) as int, *final(pos) as int),
{
    if *pos >= replies.len() {
        return Err(Stop::Pending(Action::Write(reg, v)));
    }
    match &replies[*pos] {
        Reply::Done => {
            *pos = *pos + 1;
            Ok(())
        },
        _ => Err(Stop::Mismatch),
    }
}

/// Reads `n` bytes from register `reg`.
pub fn read_register_many<S, G>(replies: &Vec<Reply>, pos: &mut usize, reg: Register, n: usize) -> (r: Result<
    Vec<u8>,
    Stop<S, G>,
>)
    requires
        *old(pos) <= replies@.len(),
    ensures
        *final(pos) <= replies@.len(),
        follows(
            match r {
                Ok(v) => Ok(v@),
                Err(e) => Err(e),
            },
            read_many(reg, n as nat, replies_view(replies@), *old(pos) as int),
            *old(pos) as int,
            *final(pos) as int,
        ),
{
    if *pos >= replies.len() {
        return Err(Stop::Pending(Action::ReadMany(reg, n)));
    }
    match &replies[*pos] {
        Reply::Data(d) => {
            if d.len() == n {
                *pos = *pos + 1;
                let v = d.clone();
                assert(v@ =~= d@);
                Ok(v)
            } else {
                Err(Stop::Mismatch)
            }
        },
        _ => Err(Stop::Mismatch),
    }
}

/// Writes `bytes` to register `reg`.
pub fn write_register_many<S, G>(replies: &Vec<Reply>, pos: &mut usize, reg: Register, bytes: &[u8]) -> (r: Result<
    (),
    Stop<S, G>,
>)
    requires
        *old(pos) <= replies@.len(),
    ensures
        *final(pos) <= replies@.len(),
        follows(r, write_many(reg, bytes@, replies_view(replies@), *old(pos) as int), *old(pos) as int, *final(pos) as int),
{
    if *pos >= replies.len() {
        let mut v: Vec<u8> = Vec::new();
        v.extend_from_slice(bytes);
        assert(v@ =~= bytes@);
        return Err(Stop::Pending(Action::WriteMany(reg, v)));
    }
    match &replies[*pos] {
        Reply::Done => {
            *pos = *pos + 1;
            Ok(())
        },
        _ => Err(Stop::Mismatch),
    }
}

/// Waits for the IRQ line to go low.
pub fn wait_for_low<S, G>(replies: &Vec<Reply>, pos: &mut usize) -> (r: Result<(), Stop<S, G>>)
    requires
        *old(pos) <= replies@.len(),
    ensures
        *final(pos) <= replies@.len(),
        follows(r, wait_low(replies_view(replies@), *old(pos) as int), *old(pos) as int, *final(pos) as int),
{
    if *pos >= replies.len() {
        return Err(Stop::Pending(Action::WaitForLow));
    }
    match &replies[*pos] {
        Reply::Done => {
            *pos = *pos + 1;
            Ok(())
        },
        _ => Err(Stop::Mismatch),
    }
}

/// Waits at most `timeout_ms` milliseconds for the IRQ line to go high.
pub fn wait_for_high<S, G>(replies: &Vec<Reply>, pos: &mut usize, timeout_ms: u64) -> (r: Result<(), Stop<S, G>>)
    requires
        *old(pos) <= replies@.len(),
    ensures
        *final(pos) <= replies@.len(),
        follows(r, wait_high(timeout_ms, replies_view(replies@), *old(pos) as int), *old(pos) as int, *final(pos) as int),
{
    if *pos >= replies.len() {
        return Err(Stop::Pending(Action::WaitForHigh(timeout_ms)));
    }
    match &replies[*pos] {
        Reply::Done => {
            *pos = *pos + 1;
            Ok(())
        },
        Reply::Expired => {
            *pos = *pos + 1;
            Err(Stop::Fail(Error::Timeout))
        },
        _ => Err(Stop::Mismatch),
    }
}

} // verus!
