//! The write half: a poll-style writer built on a writer whose `write`,
//! `flush` and `shutdown` are asynchronous calls.
//!
//! Each of `poll_write`, `poll_flush` and `poll_shutdown` is split in two
//! verified steps around the poll of the future, which the caller performs:
//! a `*_start` step hands out either a fresh job (the inner writer, taken out
//! of the `PollWrite` while the job runs, with the spare future box) or the
//! future that is still pending; an `*_end` step takes what the poll gave back,
//! puts the inner writer back when the job has finished, and stores the next
//! state.
use vstd::prelude::*;

verus! {

/// Where the write operation of a `PollWrite` stands between calls.
#[derive(Debug)]
enum WriteState<F> {
    /// No write in progress: the scratch buffer of the last write and its future box.
    Idle(Vec<u8>, Option<F>),
    /// A write was started and its future has not finished yet.
    Pending(F),
}

/// Where a flush or a shutdown of a `PollWrite` stands between calls.
#[derive(Debug)]
enum EmptyResultState<F> {
    /// Nothing in progress: the future box of the last such call, if any.
    Idle(Option<F>),
    /// A call was started and its future has not finished yet.
    Pending(F),
}

/// A writer that turns asynchronous `write`, `flush` and `shutdown` calls into
/// poll-style ones.
///
/// `W` is the inner writer, `WF` the (boxed) future of one write and `EF` that
/// of one flush or shutdown. A running future owns the inner writer, so the
/// inner writer is here only while nothing runs.
#[derive(Debug)]
pub struct PollWrite<W, WF, EF> {
    inner: Option<W>,
    write_state: Option<WriteState<WF>>,
    flush_state: Option<EmptyResultState<EF>>,
    shutdown_state: Option<EmptyResultState<EF>>,
}

/// The abstract state of the write operation.
pub enum WritePhase<F> {
    Idle { scratch: Seq<u8>, spare: Option<F> },
    Pending { fut: F },
    /// Between `write_start` and `write_end`.
    InFlight,
}

/// The abstract state of the flush or of the shutdown operation.
pub enum EmptyPhase<F> {
    Idle { spare: Option<F> },
    Pending { fut: F },
    /// Between the start step and the end step.
    InFlight,
}

/// The abstract state of a `PollWrite`.
pub struct PollWriteView<W, WF, EF> {
    pub inner: Option<W>,
    pub write: WritePhase<WF>,
    pub flush: EmptyPhase<EF>,
    pub shutdown: EmptyPhase<EF>,
}

/// What `write_start` hands the caller.
pub enum WriteStart<W, F> {
    /// Start a new write of `buf` with `inner`; box the future in `spare` when there is one.
    Fresh { inner: W, buf: Vec<u8>, spare: Option<F> },
    /// Poll the write that is already under way.
    Resume { fut: F },
}

/// The abstract value of a `WriteStart`.
pub enum WriteJob<W, F> {
    Fresh { inner: W, scratch: Seq<u8>, spare: Option<F> },
    Resume { fut: F },
}

/// What `flush_start` and `shutdown_start` hand the caller.
pub enum EmptyStart<W, F> {
    /// Start a new call with `inner`; box the future in `spare` when there is one.
    Fresh { inner: W, spare: Option<F> },
    /// Poll the call that is already under way.
    Resume { fut: F },
}

impl<W, F> WriteStart<W, F> {
    pub open spec fn view(&self) -> WriteJob<W, F> {
        match self {
            WriteStart::Fresh { inner, buf, spare } => WriteJob::Fresh {
                inner: *inner,
                scratch: buf@,
                spare: *spare,
            },
            WriteStart::Resume { fut } => WriteJob::Resume { fut: *fut },
        }
    }
}

impl<F> WritePhase<F> {
    pub open spec fn is_busy(self) -> bool {
        !(self is Idle)
    }
}

impl<F> EmptyPhase<F> {
    pub open spec fn is_busy(self) -> bool {
        !(self is Idle)
    }
}

impl<W, WF, EF> PollWriteView<W, WF, EF> {
    /// The number of operations that are pending or in flight.
    pub open spec fn busy_count(self) -> int {
        (if self.write.is_busy() { 1int } else { 0int }) + (if self.flush.is_busy() {
            1int
        } else {
            0int
        }) + (if self.shutdown.is_busy() { 1int } else { 0int })
    }

    /// Well-formedness: at most one operation runs at a time, and the inner
    /// writer is at hand exactly when none runs.
    pub open spec fn wf(self) -> bool {
        &&& self.busy_count() <= 1
        &&& (self.inner is Some <==> self.busy_count() == 0)
    }
}

/// The job that `write_start` hands out from state `v` for `data`: a new write
/// of exactly `data` with the inner writer and the spare box, or the pending future.
pub open spec fn write_job<W, WF, EF>(v: PollWriteView<W, WF, EF>, data: Seq<u8>) -> WriteJob<W, WF> {
    match v.write {
        WritePhase::Idle { spare, .. } => WriteJob::Fresh { inner: v.inner->0, scratch: data, spare },
        WritePhase::Pending { fut } => WriteJob::Resume { fut },
        WritePhase::InFlight => WriteJob::Resume { fut: arbitrary() },
    }
}

/// The state right after `write_start` from `v`: the write is in flight, and a
/// fresh write has taken the inner writer.
pub open spec fn write_taken<W, WF, EF>(v: PollWriteView<W, WF, EF>) -> PollWriteView<W, WF, EF> {
    PollWriteView {
        inner: if v.write is Idle { None } else { v.inner },
        write: WritePhase::InFlight,
        ..v
    }
}

/// The abstract value of what a poll of the write future gave back.
pub open spec fn write_outcome_view<W, E>(outcome: Option<(W, Vec<u8>, Result<usize, E>)>) -> Option<
    (W, Seq<u8>, Result<usize, E>),
> {
    match outcome {
        Some((inner, scratch, res)) => Some((inner, scratch@, res)),
        None => None,
    }
}

/// The state after a poll of the write future `fut` that gave back `outcome`.
pub open spec fn write_after<W, WF, EF, E>(
    v: PollWriteView<W, WF, EF>,
    fut: WF,
    outcome: Option<(W, Seq<u8>, Result<usize, E>)>,
) -> PollWriteView<W, WF, EF> {
    match outcome {
        None => PollWriteView { write: WritePhase::Pending { fut }, ..v },
        Some((inner, scratch, _)) => PollWriteView {
            inner: Some(inner),
            write: WritePhase::Idle { scratch, spare: Some(fut) },
            ..v
        },
    }
}

/// What `poll_write` answers after a poll that gave back `outcome`
/// (`None` stands for `Poll::Pending`): the result of the write as it came.
pub open spec fn write_answer<W, E>(outcome: Option<(W, Seq<u8>, Result<usize, E>)>) -> Option<
    Result<usize, E>,
> {
    match outcome {
        None => None,
        Some((_, _, res)) => Some(res),
    }
}

/// The job that a flush or shutdown start hands out from `phase` when the
/// inner writer slot holds `inner`.
pub open spec fn empty_job<W, F>(inner: Option<W>, phase: EmptyPhase<F>) -> EmptyStart<W, F> {
    match phase {
        EmptyPhase::Idle { spare } => EmptyStart::Fresh { inner: inner->0, spare },
        EmptyPhase::Pending { fut } => EmptyStart::Resume { fut },
        EmptyPhase::InFlight => EmptyStart::Resume { fut: arbitrary() },
    }
}

/// The inner writer slot right after a flush or shutdown start from `phase`.
pub open spec fn empty_taken_inner<W, F>(inner: Option<W>, phase: EmptyPhase<F>) -> Option<W> {
    if phase is Idle {
        None
    } else {
        inner
    }
}

/// The phase after a poll of a flush or shutdown future `fut` that gave back `outcome`.
pub open spec fn empty_phase_after<W, F, E>(fut: F, outcome: Option<(W, Result<(), E>)>) -> EmptyPhase<F> {
    match outcome {
        None => EmptyPhase::Pending { fut },
        Some(_) => EmptyPhase::Idle { spare: Some(fut) },
    }
}

/// The inner writer slot after a poll of a flush or shutdown future that gave back `outcome`.
pub open spec fn empty_inner_after<W, E>(inner: Option<W>, outcome: Option<(W, Result<(), E>)>) -> Option<W> {
    match outcome {
        None => inner,
        Some((w, _)) => Some(w),
    }
}

/// What `poll_flush` or `poll_shutdown` answers after a poll that gave back `outcome`.
pub open spec fn empty_answer<W, E>(outcome: Option<(W, Result<(), E>)>) -> Option<Result<(), E>> {
    match outcome {
        None => None,
        Some((_, res)) => Some(res),
    }
}

impl<W, WF, EF> View for PollWrite<W, WF, EF> {
    type V = PollWriteView<W, WF, EF>;

    closed spec fn view(&self) -> PollWriteView<W, WF, EF> {
        PollWriteView {
            inner: self.inner,
            write: match self.write_state {
                Some(WriteState::Idle(scratch, spare)) => WritePhase::Idle { scratch: scratch@, spare },
                Some(WriteState::Pending(fut)) => WritePhase::Pending { fut },
                None => WritePhase::InFlight,
            },
            flush: empty_phase_of(self.flush_state),
            shutdown: empty_phase_of(self.shutdown_state),
        }
    }
}

/// The abstract phase of a flush or shutdown slot.
spec fn empty_phase_of<F>(s: Option<EmptyResultState<F>>) -> EmptyPhase<F> {
    match s {
        Some(EmptyResultState::Idle(spare)) => EmptyPhase::Idle { spare },
        Some(EmptyResultState::Pending(fut)) => EmptyPhase::Pending { fut },
        None => EmptyPhase::InFlight,
    }
}

/// Whether a flush or shutdown slot can start: not in flight, and a fresh call
/// finds the inner writer at hand.
fn empty_can_start<W, F>(state: &Option<EmptyResultState<F>>, inner: &Option<W>) -> (b: bool)
    ensures
        b == (!(empty_phase_of(*state) is InFlight) && (empty_phase_of(*state) is Idle ==> *inner is Some)),
{
    match state {
        Some(EmptyResultState::Idle(_)) => inner.is_some(),
        Some(EmptyResultState::Pending(_)) => true,
        None => false,
    }
}

/// Hands out the job of a flush or shutdown slot, taking the inner writer for a fresh one.
fn take_empty_job<W, F>(inner: &mut Option<W>, state: Option<EmptyResultState<F>>) -> (start:
    EmptyStart<W, F>)
    requires
        !(empty_phase_of(state) is InFlight),
        empty_phase_of(state) is Idle ==> *old(inner) is Some,
    ensures
        start == empty_job(*old(inner), empty_phase_of(state)),
        *final(inner) == empty_taken_inner(*old(inner), empty_phase_of(state)),
{
    match state {
        Some(EmptyResultState::Idle(fut_box)) => {
            let w = match inner.take() {
                Some(w) => w,
                None => unreached(),
            };
            EmptyStart::Fresh { inner: w, spare: fut_box }
        },
        Some(EmptyResultState::Pending(fut)) => EmptyStart::Resume { fut },
        None => unreached(),
    }
}

impl<W, WF, EF> PollWrite<W, WF, EF> {
    /// A new writer around `write`: the inner writer at hand, every operation idle,
    /// an empty scratch buffer and no future boxes yet.
    pub fn new(write: W) -> (r: Self)
        ensures
            r@ == (PollWriteView::<W, WF, EF> {
                inner: Some(write),
                write: WritePhase::Idle { scratch: Seq::empty(), spare: None },
                flush: EmptyPhase::Idle { spare: None },
                shutdown: EmptyPhase::Idle { spare: None },
            }),
            r@.wf(),
    {
        PollWrite {
            inner: Some(write),
            write_state: Some(WriteState::Idle(Vec::new(), None)),
            flush_state: Some(EmptyResultState::Idle(None)),
            shutdown_state: Some(EmptyResultState::Idle(None)),
        }
    }

    /// Gives the inner writer back; requires that no operation holds it.
    pub fn into_inner(self) -> (r: W)
        requires
            self@.inner is Some,
        ensures
            r == self@.inner->0,
    {
        match self.inner {
            Some(w) => w,
            None => unreached(),
        }
    }

    /// Borrows the inner writer; requires that no operation holds it.
    pub fn inner(&self) -> (r: &W)
        requires
            self@.inner is Some,
        ensures
            *r == self@.inner->0,
    {
        match &self.inner {
            Some(w) => w,
            None => unreached(),
        }
    }

    /// Borrows the inner writer mutably; the rest of the state stays as it was.
    /// Requires that no operation holds it.
    pub fn inner_mut(&mut self) -> (r: &mut W)
        requires
            old(self)@.inner is Some,
        ensures
            *r == old(self)@.inner->0,
            final(self)@ == (PollWriteView { inner: Some(*final(r)), ..old(self)@ }),
    {
        match &mut self.inner {
            Some(w) => w,
            None => unreached(),
        }
    }

    /// Whether the inner writer is at hand (no operation holds it).
    pub fn has_inner(&self) -> (b: bool)
        ensures
            b == self@.inner is Some,
    {
        self.inner.is_some()
    }

    /// Whether `write_start` may be called: the write is not in flight, and a
    /// fresh write finds the inner writer at hand.
    pub fn can_start_write(&self) -> (b: bool)
        ensures
            b == (!(self@.write is InFlight) && (self@.write is Idle ==> self@.inner is Some)),
    {
        match &self.write_state {
            Some(WriteState::Idle(_, _)) => self.inner.is_some(),
            Some(WriteState::Pending(_)) => true,
            None => false,
        }
    }

    /// Whether `flush_start` may be called: the flush is not in flight, and a
    /// fresh flush finds the inner writer at hand.
    pub fn can_start_flush(&self) -> (b: bool)
        ensures
            b == (!(self@.flush is InFlight) && (self@.flush is Idle ==> self@.inner is Some)),
    {
        empty_can_start(&self.flush_state, &self.inner)
    }

    /// Whether `shutdown_start` may be called: the shutdown is not in flight, and
    /// a fresh shutdown finds the inner writer at hand.
    pub fn can_start_shutdown(&self) -> (b: bool)
        ensures
            b == (!(self@.shutdown is InFlight) && (self@.shutdown is Idle ==> self@.inner is Some)),
    {
        empty_can_start(&self.shutdown_state, &self.inner)
    }

    /// First step of `poll_write`: hands out the write to poll.
    ///
    /// From idle it refills the scratch buffer with `data` and hands it out with
    /// the inner writer, taken from the slot, and the spare future box. From
    /// pending it hands out the pending future and ignores `data`.
    /// Requires that a fresh write finds the inner writer at hand, not held by a
    /// flush or a shutdown (see `can_start_write`).
    pub fn write_start(&mut self, data: &[u8]) -> (start: WriteStart<W, WF>)
        requires
            !(old(self)@.write is InFlight),
            old(self)@.write is Idle ==> old(self)@.inner is Some,
        ensures
            start@ == write_job(old(self)@, data@),
            final(self)@ == write_taken(old(self)@),
            old(self)@.write is Idle ==> (start matches WriteStart::Fresh { inner, buf, spare } && buf@
                == data@ && inner == old(self)@.inner->0 && spare == old(self)@.write->Idle_spare),
            old(self)@.write is Pending ==> (start matches WriteStart::Resume { fut } && fut == old(
                self,
            )@.write->Pending_fut),
            old(self)@.wf() ==> final(self)@.wf(),
    {
        let state = self.write_state.take();
        match state {
            Some(WriteState::Idle(mut internal_buf, fut_box)) => {
                internal_buf.clear();
                internal_buf.extend_from_slice(data);
                assert(internal_buf@ =~= data@);
                let w = match self.inner.take() {
                    Some(w) => w,
                    None => unreached(),
                };
                WriteStart::Fresh { inner: w, buf: internal_buf, spare: fut_box }
            },
            Some(WriteState::Pending(fut)) => WriteStart::Resume { fut },
            None => unreached(),
        }
    }

    /// Second step of `poll_write`: takes the write future that was polled and
    /// what the poll gave back (`None` while it is pending).
    ///
    /// Pending: keeps the future and answers `None`. Finished: puts the inner
    /// writer back, keeps the scratch buffer and the future box for the next
    /// write, and answers the result of the write as it came.
    pub fn write_end<E>(&mut self, fut: WF, outcome: Option<(W, Vec<u8>, Result<usize, E>)>) -> (answer:
        Option<Result<usize, E>>)
        requires
            old(self)@.write is InFlight,
        ensures
            final(self)@ == write_after(old(self)@, fut, write_outcome_view(outcome)),
            answer == write_answer(write_outcome_view(outcome)),
            outcome matches Some((w, scratch, res)) ==> answer == Some(res) && final(self)@.inner == Some(
                w,
            ) && final(self)@.write == (WritePhase::Idle { scratch: scratch@, spare: Some(fut) }),
            outcome is None ==> answer is None && final(self)@.inner == old(self)@.inner
                && final(self)@.write == (WritePhase::Pending { fut }),
            old(self)@.wf() ==> final(self)@.wf(),
    {
        match outcome {
            None => {
                self.write_state = Some(WriteState::Pending(fut));
                None
            },
            Some((inner, internal_buf, res)) => {
                self.write_state = Some(WriteState::Idle(internal_buf, Some(fut)));
                self.inner = Some(inner);
                Some(res)
            },
        }
    }

    /// The poll step shared by flush and shutdown: given what the poll of `fut`
    /// gave back, puts the inner writer back when the call has finished and
    /// returns the answer with the next state of the operation.
    fn poll_empty_result_state<E>(&mut self, fut: EF, outcome: Option<(W, Result<(), E>)>) -> (r: (
        Option<Result<(), E>>,
        EmptyResultState<EF>,
    ))
        ensures
            r.0 == empty_answer(outcome),
            empty_phase_of(Some(r.1)) == empty_phase_after(fut, outcome),
            final(self)@ == (PollWriteView {
                inner: empty_inner_after(old(self)@.inner, outcome),
                ..old(self)@
            }),
    {
        match outcome {
            None => (None, EmptyResultState::Pending(fut)),
            Some((inner, res)) => {
                self.inner = Some(inner);
                (Some(res), EmptyResultState::Idle(Some(fut)))
            },
        }
    }

    /// First step of `poll_flush`: hands out the flush to poll, a fresh one with
    /// the inner writer (taken from the slot) and the spare box, or the pending one.
    /// Requires that a fresh flush finds the inner writer at hand, not held by
    /// another operation (see `can_start_flush`).
    pub fn flush_start(&mut self) -> (start: EmptyStart<W, EF>)
        requires
            !(old(self)@.flush is InFlight),
            old(self)@.flush is Idle ==> old(self)@.inner is Some,
        ensures
            start == empty_job(old(self)@.inner, old(self)@.flush),
            final(self)@ == (PollWriteView {
                inner: empty_taken_inner(old(self)@.inner, old(self)@.flush),
                flush: EmptyPhase::InFlight,
                ..old(self)@
            }),
            old(self)@.wf() ==> final(self)@.wf(),
    {
        let state = self.flush_state.take();
        take_empty_job(&mut self.inner, state)
    }

    /// Second step of `poll_flush`: pending keeps the future and answers `None`;
    /// finished puts the inner writer back, keeps the box, and answers the result.
    pub fn flush_end<E>(&mut self, fut: EF, outcome: Option<(W, Result<(), E>)>) -> (answer: Option<
        Result<(), E>,
    >)
        requires
            old(self)@.flush is InFlight,
        ensures
            answer == empty_answer(outcome),
            final(self)@ == (PollWriteView {
                inner: empty_inner_after(old(self)@.inner, outcome),
                flush: empty_phase_after(fut, outcome),
                ..old(self)@
            }),
            old(self)@.wf() ==> final(self)@.wf(),
    {
        let (res, state) = self.poll_empty_result_state(fut, outcome);
        self.flush_state = Some(state);
        res
    }

    /// First step of `poll_shutdown`: hands out the shutdown to poll, a fresh one
    /// with the inner writer (taken from the slot) and the spare box, or the
    /// pending one. Requires that a fresh shutdown finds the inner writer at
    /// hand, not held by another operation (see `can_start_shutdown`).
    pub fn shutdown_start(&mut self) -> (start: EmptyStart<W, EF>)
        requires
            !(old(self)@.shutdown is InFlight),
            old(self)@.shutdown is Idle ==> old(self)@.inner is Some,
        ensures
            start == empty_job(old(self)@.inner, old(self)@.shutdown),
            final(self)@ == (PollWriteView {
                inner: empty_taken_inner(old(self)@.inner, old(self)@.shutdown),
                shutdown: EmptyPhase::InFlight,
                ..old(self)@
            }),
            old(self)@.wf() ==> final(self)@.wf(),
    {
        let state = self.shutdown_state.take();
        take_empty_job(&mut self.inner, state)
    }

    /// Second step of `poll_shutdown`: pending keeps the future and answers `None`;
    /// finished puts the inner writer back, keeps the box, and answers the result.
    pub fn shutdown_end<E>(&mut self, fut: EF, outcome: Option<(W, Result<(), E>)>) -> (answer:
        Option<Result<(), E>>)
        requires
            old(self)@.shutdown is InFlight,
        ensures
            answer == empty_answer(outcome),
            final(self)@ == (PollWriteView {
                inner: empty_inner_after(old(self)@.inner, outcome),
                shutdown: empty_phase_after(fut, outcome),
                ..old(self)@
            }),
            old(self)@.wf() ==> final(self)@.wf(),
    {
        let (res, state) = self.poll_empty_result_state(fut, outcome);
        self.shutdown_state = Some(state);
        res
    }
}

/// A fresh write hands the inner writer exactly the caller's bytes, with the
/// writer from the slot and the spare future box.
pub proof fn fresh_write_hands_over_the_bytes<W, WF, EF>(v: PollWriteView<W, WF, EF>, data: Seq<u8>)
    requires
        v.write is Idle,
    ensures
        write_job(v, data) == (WriteJob::Fresh { inner: v.inner->0, scratch: data, spare: v.write->Idle_spare }),
{
}

/// A write that was left pending is polled again on the next call, whatever
/// bytes that call brings: they are not handed to the inner writer, so nothing
/// is written twice.
pub proof fn pending_write_is_resumed<W, WF, EF, E>(v: PollWriteView<W, WF, EF>, fut: WF, data: Seq<u8>)
    ensures
        write_job(write_after::<W, WF, EF, E>(v, fut, None), data) == (WriteJob::<W, WF>::Resume { fut }),
{
}

/// A full write cycle from a quiet, well-formed writer (start a fresh write,
/// then a poll that finishes it) leaves the writer quiet and well-formed again,
/// with the inner writer that the write gave back, the future box kept for the
/// next write, and the write's own result as the answer.
pub proof fn write_cycle_returns_the_writer<W, WF, EF, E>(
    v: PollWriteView<W, WF, EF>,
    fut: WF,
    w: W,
    scratch: Seq<u8>,
    res: Result<usize, E>,
)
    requires
        v.wf(),
        v.busy_count() == 0,
    ensures
        write_after(write_taken(v), fut, Some((w, scratch, res))).wf(),
        write_after(write_taken(v), fut, Some((w, scratch, res))).busy_count() == 0,
        write_after(write_taken(v), fut, Some((w, scratch, res))).inner == Some(w),
        write_after(write_taken(v), fut, Some((w, scratch, res))).write == (WritePhase::Idle {
            scratch,
            spare: Some(fut),
        }),
        write_answer(Some((w, scratch, res))) == Some(res),
{
}

/// A flush or shutdown that was left pending is polled again on the next call;
/// one that has finished gives the inner writer back, and the next call starts
/// afresh with that writer and the reused future box.
pub proof fn empty_call_resumes_then_restarts<W, F, E>(inner: Option<W>, fut: F, w: W, res: Result<(), E>)
    ensures
        empty_job(inner, empty_phase_after::<W, F, E>(fut, None)) == (EmptyStart::<W, F>::Resume { fut }),
        empty_inner_after::<W, E>(inner, None) == inner,
        empty_inner_after(inner, Some((w, res))) == Some(w),
        empty_job(empty_inner_after(inner, Some((w, res))), empty_phase_after(fut, Some((w, res))))
            == (EmptyStart::<W, F>::Fresh { inner: w, spare: Some(fut) }),
        empty_answer(Some((w, res))) == Some(res),
{
}

/// In a well-formed writer the inner writer is at hand exactly when no
/// operation runs: while a write, flush or shutdown is pending, `inner`,
/// `inner_mut`, `into_inner` and a fresh start of another operation are out
/// of reach: their `requires` ask for the inner writer.
pub proof fn writer_is_held_by_the_running_operation<W, WF, EF>(v: PollWriteView<W, WF, EF>)
    requires
        v.wf(),
    ensures
        v.inner is Some <==> (v.write is Idle && v.flush is Idle && v.shutdown is Idle),
        v.write.is_busy() ==> v.flush is Idle && v.shutdown is Idle,
        v.flush.is_busy() ==> v.write is Idle && v.shutdown is Idle,
        v.shutdown.is_busy() ==> v.write is Idle && v.flush is Idle,
{
}

/// A new writer gives back the writer it was made with, and is well-formed.
pub proof fn new_writer_gives_back_its_writer<W, WF, EF>(v: PollWriteView<W, WF, EF>, write: W)
    requires
        v == (PollWriteView::<W, WF, EF> {
            inner: Some(write),
            write: WritePhase::Idle { scratch: Seq::empty(), spare: None },
            flush: EmptyPhase::Idle { spare: None },
            shutdown: EmptyPhase::Idle { spare: None },
        }),
    ensures
        v.inner->0 == write,
        v.wf(),
{
}

/// A fresh write start's abstract value is the very buffer handed to the writer,
/// byte for byte, with its inner writer and spare box.
pub proof fn write_start_view_is_the_buffer<W, F>(inner: W, buf: Vec<u8>, spare: Option<F>)
    ensures
        (WriteStart::Fresh { inner, buf, spare })@ matches WriteJob::Fresh { inner: i, scratch: z, spare: sp }
            && i == inner && sp == spare && z.len() == buf@.len() && forall|k: int|
            0 <= k < buf@.len() ==> #[trigger] z[k] == buf@[k],
{
}

/// From any state whose write is idle, the write started for `data` hands the
/// writer exactly `data`: as many bytes, the same bytes, in order.
pub proof fn idle_write_hands_over_exactly_the_data<W, WF, EF>(v: PollWriteView<W, WF, EF>, data: Seq<u8>)
    requires
        v.write is Idle,
    ensures
        write_job(v, data) matches WriteJob::Fresh { scratch: z, .. } && z.len() == data.len()
            && forall|k: int| 0 <= k < data.len() ==> #[trigger] z[k] == data[k],
{
}

/// A finished write answers the writer's own result, whatever it is (a count of
/// bytes or an error), puts the writer it gave back in the slot, and keeps its
/// scratch buffer and the polled future for the next write.
pub proof fn finished_write_answers_its_own_result<W, WF, EF, E>(
    v: PollWriteView<W, WF, EF>,
    fut: WF,
    w: W,
    scratch: Vec<u8>,
    res: Result<usize, E>,
)
    ensures
        write_answer(write_outcome_view(Some((w, scratch, res)))) == Some(res),
        res matches Ok(n) ==> write_answer(write_outcome_view(Some((w, scratch, res)))) matches Some(
            Ok(m),
        ) && m == n,
        write_after(v, fut, write_outcome_view(Some((w, scratch, res)))).inner == Some(w),
        write_after(v, fut, write_outcome_view(Some((w, scratch, res)))).write matches WritePhase::Idle {
            scratch: z,
            spare: sp,
        } && sp == Some(fut) && z.len() == scratch@.len() && forall|k: int|
            0 <= k < scratch@.len() ==> #[trigger] z[k] == scratch@[k],
        write_answer(write_outcome_view::<W, E>(None)) is None,
{
}

/// Starting a write takes the inner writer out of the slot for a fresh write and
/// leaves it where it is when resuming; the write is in flight either way and the
/// flush and shutdown are untouched. A poll left pending keeps the polled future
/// and answers `None`.
pub proof fn write_start_takes_the_writer_only_when_fresh<W, WF, EF, E>(
    v: PollWriteView<W, WF, EF>,
    fut: WF,
)
    ensures
        v.write is Idle ==> write_taken(v).inner is None,
        !(v.write is Idle) ==> write_taken(v).inner == v.inner,
        write_taken(v).write is InFlight,
        write_taken(v).flush == v.flush && write_taken(v).shutdown == v.shutdown,
        write_after(v, fut, write_outcome_view::<W, E>(None)).write == (WritePhase::Pending { fut }),
        write_after(v, fut, write_outcome_view::<W, E>(None)).inner == v.inner,
        write_after(v, fut, write_outcome_view::<W, E>(None)).flush == v.flush,
        write_after(v, fut, write_outcome_view::<W, E>(None)).shutdown == v.shutdown,
{
}

/// A flush or shutdown started from idle hands out the inner writer of the slot
/// with the spare box and empties the slot; from pending it hands back the
/// pending future and leaves the slot alone. A poll left pending keeps the polled
/// future and answers `None`; a finished one answers the call's own result.
pub proof fn empty_call_steps<W, F, E>(w: W, inner: Option<W>, spare: Option<F>, fut: F, res: Result<(), E>)
    ensures
        empty_job(Some(w), EmptyPhase::Idle { spare }) == (EmptyStart::Fresh { inner: w, spare }),
        empty_taken_inner(inner, EmptyPhase::<F>::Idle { spare }) is None,
        empty_taken_inner(inner, EmptyPhase::Pending { fut }) == inner,
        empty_phase_after::<W, F, E>(fut, None) == (EmptyPhase::Pending { fut }),
        empty_phase_after(fut, Some((w, res))) == (EmptyPhase::Idle { spare: Some(fut) }),
        empty_answer::<W, E>(None) is None,
        res matches Err(e) ==> empty_answer(Some((w, res))) == Some(Err::<(), E>(e)),
        res matches Ok(u) ==> empty_answer(Some((w, res))) == Some(Ok::<(), E>(u)),
{
}

/// One poll of the write operation as a whole: `write_start` with the caller's
/// bytes `data`, then `write_end` with the future `fut` and what its poll gave back.
pub struct WritePoll<W, WF, E> {
    pub data: Seq<u8>,
    pub fut: WF,
    pub outcome: Option<(W, Seq<u8>, Result<usize, E>)>,
}

/// The state after the write polls `polls`, made one after the other from `start`.
pub open spec fn write_run_view<W, WF, EF, E>(
    start: PollWriteView<W, WF, EF>,
    polls: Seq<WritePoll<W, WF, E>>,
) -> PollWriteView<W, WF, EF>
    decreases polls.len(),
{
    if polls.len() == 0 {
        start
    } else {
        write_after(
            write_taken(write_run_view(start, polls.drop_last())),
            polls.last().fut,
            polls.last().outcome,
        )
    }
}

/// The job that `write_start` hands out at the last of `polls`.
pub open spec fn write_run_job<W, WF, EF, E>(
    start: PollWriteView<W, WF, EF>,
    polls: Seq<WritePoll<W, WF, E>>,
) -> WriteJob<W, WF>
    recommends
        polls.len() > 0,
{
    write_job(write_run_view(start, polls.drop_last()), polls.last().data)
}

/// The bytes handed to the inner writer for the write that the last of `polls`
/// drove: those of the fresh start of that write, however many polls ago.
pub open spec fn write_run_handed<W, WF, EF, E>(
    start: PollWriteView<W, WF, EF>,
    polls: Seq<WritePoll<W, WF, E>>,
) -> Seq<u8>
    decreases polls.len(),
{
    if polls.len() == 0 {
        Seq::empty()
    } else {
        match write_run_job(start, polls) {
            WriteJob::Fresh { scratch, .. } => scratch,
            WriteJob::Resume { .. } => write_run_handed(start, polls.drop_last()),
        }
    }
}

/// The number of bytes that the finished writes among `polls` reported written.
pub open spec fn write_run_accepted<W, WF, E>(polls: Seq<WritePoll<W, WF, E>>) -> nat
    decreases polls.len(),
{
    if polls.len() == 0 {
        0
    } else {
        write_run_accepted(polls.drop_last()) + match polls.last().outcome {
            Some((_, _, Ok(n))) => n as nat,
            _ => 0,
        }
    }
}

/// The bytes that reach the inner writer over `polls`: a write that finishes
/// with `Ok(n)` has written the first `n` bytes it was handed.
pub open spec fn write_run_received<W, WF, EF, E>(
    start: PollWriteView<W, WF, EF>,
    polls: Seq<WritePoll<W, WF, E>>,
) -> Seq<u8>
    decreases polls.len(),
{
    if polls.len() == 0 {
        Seq::empty()
    } else {
        write_run_received(start, polls.drop_last()) + match polls.last().outcome {
            Some((_, _, Ok(n))) => write_run_handed(start, polls).take(n as int),
            _ => Seq::empty(),
        }
    }
}

/// The caller writes the stream `s` as `write_all` does: each poll brings the
/// bytes of `s` that no finished write has accepted yet, and each finished write
/// reports no more bytes than it was handed.
pub open spec fn polls_write_all<W, WF, EF, E>(
    start: PollWriteView<W, WF, EF>,
    polls: Seq<WritePoll<W, WF, E>>,
    s: Seq<u8>,
) -> bool
    decreases polls.len(),
{
    if polls.len() == 0 {
        true
    } else {
        &&& polls_write_all(start, polls.drop_last(), s)
        &&& polls.last().data == s.skip(write_run_accepted(polls.drop_last()) as int)
        &&& match polls.last().outcome {
            Some((_, _, Ok(n))) => n <= write_run_handed(start, polls).len(),
            _ => true,
        }
    }
}

/// Over any run of write polls from a writer whose write is idle, made as
/// `write_all` makes them for the stream `s`, the bytes that reach the inner
/// writer are, in order, the start of `s` that the finished writes accepted:
/// none is lost or duplicated, since a pending write is resumed with the bytes
/// it was handed rather than restarted with new ones. Once the writes have
/// accepted all of `s`, the writer has received exactly `s`.
pub proof fn writes_deliver_the_stream_in_order<W, WF, EF, E>(
    start: PollWriteView<W, WF, EF>,
    polls: Seq<WritePoll<W, WF, E>>,
    s: Seq<u8>,
)
    requires
        start.write is Idle,
        polls_write_all(start, polls, s),
    ensures
        write_run_accepted(polls) <= s.len(),
        write_run_received(start, polls) == s.take(write_run_accepted(polls) as int),
        write_run_accepted(polls) == s.len() ==> write_run_received(start, polls) == s,
{
    write_run_invariant(start, polls, s);
    if write_run_accepted(polls) == s.len() {
        assert(s.take(s.len() as int) =~= s);
    }
}

/// The invariant behind `writes_deliver_the_stream_in_order`: the write is idle
/// or pending, and a pending write holds the bytes of `s` not yet accepted.
proof fn write_run_invariant<W, WF, EF, E>(
    start: PollWriteView<W, WF, EF>,
    polls: Seq<WritePoll<W, WF, E>>,
    s: Seq<u8>,
)
    requires
        start.write is Idle,
        polls_write_all(start, polls, s),
    ensures
        write_run_accepted(polls) <= s.len(),
        write_run_received(start, polls) == s.take(write_run_accepted(polls) as int),
        write_run_view(start, polls).write is Idle || write_run_view(start, polls).write is Pending,
        write_run_view(start, polls).write is Pending ==> write_run_handed(start, polls) == s.skip(
            write_run_accepted(polls) as int,
        ),
    decreases polls.len(),
{
    if polls.len() > 0 {
        let pre = polls.drop_last();
        write_run_invariant(start, pre, s);
        let acc = write_run_accepted(pre);
        let v = write_run_view(start, pre);
        assert(write_run_handed(start, polls) == s.skip(acc as int));
        match polls.last().outcome {
            Some((_, _, Ok(n))) => {
                assert(s.skip(acc as int).take(n as int) =~= s.subrange(acc as int, acc + n));
                assert(s.take(acc as int) + s.subrange(acc as int, acc + n) =~= s.take(acc + n));
            },
            Some((_, _, Err(_))) => {
                assert(write_run_received(start, polls) =~= write_run_received(start, pre));
            },
            None => {
                assert(write_run_received(start, polls) =~= write_run_received(start, pre));
            },
        }
    }
}

/// Over any run of write polls from a writer whose write is idle, a fresh write
/// is started exactly at the first poll and after each poll that finished a
/// write; a poll after one that left the write pending resumes that very future.
pub proof fn each_write_is_started_once<W, WF, EF, E>(
    start: PollWriteView<W, WF, EF>,
    polls: Seq<WritePoll<W, WF, E>>,
)
    requires
        start.write is Idle,
    ensures
        polls.len() > 0 ==> (write_run_job(start, polls) is Fresh <==> (polls.len() == 1
            || polls.drop_last().last().outcome is Some)),
        polls.len() > 1 && polls.drop_last().last().outcome is None ==> write_run_job(start, polls)
            == (WriteJob::<W, WF>::Resume { fut: polls.drop_last().last().fut }),
        !(write_run_view(start, polls).write is InFlight),
    decreases polls.len(),
{
    if polls.len() > 0 {
        each_write_is_started_once(start, polls.drop_last());
    }
}

} // verus!
