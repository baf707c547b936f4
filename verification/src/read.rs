//! The read half: a poll-style reader built on a reader whose `read` is an
//! asynchronous call.
//!
//! One call of `poll_read` is split in two verified steps around the poll of
//! the future, which the caller performs:
//! `read_start` hands out either a fresh read job (the inner reader, a zeroed
//! scratch buffer as long as the room left in the caller's buffer, and the
//! spare future box to reuse) or the future that is still pending;
//! `read_end` takes what the poll gave back, stores the next state and, on a
//! finished read, copies the bytes that were read into the caller's buffer.
use vstd::prelude::*;

use crate::read_buf::{read_buf_capacity, read_buf_filled, read_buf_put_slice, read_buf_remaining, read_buf_room};

verus! {

/// Where a `PollRead` stands between calls.
enum ReadState<R, F> {
    /// No read in progress: the inner reader, the scratch buffer of the last read,
    /// and the future box of the last read, kept to be reused.
    Idle(R, Vec<u8>, Option<F>),
    /// A read was started and its future has not finished yet.
    Pending(F),
}

/// A reader that turns an asynchronous `read` into a poll-style one.
///
/// `R` is the inner reader and `F` the (boxed) future of one read, which owns
/// the inner reader and the scratch buffer while it runs.
pub struct PollRead<R, F> {
    state: Option<ReadState<R, F>>,
}

/// The abstract state of a `PollRead`.
pub enum ReadPhase<R, F> {
    Idle { inner: R, scratch: Seq<u8>, spare: Option<F> },
    Pending { fut: F },
    /// Between `read_start` and `read_end`: the caller holds what the state held.
    InFlight,
}

/// What `read_start` hands the caller.
pub enum ReadStart<R, F> {
    /// Start a new read of at most `buf.len()` bytes into `buf` with `inner`;
    /// box the future in `spare` when there is one.
    Fresh { inner: R, buf: Vec<u8>, spare: Option<F> },
    /// Poll the read that is already under way.
    Resume { fut: F },
}

/// The abstract value of a `ReadStart`.
pub enum ReadJob<R, F> {
    Fresh { inner: R, scratch: Seq<u8>, spare: Option<F> },
    Resume { fut: F },
}

impl<R, F> ReadStart<R, F> {
    pub open spec fn view(&self) -> ReadJob<R, F> {
        match self {
            ReadStart::Fresh { inner, buf, spare } => ReadJob::Fresh {
                inner: *inner,
                scratch: buf@,
                spare: *spare,
            },
            ReadStart::Resume { fut } => ReadJob::Resume { fut: *fut },
        }
    }
}

/// `n` zero bytes.
pub open spec fn zeros(n: nat) -> Seq<u8> {
    Seq::new(n, |_i: int| 0u8)
}

/// The job that starting a poll from `phase` hands out when the caller's buffer
/// has `room` bytes left: a new read into `room` zero bytes with the inner
/// reader and the spare box, or the pending future.
pub open spec fn read_job<R, F>(phase: ReadPhase<R, F>, room: nat) -> ReadJob<R, F>
    recommends
        !(phase is InFlight),
{
    match phase {
        ReadPhase::Idle { inner, spare, .. } => ReadJob::Fresh { inner, scratch: zeros(room), spare },
        ReadPhase::Pending { fut } => ReadJob::Resume { fut },
        ReadPhase::InFlight => ReadJob::Resume { fut: arbitrary() },
    }
}

/// The abstract value of what a poll of the read future gave back:
/// `None` while it is pending, else the inner reader, the scratch buffer and
/// the result of the read.
pub open spec fn read_outcome_view<R, E>(outcome: Option<(R, Vec<u8>, Result<usize, E>)>) -> Option<
    (R, Seq<u8>, Result<usize, E>),
> {
    match outcome {
        Some((inner, scratch, res)) => Some((inner, scratch@, res)),
        None => None,
    }
}

/// The state after a poll of `fut` that gave back `outcome`.
pub open spec fn read_phase_after<R, F, E>(
    fut: F,
    outcome: Option<(R, Seq<u8>, Result<usize, E>)>,
) -> ReadPhase<R, F> {
    match outcome {
        None => ReadPhase::Pending { fut },
        Some((inner, scratch, _)) => ReadPhase::Idle { inner, scratch, spare: Some(fut) },
    }
}

/// The bytes that a poll which gave back `outcome` puts into the caller's buffer.
pub open spec fn read_delivered<R, E>(outcome: Option<(R, Seq<u8>, Result<usize, E>)>) -> Seq<u8> {
    match outcome {
        Some((_, scratch, Ok(len))) => scratch.take(len as int),
        _ => Seq::empty(),
    }
}

/// What `poll_read` answers after a poll that gave back `outcome`
/// (`None` stands for `Poll::Pending`).
pub open spec fn read_answer<R, E>(outcome: Option<(R, Seq<u8>, Result<usize, E>)>) -> Option<
    Result<(), E>,
> {
    match outcome {
        None => None,
        Some((_, _, Ok(_))) => Some(Ok(())),
        Some((_, _, Err(e))) => Some(Err(e)),
    }
}

/// The reads that `read_end` can take: a finished read reports no more bytes
/// than its scratch buffer holds, nor than the room left in the caller's buffer.
pub open spec fn read_outcome_fits<R, E>(outcome: Option<(R, Seq<u8>, Result<usize, E>)>, room: int) -> bool {
    match outcome {
        Some((_, scratch, Ok(len))) => len <= scratch.len() && len <= room,
        _ => true,
    }
}

impl<R, F> View for PollRead<R, F> {
    type V = ReadPhase<R, F>;

    closed spec fn view(&self) -> ReadPhase<R, F> {
        match self.state {
            Some(ReadState::Idle(inner, scratch, spare)) => ReadPhase::Idle {
                inner,
                scratch: scratch@,
                spare,
            },
            Some(ReadState::Pending(fut)) => ReadPhase::Pending { fut },
            None => ReadPhase::InFlight,
        }
    }
}

impl<R, F> PollRead<R, F> {
    /// The inner reader of an idle `PollRead`.
    pub open spec fn inner_spec(&self) -> R
        recommends
            self@ is Idle,
    {
        self@->Idle_inner
    }

    /// A new reader around `read`, idle, with an empty scratch buffer and no future box yet.
    pub fn new(read: R) -> (r: Self)
        ensures
            r@ == (ReadPhase::<R, F>::Idle { inner: read, scratch: Seq::empty(), spare: None }),
    {
        PollRead { state: Some(ReadState::Idle(read, Vec::new(), None)) }
    }

    /// Gives the inner reader back; requires that no read is in progress.
    pub fn into_inner(self) -> (r: R)
        requires
            self@ is Idle,
        ensures
            r == self.inner_spec(),
    {
        match self.state {
            Some(ReadState::Idle(inner, _, _)) => inner,
            _ => unreached(),
        }
    }

    /// Borrows the inner reader; requires that no read is in progress.
    pub fn inner(&self) -> (r: &R)
        requires
            self@ is Idle,
        ensures
            *r == self.inner_spec(),
    {
        match &self.state {
            Some(ReadState::Idle(inner, _, _)) => inner,
            _ => unreached(),
        }
    }

    /// Borrows the inner reader mutably; the rest of the state stays as it was.
    /// Requires that no read is in progress.
    pub fn inner_mut(&mut self) -> (r: &mut R)
        requires
            old(self)@ is Idle,
        ensures
            *r == old(self).inner_spec(),
            final(self)@ == (ReadPhase::Idle {
                inner: *final(r),
                scratch: old(self)@->Idle_scratch,
                spare: old(self)@->Idle_spare,
            }),
    {
        match &mut self.state {
            Some(ReadState::Idle(inner, _, _)) => inner,
            _ => unreached(),
        }
    }

    /// Whether no read is in progress (the inner reader is at hand).
    pub fn is_idle(&self) -> (b: bool)
        ensures
            b == self@ is Idle,
    {
        match &self.state {
            Some(ReadState::Idle(_, _, _)) => true,
            _ => false,
        }
    }

    /// Whether the state is out in the caller's hands, between `read_start` and `read_end`.
    pub fn is_in_flight(&self) -> (b: bool)
        ensures
            b == self@ is InFlight,
    {
        self.state.is_none()
    }

    /// Whether `read_end` can take `outcome` with `buf`: a finished read reports
    /// no more bytes than its scratch buffer holds, nor than the room left in `buf`.
    pub fn outcome_fits<E>(outcome: &Option<(R, Vec<u8>, Result<usize, E>)>, buf: &tokio::io::ReadBuf) -> (b:
        bool)
        ensures
            b == read_outcome_fits(read_outcome_view(*outcome), read_buf_room(*buf)),
            *outcome matches Some((_, scratch, Ok(len))) ==> (b <==> (len <= scratch@.len() && len
                <= read_buf_room(*buf))),
            !(*outcome matches Some((_, _, Ok(_)))) ==> b,
    {
        match outcome {
            Some((_, scratch, Ok(len))) => *len <= scratch.len() && *len <= read_buf_remaining(buf),
            _ => true,
        }
    }

    /// First step of `poll_read`: hands out the read to poll.
    ///
    /// From idle it clears the scratch buffer, fills it with zeros up to the room
    /// left in `buf`, and hands it out with the inner reader and the spare future
    /// box. From pending it hands out the pending future, whatever `buf` holds.
    /// Either way the state is in flight until `read_end`.
    pub fn read_start(&mut self, buf: &tokio::io::ReadBuf) -> (start: ReadStart<R, F>)
        requires
            !(old(self)@ is InFlight),
        ensures
            start@ == read_job(old(self)@, read_buf_room(*buf) as nat),
            final(self)@ is InFlight,
            old(self)@ is Idle ==> (start matches ReadStart::Fresh { inner, buf: scratch, spare }
                && inner == old(self)@->Idle_inner && spare == old(self)@->Idle_spare
                && scratch@.len() == read_buf_room(*buf)
                && forall|i: int| 0 <= i < scratch@.len() ==> #[trigger] scratch@[i] == 0u8),
            old(self)@ is Pending ==> (start matches ReadStart::Resume { fut } && fut
                == old(self)@->Pending_fut),
    {
        let state = self.state.take();
        match state {
            Some(ReadState::Idle(inner, mut internal_buf, fut_box)) => {
                internal_buf.clear();
                let max_len = read_buf_remaining(buf);
                let additional_cap = max_len.saturating_sub(vec_capacity(&internal_buf));
                if additional_cap > 0 {
                    internal_buf.reserve(additional_cap);
                }
                fill_zeros(&mut internal_buf, max_len);
                ReadStart::Fresh { inner, buf: internal_buf, spare: fut_box }
            },
            Some(ReadState::Pending(fut)) => ReadStart::Resume { fut },
            None => unreached(),
        }
    }

    /// Second step of `poll_read`: takes the future that was polled and what the
    /// poll gave back (`None` while it is pending).
    ///
    /// Pending: keeps the future and answers `None`. Finished: keeps the inner
    /// reader, the scratch buffer and the future box for the next read; on
    /// `Ok(len)` copies the first `len` scratch bytes into `buf` and answers
    /// `Some(Ok(()))`, on an error answers it and leaves `buf` alone.
    /// Requires that a finished read reports no more bytes than its scratch
    /// buffer holds, nor than the room left in `buf` (see `outcome_fits`).
    pub fn read_end<E>(
        &mut self,
        fut: F,
        outcome: Option<(R, Vec<u8>, Result<usize, E>)>,
        buf: &mut tokio::io::ReadBuf,
    ) -> (answer: Option<Result<(), E>>)
        requires
            old(self)@ is InFlight,
            read_outcome_fits(read_outcome_view(outcome), read_buf_room(*old(buf))),
        ensures
            final(self)@ == read_phase_after(fut, read_outcome_view(outcome)),
            answer == read_answer(read_outcome_view(outcome)),
            read_buf_filled(*final(buf)) == read_buf_filled(*old(buf)) + read_delivered(
                read_outcome_view(outcome),
            ),
            read_buf_capacity(*final(buf)) == read_buf_capacity(*old(buf)),
            !(answer matches Some(Ok(_))) ==> *final(buf) == *old(buf),
            outcome matches Some((_, scratch, Ok(len))) ==> answer == Some(Ok::<(), E>(()))
                && read_buf_filled(*final(buf)) == read_buf_filled(*old(buf)) + scratch@.subrange(
                0,
                len as int,
            ),
            outcome matches Some((_, _, Err(e))) ==> answer == Some(Err::<(), E>(e)) && *final(buf)
                == *old(buf),
            outcome is None ==> answer is None && *final(buf) == *old(buf) && final(self)@ == (
            ReadPhase::<R, F>::Pending { fut }),
            outcome matches Some((inner, scratch, _)) ==> final(self)@ == (ReadPhase::Idle {
                inner,
                scratch: scratch@,
                spare: Some(fut),
            }),
    {
        match outcome {
            None => {
                self.state = Some(ReadState::Pending(fut));
                None
            },
            Some((inner, internal_buf, res)) => {
                match res {
                    Err(e) => {
                        self.state = Some(ReadState::Idle(inner, internal_buf, Some(fut)));
                        Some(Err(e))
                    },
                    Ok(len) => {
                        read_buf_put_slice(buf, &internal_buf.as_slice()[0..len]);
                        self.state = Some(ReadState::Idle(inner, internal_buf, Some(fut)));
                        Some(Ok(()))
                    },
                }
            },
        }
    }
}

/// Calls `Vec::capacity`. The allocator decides the value; std documents that it
/// is at least the length, which is all that is stated.
#[verifier::external_body]
fn vec_capacity(v: &Vec<u8>) -> (n: usize)
    ensures
        n >= v@.len(),
{
    v.capacity()
}

/// Resizes an empty `v` to `len` zero bytes.
fn fill_zeros(v: &mut Vec<u8>, len: usize)
    requires
        old(v)@.len() == 0,
    ensures
        final(v)@ == zeros(len as nat),
{
    v.resize(len, 0u8);
    assert(v@ =~= zeros(len as nat));
}

/// A read that was left pending is polled again on the next call, whatever
/// room the caller's buffer has then: no second read is started, so no bytes
/// are read twice or lost.
pub proof fn pending_read_is_resumed<R, F, E>(fut: F, room: nat)
    ensures
        read_job(read_phase_after::<R, F, E>(fut, None), room) == (ReadJob::<R, F>::Resume { fut }),
{
}

/// A finished read, failed or not, leaves the reader idle: the next call starts
/// a new read with the inner reader that the read gave back, a scratch buffer of
/// exactly the room left in the caller's buffer, all zeros, and the future box
/// of the finished read, reused.
pub proof fn finished_read_starts_fresh<R, F, E>(
    fut: F,
    inner: R,
    scratch: Seq<u8>,
    res: Result<usize, E>,
    room: nat,
)
    ensures
        read_phase_after(fut, Some((inner, scratch, res))) is Idle,
        read_job(read_phase_after(fut, Some((inner, scratch, res))), room) == (ReadJob::Fresh {
            inner,
            scratch: zeros(room),
            spare: Some(fut),
        }),
        zeros(room).len() == room,
        forall|i: int| 0 <= i < room ==> #[trigger] zeros(room)[i] == 0u8,
{
}

/// The bytes that reach the caller are the first `len` bytes that the inner
/// reader wrote into its scratch buffer when it reports `Ok(len)`, and none on
/// an error or while the read is pending.
pub proof fn read_delivers_what_was_read<R, E>(inner: R, scratch: Seq<u8>, len: usize, e: E)
    requires
        len <= scratch.len(),
    ensures
        read_delivered(Some((inner, scratch, Ok::<usize, E>(len)))) == scratch.subrange(0, len as int),
        read_delivered(Some((inner, scratch, Err::<usize, E>(e)))) == Seq::<u8>::empty(),
        read_delivered::<R, E>(None) == Seq::<u8>::empty(),
        read_answer(Some((inner, scratch, Ok::<usize, E>(len)))) == Some(Ok::<(), E>(())),
        read_answer(Some((inner, scratch, Err::<usize, E>(e)))) == Some(Err::<(), E>(e)),
{
}

/// A new reader gives back the reader it was made with.
pub proof fn new_reader_gives_back_its_reader<R, F>(p: PollRead<R, F>, read: R)
    requires
        p@ == (ReadPhase::<R, F>::Idle { inner: read, scratch: Seq::empty(), spare: None }),
    ensures
        p.inner_spec() == read,
{
}

/// From every idle state, whatever its scratch buffer and its spare future box
/// (none included, as right after `new`), a poll starts a fresh read with the
/// inner reader and that box, into a scratch buffer of exactly the room left in
/// the caller's buffer, all zeros.
pub proof fn idle_read_starts_with_the_room_zeroed<R, F>(inner: R, scratch: Seq<u8>, spare: Option<F>, room: nat)
    ensures
        read_job(ReadPhase::Idle { inner, scratch, spare }, room) matches ReadJob::Fresh {
            inner: i,
            scratch: z,
            spare: sp,
        } && i == inner && sp == spare && z.len() == room && forall|k: int|
            0 <= k < room ==> #[trigger] z[k] == 0u8,
{
}

/// A fresh start's abstract value is the very buffer handed out, byte for byte,
/// with its inner reader and spare box.
pub proof fn read_start_view_is_the_buffer<R, F>(inner: R, buf: Vec<u8>, spare: Option<F>)
    ensures
        (ReadStart::Fresh { inner, buf, spare })@ matches ReadJob::Fresh { inner: i, scratch: z, spare: sp }
            && i == inner && sp == spare && z.len() == buf@.len() && forall|k: int|
            0 <= k < buf@.len() ==> #[trigger] z[k] == buf@[k],
{
}

/// A finished read that reports `Ok(len)` puts into the caller's buffer exactly
/// the first `len` bytes of the scratch buffer it gave back, byte for byte, and
/// answers `Ok(())`; a failed read puts nothing and answers its error; either
/// way the reader becomes idle with the inner reader and scratch buffer that the
/// read gave back and the polled future as spare box.
pub proof fn finished_read_delivers_its_scratch<R, F, E>(
    inner: R,
    scratch: Vec<u8>,
    len: usize,
    e: E,
    fut: F,
    res: Result<usize, E>,
)
    requires
        len <= scratch@.len(),
    ensures
        read_delivered(read_outcome_view(Some((inner, scratch, Ok::<usize, E>(len))))).len() == len,
        forall|k: int|
            0 <= k < len ==> #[trigger] read_delivered(
                read_outcome_view(Some((inner, scratch, Ok::<usize, E>(len)))),
            )[k] == scratch@[k],
        read_answer(read_outcome_view(Some((inner, scratch, Ok::<usize, E>(len))))) == Some(
            Ok::<(), E>(()),
        ),
        read_delivered(read_outcome_view(Some((inner, scratch, Err::<usize, E>(e))))).len() == 0,
        read_answer(read_outcome_view(Some((inner, scratch, Err::<usize, E>(e))))) == Some(
            Err::<(), E>(e),
        ),
        read_phase_after(fut, read_outcome_view(Some((inner, scratch, res)))) matches ReadPhase::Idle {
            inner: i,
            scratch: z,
            spare: sp,
        } && i == inner && sp == Some(fut) && z.len() == scratch@.len() && forall|k: int|
            0 <= k < scratch@.len() ==> #[trigger] z[k] == scratch@[k],
{
}

/// A poll left pending delivers nothing, answers `None`, and keeps the polled future.
pub proof fn pending_poll_delivers_nothing<R, F, E>(fut: F)
    ensures
        read_delivered(read_outcome_view::<R, E>(None)).len() == 0,
        read_answer(read_outcome_view::<R, E>(None)) is None,
        read_phase_after(fut, read_outcome_view::<R, E>(None)) == (ReadPhase::<R, F>::Pending { fut }),
{
}

/// A finished read fits `read_end` exactly when it reports no more bytes than its
/// scratch buffer holds and than the room left; in particular a read that fills
/// all of its scratch and all of the room fits. Failed and pending polls always fit.
pub proof fn read_fits_exactly_up_to_the_room<R, E>(inner: R, scratch: Vec<u8>, len: usize, room: int, e: E)
    ensures
        read_outcome_fits(read_outcome_view(Some((inner, scratch, Ok::<usize, E>(len)))), room) <==> (
        len <= scratch@.len() && len <= room),
        len == scratch@.len() && len == room ==> read_outcome_fits(
            read_outcome_view(Some((inner, scratch, Ok::<usize, E>(len)))),
            room,
        ),
        read_outcome_fits(read_outcome_view(Some((inner, scratch, Err::<usize, E>(e)))), room),
        read_outcome_fits(read_outcome_view::<R, E>(None), room),
{
}

/// One poll of a `PollRead` as a whole: `read_start` with a caller's buffer that
/// has `room` bytes left, then `read_end` with the future `fut` and what its poll
/// gave back.
pub struct ReadPoll<R, F, E> {
    pub room: nat,
    pub fut: F,
    pub outcome: Option<(R, Seq<u8>, Result<usize, E>)>,
}

/// The state after the polls `polls`, made one after the other from `start`.
pub open spec fn read_run_phase<R, F, E>(start: ReadPhase<R, F>, polls: Seq<ReadPoll<R, F, E>>) -> ReadPhase<
    R,
    F,
> {
    if polls.len() == 0 {
        start
    } else {
        read_phase_after(polls.last().fut, polls.last().outcome)
    }
}

/// The job that `read_start` hands out at the last of `polls`.
pub open spec fn read_run_job<R, F, E>(start: ReadPhase<R, F>, polls: Seq<ReadPoll<R, F, E>>) -> ReadJob<R, F>
    recommends
        polls.len() > 0,
{
    read_job(read_run_phase(start, polls.drop_last()), polls.last().room)
}

/// The bytes that `polls` put into the callers' buffers, in order.
pub open spec fn read_run_delivered<R, F, E>(polls: Seq<ReadPoll<R, F, E>>) -> Seq<u8>
    decreases polls.len(),
{
    if polls.len() == 0 {
        Seq::empty()
    } else {
        read_run_delivered(polls.drop_last()) + read_delivered(polls.last().outcome)
    }
}

/// The number of bytes that the finished reads among `polls` reported.
pub open spec fn read_run_count<R, F, E>(polls: Seq<ReadPoll<R, F, E>>) -> nat
    decreases polls.len(),
{
    if polls.len() == 0 {
        0
    } else {
        read_run_count(polls.drop_last()) + match polls.last().outcome {
            Some((_, _, Ok(len))) => len as nat,
            _ => 0,
        }
    }
}

/// The number of fresh reads that `polls` started.
pub open spec fn read_run_started<R, F, E>(start: ReadPhase<R, F>, polls: Seq<ReadPoll<R, F, E>>) -> nat
    decreases polls.len(),
{
    if polls.len() == 0 {
        0
    } else {
        read_run_started(start, polls.drop_last()) + if read_run_job(start, polls) is Fresh {
            1nat
        } else {
            0nat
        }
    }
}

/// The number of reads that finished during `polls`.
pub open spec fn read_run_finished<R, F, E>(polls: Seq<ReadPoll<R, F, E>>) -> nat
    decreases polls.len(),
{
    if polls.len() == 0 {
        0
    } else {
        read_run_finished(polls.drop_last()) + if polls.last().outcome is Some {
            1nat
        } else {
            0nat
        }
    }
}

/// The inner reader reads the stream `s` in order: each finished read reports
/// no more bytes than its scratch buffer holds, and the bytes it reports are the
/// next ones of `s`; a read with room that reports no bytes does so only at the
/// end of `s`.
pub open spec fn reads_follow_stream<R, F, E>(polls: Seq<ReadPoll<R, F, E>>, s: Seq<u8>) -> bool
    decreases polls.len(),
{
    if polls.len() == 0 {
        true
    } else {
        let pos = read_run_count(polls.drop_last());
        &&& reads_follow_stream(polls.drop_last(), s)
        &&& match polls.last().outcome {
            Some((_, scratch, Ok(len))) => {
                &&& len <= scratch.len()
                &&& pos + len <= s.len()
                &&& scratch.take(len as int) == s.subrange(pos as int, pos + len)
                &&& (len == 0 && scratch.len() > 0 ==> pos == s.len())
            },
            _ => true,
        }
    }
}

/// Over any run of polls on a reader that reads the stream `s` in order, the
/// bytes put into the callers' buffers, concatenated in call order, are the
/// start of `s` that the finished reads reported: no byte is lost, duplicated
/// or reordered. When the last poll finishes a read with room that reports no
/// bytes (as `read_to_end` stops), they are all of `s`.
pub proof fn reads_deliver_the_stream_in_order<R, F, E>(polls: Seq<ReadPoll<R, F, E>>, s: Seq<u8>)
    requires
        reads_follow_stream(polls, s),
    ensures
        read_run_count(polls) <= s.len(),
        read_run_delivered(polls) == s.take(read_run_count(polls) as int),
        polls.len() > 0 && (polls.last().outcome matches Some((_, scratch, Ok(len))) && len == 0
            && scratch.len() > 0) ==> read_run_delivered(polls) == s,
    decreases polls.len(),
{
    if polls.len() > 0 {
        let pre = polls.drop_last();
        reads_deliver_the_stream_in_order(pre, s);
        let pos = read_run_count(pre);
        match polls.last().outcome {
            Some((_, scratch, Ok(len))) => {
                assert(read_delivered(polls.last().outcome) == scratch.take(len as int));
                assert(s.take(pos as int) + s.subrange(pos as int, pos + len) =~= s.take(pos + len));
                if len == 0 && scratch.len() > 0 {
                    assert(s.take(pos as int) =~= s);
                }
            },
            _ => {
                assert(read_run_delivered(polls) =~= read_run_delivered(pre));
            },
        }
    }
}

/// Over any run of polls from an idle reader, a fresh read is started exactly
/// at the first poll and after each poll that finished a read; a poll after one
/// that left the read pending resumes that very future. So every read started
/// is finished once, save the one still pending at the end.
pub proof fn each_read_is_started_once<R, F, E>(start: ReadPhase<R, F>, polls: Seq<ReadPoll<R, F, E>>)
    requires
        start is Idle,
    ensures
        polls.len() > 0 ==> (read_run_job(start, polls) is Fresh <==> (polls.len() == 1
            || polls.drop_last().last().outcome is Some)),
        polls.len() > 1 && polls.drop_last().last().outcome is None ==> read_run_job(start, polls) == (
        ReadJob::<R, F>::Resume { fut: polls.drop_last().last().fut }),
        read_run_started(start, polls) == read_run_finished(polls) + if read_run_phase(start, polls) is Pending {
            1nat
        } else {
            0nat
        },
        !(read_run_phase(start, polls) is InFlight),
    decreases polls.len(),
{
    if polls.len() > 0 {
        each_read_is_started_once(start, polls.drop_last());
    }
}

} // verus!
