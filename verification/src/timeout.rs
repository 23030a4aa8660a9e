use vstd::prelude::*;

verus! {

// Times are nanoseconds on one monotonic clock; durations are nanoseconds too.

/// Where a connection is in its request cycle.
#[derive(Debug, Clone, Copy, PartialEq, Eq, Structural)]
pub enum Phase {
    /// Between requests: reads are bounded by the inactivity timeout.
    WaitingForRequest,
    /// The first byte of a request arrived: its headers must be complete by `deadline`.
    ReadingHeaders { deadline: u128 },
    /// The request is being handled: reads are not timed out.
    Processing,
}

impl Phase {
    /// Headers for a request have been parsed: no read timeout applies
    /// until the response for that request is sent.
    pub fn begin_processing(&mut self)
        ensures
            *final(self) == Phase::Processing,
    {
        *self = Phase::Processing;
    }

    /// A request has been fully handled: go back to waiting for the next
    /// request under the inactivity timeout.
    pub fn end_request(&mut self)
        ensures
            *final(self) == Phase::WaitingForRequest,
    {
        *self = Phase::WaitingForRequest;
    }
}

/// How the next read on the connection is to be bounded.
#[derive(Debug, Clone, Copy, PartialEq, Eq, Structural)]
pub enum ReadPlan {
    /// Read without any deadline.
    Unbounded,
    /// The deadline has already passed: fail the read as timed out.
    Expired,
    /// Read, but give up when the clock reaches `deadline`.
    Until { deadline: u128 },
}

/// What a read bounded by a deadline came back with.
#[derive(Debug, Clone, Copy, PartialEq, Eq, Structural)]
pub enum ReadOutcome {
    /// The read completed; `filled` tells whether it produced any bytes.
    Data { filled: bool },
    /// The read failed with an error of the stream.
    Failed,
    /// The read is not ready; `deadline_passed` tells whether the timer fired.
    NotReady { deadline_passed: bool },
}

/// What the read reports to its caller.
#[derive(Debug, Clone, Copy, PartialEq, Eq, Structural)]
pub enum ReadVerdict {
    /// Hand the completed read on.
    Deliver,
    /// Hand the stream's error on.
    PassError,
    /// Fail the read as timed out.
    TimedOut,
    /// Not ready yet: wait to be woken.
    Wait,
}

/// The read-timeout bookkeeping of one connection, as plain values.
#[derive(Debug, Clone, Copy, PartialEq, Eq, Structural)]
pub struct TimeoutsView {
    pub idle_timeout: u128,
    pub header_timeout: u128,
    pub waiting_deadline: Option<u128>,
}

/// Per-connection read deadlines: an inactivity timeout while waiting for a
/// request, and a fixed deadline, counted from the first byte, to finish
/// reading that request's headers. Writes are never timed out.
pub struct ReadTimeouts {
    idle_timeout: u128,
    header_timeout: u128,
    /// The idle deadline already committed to for the current wait, if any.
    waiting_deadline: Option<u128>,
}

impl View for ReadTimeouts {
    type V = TimeoutsView;

    closed spec fn view(&self) -> TimeoutsView {
        TimeoutsView {
            idle_timeout: self.idle_timeout,
            header_timeout: self.header_timeout,
            waiting_deadline: self.waiting_deadline,
        }
    }
}

/// The same bookkeeping with the committed idle deadline replaced by `w`.
pub open spec fn with_waiting(t: TimeoutsView, w: Option<u128>) -> TimeoutsView {
    TimeoutsView { idle_timeout: t.idle_timeout, header_timeout: t.header_timeout, waiting_deadline: w }
}

/// The plan for a read that starts at `now` bounded by `deadline`.
pub open spec fn bounded_by(deadline: u128, now: u128) -> ReadPlan {
    if now >= deadline {
        ReadPlan::Expired
    } else {
        ReadPlan::Until { deadline }
    }
}

/// The idle deadline a read that starts at `now` while waiting commits to:
/// the one already committed to, or `now` plus the inactivity timeout.
pub open spec fn idle_deadline(t: TimeoutsView, now: u128) -> u128 {
    match t.waiting_deadline {
        Some(d) => d,
        None => (now + t.idle_timeout) as u128,
    }
}

/// Whether planning a read at `now` in `phase` stays within `u128`.
pub open spec fn plan_fits(t: TimeoutsView, phase: Phase, now: u128) -> bool {
    phase == Phase::WaitingForRequest && t.waiting_deadline is None ==> now + t.idle_timeout
        <= u128::MAX
}

/// Planning a read that starts at `now` while the connection is in `phase`.
pub open spec fn plan_spec(t: TimeoutsView, phase: Phase, now: u128) -> (TimeoutsView, ReadPlan) {
    match phase {
        Phase::Processing => (with_waiting(t, None), ReadPlan::Unbounded),
        Phase::ReadingHeaders { deadline } => (t, bounded_by(deadline, now)),
        Phase::WaitingForRequest => {
            let d = idle_deadline(t, now);
            (with_waiting(t, Some(d)), bounded_by(d, now))
        },
    }
}

/// Whether settling a read at `now` stays within `u128`.
pub open spec fn settle_fits(t: TimeoutsView, phase: Phase, now: u128, outcome: ReadOutcome) -> bool {
    phase == Phase::WaitingForRequest && outcome == (ReadOutcome::Data { filled: true })
        ==> now + t.header_timeout <= u128::MAX
}

/// Settling a bounded read that was planned in `phase` and came back at `now`
/// with `outcome`: the new bookkeeping, the verdict, and the phase to store, if
/// the phase changes.
pub open spec fn settle_spec(t: TimeoutsView, phase: Phase, now: u128, outcome: ReadOutcome) -> (
    TimeoutsView,
    ReadVerdict,
    Option<Phase>,
) {
    match outcome {
        ReadOutcome::Data { filled } => (
            with_waiting(t, None),
            ReadVerdict::Deliver,
            if phase == Phase::WaitingForRequest && filled {
                Some(Phase::ReadingHeaders { deadline: (now + t.header_timeout) as u128 })
            } else {
                None
            },
        ),
        ReadOutcome::Failed => (with_waiting(t, None), ReadVerdict::PassError, None),
        ReadOutcome::NotReady { deadline_passed } => if deadline_passed {
            (with_waiting(t, None), ReadVerdict::TimedOut, None)
        } else {
            (t, ReadVerdict::Wait, None)
        },
    }
}

impl ReadTimeouts {
    /// Fresh bookkeeping for a new connection, which starts out waiting for
    /// its first request.
    pub fn new(idle: u128, header_read: u128) -> (res: (Self, Phase))
        ensures
            res.0@ == (TimeoutsView { idle_timeout: idle, header_timeout: header_read, waiting_deadline: None }),
            res.1 == Phase::WaitingForRequest,
    {
        (
            ReadTimeouts { idle_timeout: idle, header_timeout: header_read, waiting_deadline: None },
            Phase::WaitingForRequest,
        )
    }

    /// Decides how a read that starts at `now` while the connection is in
    /// `phase` is bounded.
    pub fn plan_read(&mut self, phase: Phase, now: u128) -> (plan: ReadPlan)
        requires
            plan_fits(old(self)@, phase, now),
        ensures
            (final(self)@, plan) == plan_spec(old(self)@, phase, now),
    {
        match phase {
            Phase::Processing => {
                self.waiting_deadline = None;
                ReadPlan::Unbounded
            },
            Phase::ReadingHeaders { deadline } => {
                if now >= deadline {
                    ReadPlan::Expired
                } else {
                    ReadPlan::Until { deadline }
                }
            },
            Phase::WaitingForRequest => {
                let deadline = match self.waiting_deadline {
                    Some(d) => d,
                    None => now + self.idle_timeout,
                };
                self.waiting_deadline = Some(deadline);
                if now >= deadline {
                    ReadPlan::Expired
                } else {
                    ReadPlan::Until { deadline }
                }
            },
        }
    }

    /// Settles a bounded read planned in `phase` that came back at `now` with
    /// `outcome`. Returns the verdict and, when the first byte of a request
    /// has just arrived, the phase to store: reading headers until `now` plus
    /// the header timeout.
    pub fn settle_read(&mut self, phase: Phase, now: u128, outcome: ReadOutcome) -> (res: (
        ReadVerdict,
        Option<Phase>,
    ))
        requires
            settle_fits(old(self)@, phase, now, outcome),
        ensures
            (final(self)@, res.0, res.1) == settle_spec(old(self)@, phase, now, outcome),
    {
        match outcome {
            ReadOutcome::Data { filled } => {
                self.waiting_deadline = None;
                let next = if phase == Phase::WaitingForRequest && filled {
                    Some(Phase::ReadingHeaders { deadline: now + self.header_timeout })
                } else {
                    None
                };
                (ReadVerdict::Deliver, next)
            },
            ReadOutcome::Failed => {
                self.waiting_deadline = None;
                (ReadVerdict::PassError, None)
            },
            ReadOutcome::NotReady { deadline_passed } => {
                if deadline_passed {
                    self.waiting_deadline = None;
                    (ReadVerdict::TimedOut, None)
                } else {
                    (ReadVerdict::Wait, None)
                }
            },
        }
    }
}


/// One call to read on the connection: it starts at `start`; if the plan bounds
/// it by a deadline, it comes back at `end` with `outcome`.
#[derive(Debug, Clone, Copy, PartialEq, Eq, Structural)]
pub struct ReadCall {
    pub start: u128,
    pub outcome: ReadOutcome,
    pub end: u128,
}

/// One read call on a connection in `phase`: the bookkeeping and phase after
/// it, and the plan it was made under.
pub open spec fn read_call_spec(t: TimeoutsView, phase: Phase, call: ReadCall) -> (
    TimeoutsView,
    Phase,
    ReadPlan,
) {
    let (t1, plan) = plan_spec(t, phase, call.start);
    match plan {
        ReadPlan::Until { .. } => {
            let (t2, _verdict, next) = settle_spec(t1, phase, call.end, call.outcome);
            (
                t2,
                match next {
                    Some(p) => p,
                    None => phase,
                },
                plan,
            )
        },
        _ => (t1, phase, plan),
    }
}

/// The plans of successive read calls, with nothing else changing the phase
/// in between.
pub open spec fn read_plans(t: TimeoutsView, phase: Phase, calls: Seq<ReadCall>) -> Seq<ReadPlan>
    decreases calls.len(),
{
    if calls.len() == 0 {
        Seq::empty()
    } else {
        let (t1, p1, plan) = read_call_spec(t, phase, calls[0]);
        seq![plan] + read_plans(t1, p1, calls.drop_first())
    }
}

/// The phase after successive read calls, with nothing else changing it.
pub open spec fn phase_after(t: TimeoutsView, phase: Phase, calls: Seq<ReadCall>) -> Phase
    decreases calls.len(),
{
    if calls.len() == 0 {
        phase
    } else {
        let (t1, p1, _plan) = read_call_spec(t, phase, calls[0]);
        phase_after(t1, p1, calls.drop_first())
    }
}

/// While a request is being processed, no read is ever bounded by a deadline.
pub proof fn lemma_processing_disables_timeouts(t: TimeoutsView, calls: Seq<ReadCall>)
    ensures
        read_plans(t, Phase::Processing, calls).len() == calls.len(),
        forall|i: int|
            0 <= i < calls.len() ==> #[trigger] read_plans(t, Phase::Processing, calls)[i]
                == ReadPlan::Unbounded,
        phase_after(t, Phase::Processing, calls) == Phase::Processing,
    decreases calls.len(),
{
    if calls.len() > 0 {
        let (t1, p1, plan) = read_call_spec(t, Phase::Processing, calls[0]);
        lemma_processing_disables_timeouts(t1, calls.drop_first());
        assert forall|i: int| 0 <= i < calls.len() implies #[trigger] read_plans(
            t,
            Phase::Processing,
            calls,
        )[i] == ReadPlan::Unbounded by {
            if i > 0 {
                assert(read_plans(t, Phase::Processing, calls)[i] == read_plans(
                    t1,
                    p1,
                    calls.drop_first(),
                )[i - 1]);
            }
        }
    }
}

/// The first byte of a request, read while waiting, starts the header phase
/// with its deadline at that moment plus the header timeout.
pub proof fn lemma_first_byte_starts_header_deadline(t: TimeoutsView, call: ReadCall)
    requires
        plan_spec(t, Phase::WaitingForRequest, call.start).1 is Until,
        call.outcome == (ReadOutcome::Data { filled: true }),
    ensures
        read_call_spec(t, Phase::WaitingForRequest, call).1 == (Phase::ReadingHeaders {
            deadline: (call.end + t.header_timeout) as u128,
        }),
{
}

/// Data trickling in does not extend the header deadline: while reading
/// headers with deadline `d`, every read is bounded by `d` (and fails as
/// expired once the clock has reached it), and reads never change the phase.
pub proof fn lemma_header_deadline_is_fixed(t: TimeoutsView, d: u128, calls: Seq<ReadCall>)
    ensures
        read_plans(t, Phase::ReadingHeaders { deadline: d }, calls).len() == calls.len(),
        forall|i: int|
            0 <= i < calls.len() ==> #[trigger] read_plans(
                t,
                Phase::ReadingHeaders { deadline: d },
                calls,
            )[i] == bounded_by(d, calls[i].start),
        phase_after(t, Phase::ReadingHeaders { deadline: d }, calls) == (Phase::ReadingHeaders {
            deadline: d,
        }),
    decreases calls.len(),
{
    let phase = Phase::ReadingHeaders { deadline: d };
    if calls.len() > 0 {
        let (t1, p1, plan) = read_call_spec(t, phase, calls[0]);
        assert(p1 == phase);
        lemma_header_deadline_is_fixed(t1, d, calls.drop_first());
        assert forall|i: int| 0 <= i < calls.len() implies #[trigger] read_plans(t, phase, calls)[i]
            == bounded_by(d, calls[i].start) by {
            if i > 0 {
                assert(read_plans(t, phase, calls)[i] == read_plans(t1, p1, calls.drop_first())[i
                    - 1]);
                assert(calls.drop_first()[i - 1] == calls[i]);
            }
        }
    }
}

/// Waking up without data does not extend the inactivity deadline: while
/// waiting, as long as reads come back not ready and their timer has not
/// fired, every read is bounded by the deadline committed to by the first
/// of them.
pub proof fn lemma_idle_deadline_is_committed(t: TimeoutsView, calls: Seq<ReadCall>)
    requires
        calls.len() > 0,
        forall|i: int|
            0 <= i < calls.len() ==> #[trigger] calls[i].outcome == (ReadOutcome::NotReady {
                deadline_passed: false,
            }),
    ensures
        read_plans(t, Phase::WaitingForRequest, calls).len() == calls.len(),
        forall|i: int|
            0 <= i < calls.len() ==> #[trigger] read_plans(t, Phase::WaitingForRequest, calls)[i]
                == bounded_by(idle_deadline(t, calls[0].start), calls[i].start),
        phase_after(t, Phase::WaitingForRequest, calls) == Phase::WaitingForRequest,
    decreases calls.len(),
{
    let phase = Phase::WaitingForRequest;
    let d = idle_deadline(t, calls[0].start);
    let (t1, p1, plan) = read_call_spec(t, phase, calls[0]);
    assert(p1 == phase);
    assert(t1.waiting_deadline == Some(d));
    if calls.len() > 1 {
        let rest = calls.drop_first();
        assert(rest[0] == calls[1]);
        assert forall|i: int| 0 <= i < rest.len() implies #[trigger] rest[i].outcome
            == (ReadOutcome::NotReady { deadline_passed: false }) by {
            assert(rest[i] == calls[i + 1]);
        }
        lemma_idle_deadline_is_committed(t1, rest);
        assert(idle_deadline(t1, rest[0].start) == d);
        assert forall|i: int| 0 <= i < calls.len() implies #[trigger] read_plans(t, phase, calls)[i]
            == bounded_by(d, calls[i].start) by {
            if i > 0 {
                assert(read_plans(t, phase, calls)[i] == read_plans(t1, p1, rest)[i - 1]);
                assert(rest[i - 1] == calls[i]);
            }
        }
    } else {
        assert(read_plans(t1, p1, calls.drop_first()) == Seq::<ReadPlan>::empty());
        assert(read_plans(t, phase, calls)[0] == plan);
        assert(phase_after(t1, p1, calls.drop_first()) == p1);
    }
}

/// A read that completes, fails, or times out ends the current wait: the
/// next wait for a request counts its inactivity timeout from its own first
/// read.
pub proof fn lemma_completed_read_restarts_idle_clock(
    t: TimeoutsView,
    phase: Phase,
    end: u128,
    outcome: ReadOutcome,
    next_start: u128,
)
    requires
        outcome != (ReadOutcome::NotReady { deadline_passed: false }),
    ensures
        ({
            let t1 = settle_spec(t, phase, end, outcome).0;
            plan_spec(t1, Phase::WaitingForRequest, next_start).1 == bounded_by(
                (next_start + t.idle_timeout) as u128,
                next_start,
            )
        }),
{
}


/// A read that completes while waiting for a request is handed on; if it
/// brought bytes, the connection starts reading headers with the deadline
/// fixed at that moment plus the header timeout, and the committed idle
/// deadline is dropped; if it brought none (end of stream), the connection
/// keeps waiting.
pub proof fn lemma_data_while_waiting(t: TimeoutsView, now: u128, filled: bool)
    ensures
        ({
            let (t1, verdict, next) = settle_spec(
                t,
                Phase::WaitingForRequest,
                now,
                ReadOutcome::Data { filled },
            );
            &&& verdict == ReadVerdict::Deliver
            &&& t1.waiting_deadline is None
            &&& next == if filled {
                Some(Phase::ReadingHeaders { deadline: (now + t.header_timeout) as u128 })
            } else {
                None
            }
        }),
{
}


/// The verdict on a bounded read depends on its outcome alone, in every
/// phase: completed data is handed on, a stream error is handed on, a read
/// whose timer fired times out (also while reading headers), and a read that
/// is merely not ready waits. Only a timer that has not fired keeps the
/// committed idle deadline.
pub proof fn lemma_verdict_follows_outcome(t: TimeoutsView, phase: Phase, now: u128, outcome: ReadOutcome)
    ensures
        ({
            let (t1, verdict, next) = settle_spec(t, phase, now, outcome);
            &&& verdict == match outcome {
                ReadOutcome::Data { .. } => ReadVerdict::Deliver,
                ReadOutcome::Failed => ReadVerdict::PassError,
                ReadOutcome::NotReady { deadline_passed: true } => ReadVerdict::TimedOut,
                ReadOutcome::NotReady { deadline_passed: false } => ReadVerdict::Wait,
            }
            &&& t1.idle_timeout == t.idle_timeout
            &&& t1.header_timeout == t.header_timeout
            &&& t1.waiting_deadline == (if outcome == (ReadOutcome::NotReady { deadline_passed: false }) {
                t.waiting_deadline
            } else {
                None
            })
            &&& (next is Some ==> phase == Phase::WaitingForRequest && outcome == (ReadOutcome::Data { filled: true }))
        }),
{
}

} // verus!
