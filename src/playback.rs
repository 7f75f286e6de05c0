use vstd::prelude::*;
use crate::session::Session;

verus! {

/// Why playback ended.
#[derive(Debug, Clone, Copy, PartialEq, Eq, Structural)]
pub enum StopReason {
    /// The cancellation flag was set at a buffer boundary.
    Cancelled,
    /// The sink refused a buffer.
    SinkFailed,
}

/// Where the driver stands.
#[derive(Debug, Clone, Copy, PartialEq, Eq, Structural)]
pub enum Stage {
    /// Between buffers: the next ready event checks cancellation.
    Boundary,
    /// Generating the samples of one buffer.
    Filling,
    /// Playback is over; every further event is answered with `Stop`.
    Stopped { reason: StopReason },
}

/// What the caller reports after carrying out the last action (or, for the
/// first call, before any action).
#[derive(Debug, Clone, Copy, PartialEq, Eq, Structural)]
pub enum Event {
    /// The last action was carried out; `cancelled` is the cancellation flag
    /// as read now. It is consulted only between buffers.
    Ready { cancelled: bool },
    /// The sink refused the buffer that was handed to it.
    Failed,
}

/// What the caller is to do next.
#[derive(Debug, Clone, Copy, PartialEq, Eq, Structural)]
pub enum Action {
    /// Generate one sample at the phase of `tick` ticks, that is
    /// `tick * 2π / sample_rate` radians, and append it to the buffer.
    Generate { tick: u64 },
    /// Hand the filled buffer, one channel at the session's sample rate, to
    /// the sink.
    Submit,
    /// Playback is over.
    Stop { reason: StopReason },
}

/// The driver's state: sample rate, ticks of phase accumulated since the
/// session started (never wrapped), samples already in the current buffer,
/// and stage.
pub struct PlaybackView {
    pub rate: nat,
    pub ticks: nat,
    pub filled: nat,
    pub stage: Stage,
}

pub open spec fn initial(rate: nat) -> PlaybackView {
    PlaybackView { rate, ticks: 0, filled: 0, stage: Stage::Boundary }
}

/// Consistency of a driver state.
pub open spec fn view_wf(v: PlaybackView) -> bool {
    &&& v.rate > 0
    &&& v.filled <= v.rate
    &&& v.stage == Stage::Boundary ==> v.filled == 0
    &&& v.stage == Stage::Filling ==> v.filled >= 1
}

/// Starts the next sample: one tick of phase, one more sample in the buffer.
pub open spec fn advance(v: PlaybackView) -> (PlaybackView, Action) {
    (
        PlaybackView { ticks: v.ticks + 1, filled: v.filled + 1, stage: Stage::Filling, ..v },
        Action::Generate { tick: (v.ticks + 1) as u64 },
    )
}

pub open spec fn halt(v: PlaybackView, reason: StopReason) -> (PlaybackView, Action) {
    (
        PlaybackView { stage: Stage::Stopped { reason }, ..v },
        Action::Stop { reason },
    )
}

/// The transition function of the driver. Between buffers a set
/// cancellation flag stops playback; otherwise a buffer of exactly `rate`
/// samples is generated, each one tick of phase after the last, and then
/// submitted. A refused submission stops playback. A stopped driver stays
/// stopped.
pub open spec fn next(v: PlaybackView, e: Event) -> (PlaybackView, Action) {
    match v.stage {
        Stage::Stopped { reason } => (v, Action::Stop { reason }),
        Stage::Boundary => match e {
            Event::Failed => halt(v, StopReason::SinkFailed),
            Event::Ready { cancelled } => if cancelled {
                halt(v, StopReason::Cancelled)
            } else {
                advance(v)
            },
        },
        Stage::Filling => match e {
            Event::Failed => halt(v, StopReason::SinkFailed),
            Event::Ready { .. } => if v.filled < v.rate {
                advance(v)
            } else {
                (PlaybackView { filled: 0, stage: Stage::Boundary, ..v }, Action::Submit)
            },
        },
    }
}

/// Feeds `events` to the driver one after another, from state `v`; the final
/// state and the actions returned, in order.
pub open spec fn run(v: PlaybackView, events: Seq<Event>) -> (PlaybackView, Seq<Action>)
    decreases events.len(),
{
    if events.len() == 0 {
        (v, Seq::empty())
    } else {
        let (v1, a) = next(v, events[0]);
        let (vn, rest) = run(v1, events.drop_first());
        (vn, seq![a] + rest)
    }
}

/// The ticks at which samples are generated, in the order of `actions`.
pub open spec fn generated_ticks(actions: Seq<Action>) -> Seq<int>
    decreases actions.len(),
{
    if actions.len() == 0 {
        Seq::empty()
    } else {
        let rest = generated_ticks(actions.drop_first());
        match actions[0] {
            Action::Generate { tick } => seq![tick as int] + rest,
            _ => rest,
        }
    }
}

/// `count` consecutive ticks starting at `first`.
pub open spec fn consecutive_ticks(first: nat, count: nat) -> Seq<int> {
    Seq::new(count, |i: int| first + i)
}

/// The transition function keeps a driver state consistent.
pub proof fn lemma_next_wf(v: PlaybackView, e: Event)
    requires
        view_wf(v),
    ensures
        view_wf(next(v, e).0),
        next(v, e).0.rate == v.rate,
        next(v, e).0.ticks == v.ticks || next(v, e).0.ticks == v.ticks + 1,
{
}

/// From any consistent state, the samples generated along a run are at the
/// consecutive ticks after the state's own, one per tick accumulated.
pub proof fn lemma_run_ticks(v: PlaybackView, events: Seq<Event>)
    requires
        view_wf(v),
        v.ticks + events.len() <= u64::MAX,
    ensures
        view_wf(run(v, events).0),
        v.ticks <= run(v, events).0.ticks <= v.ticks + events.len(),
        generated_ticks(run(v, events).1) == consecutive_ticks(
            v.ticks + 1,
            (run(v, events).0.ticks - v.ticks) as nat,
        ),
    decreases events.len(),
{
    if events.len() > 0 {
        let (v1, a) = next(v, events[0]);
        let rest = events.drop_first();
        lemma_next_wf(v, events[0]);
        lemma_run_ticks(v1, rest);
        let (vn, acts) = run(v1, rest);
        let all = seq![a] + acts;
        assert(all.drop_first() =~= acts);
        assert(all[0] == a);
        let n = (vn.ticks - v.ticks) as nat;
        if v1.ticks == v.ticks + 1 {
            assert(a == Action::Generate { tick: (v.ticks + 1) as u64 });
            assert(generated_ticks(all) =~= consecutive_ticks(v.ticks + 1, n));
        } else {
            assert(a is Submit || a is Stop);
            assert(generated_ticks(all) =~= consecutive_ticks(v.ticks + 1, n));
        }
    }
}

/// How many of `actions` are submissions.
pub open spec fn submissions(actions: Seq<Action>) -> nat
    decreases actions.len(),
{
    if actions.len() == 0 {
        0
    } else {
        let rest = submissions(actions.drop_first());
        if actions[0] is Submit {
            rest + 1
        } else {
            rest
        }
    }
}

/// Buffers are whole: along any run, the samples generated, with those
/// already in the buffer at the start, are exactly `rate` per submission
/// plus those in the buffer at the end, which never exceed `rate`.
pub proof fn lemma_buffers_whole(v: PlaybackView, events: Seq<Event>)
    requires
        view_wf(v),
        v.ticks + events.len() <= u64::MAX,
    ensures
        generated_ticks(run(v, events).1).len() + v.filled == v.rate * submissions(
            run(v, events).1,
        ) + run(v, events).0.filled,
        run(v, events).0.filled <= v.rate,
    decreases events.len(),
{
    lemma_run_ticks(v, events);
    if events.len() > 0 {
        let (v1, a) = next(v, events[0]);
        let rest = events.drop_first();
        lemma_next_wf(v, events[0]);
        lemma_buffers_whole(v1, rest);
        let (vn, acts) = run(v1, rest);
        let all = seq![a] + acts;
        assert(all.drop_first() =~= acts);
        assert(all[0] == a);
        assert(run(v, events) == (vn, all));
        let k = submissions(acts);
        assert(v.rate * (k + 1) == v.rate * k + v.rate) by (nonlinear_arith);
        match a {
            Action::Generate { tick } => {
                assert(generated_ticks(all) == seq![tick as int] + generated_ticks(acts));
                assert(submissions(all) == k);
                assert(v1.filled == v.filled + 1);
            },
            Action::Submit => {
                assert(v.filled == v.rate && v1.filled == 0);
                assert(generated_ticks(all) == generated_ticks(acts));
                assert(submissions(all) == k + 1);
            },
            Action::Stop { .. } => {
                assert(generated_ticks(all) == generated_ticks(acts));
                assert(submissions(all) == k);
                assert(v1.filled == v.filled);
            },
        }
        assert(generated_ticks(acts).len() + v1.filled == v.rate * k + vn.filled);
    } else {
        assert(generated_ticks(run(v, events).1).len() == 0);
        assert(submissions(run(v, events).1) == 0);
        assert(v.rate * 0 == 0);
    }
}

/// Phase accumulation is a pure function of the sample rate and the tick
/// count: in every run from the start of a session, the k-th sample is
/// generated at tick k, whatever the cancellation flags and sink outcomes
/// were. So two runs at the same sample rate that accumulate the same
/// number of ticks generate their samples at identical phases.
pub proof fn lemma_phase_deterministic(rate: nat, first: Seq<Event>, second: Seq<Event>)
    requires
        rate > 0,
        first.len() <= u64::MAX,
        second.len() <= u64::MAX,
        run(initial(rate), first).0.ticks == run(initial(rate), second).0.ticks,
    ensures
        generated_ticks(run(initial(rate), first).1) == consecutive_ticks(
            1,
            run(initial(rate), first).0.ticks,
        ),
        generated_ticks(run(initial(rate), first).1) == generated_ticks(
            run(initial(rate), second).1,
        ),
{
    lemma_run_ticks(initial(rate), first);
    lemma_run_ticks(initial(rate), second);
}

/// The playback driver: decides, event by event, when to generate a sample,
/// when to submit a buffer and when to stop.
pub struct Playback {
    sample_rate: u32,
    ticks: u64,
    filled: u32,
    stage: Stage,
}

impl View for Playback {
    type V = PlaybackView;

    closed spec fn view(&self) -> PlaybackView {
        PlaybackView {
            rate: self.sample_rate as nat,
            ticks: self.ticks as nat,
            filled: self.filled as nat,
            stage: self.stage,
        }
    }
}

impl Playback {
    pub open spec fn wf(&self) -> bool {
        view_wf(self@)
    }

    /// A driver at the start of a session: phase zero, no buffer begun.
    pub fn new(session: &Session) -> (r: Playback)
        requires
            session.wf(),
        ensures
            r.wf(),
            r@ == initial(session.rate()),
    {
        Playback { sample_rate: session.sample_rate(), ticks: 0, filled: 0, stage: Stage::Boundary }
    }

    /// Takes one event and returns the next action.
    pub fn step(&mut self, event: Event) -> (r: Action)
        requires
            old(self).wf(),
            old(self)@.ticks < u64::MAX,
        ensures
            final(self).wf(),
            (final(self)@, r) == next(old(self)@, event),
    {
        match self.stage {
            Stage::Stopped { reason } => Action::Stop { reason },
            Stage::Boundary => match event {
                Event::Failed => self.halt(StopReason::SinkFailed),
                Event::Ready { cancelled } => {
                    if cancelled {
                        self.halt(StopReason::Cancelled)
                    } else {
                        self.advance()
                    }
                },
            },
            Stage::Filling => match event {
                Event::Failed => self.halt(StopReason::SinkFailed),
                Event::Ready { .. } => {
                    if self.filled < self.sample_rate {
                        self.advance()
                    } else {
                        self.filled = 0;
                        self.stage = Stage::Boundary;
                        Action::Submit
                    }
                },
            },
        }
    }

    fn advance(&mut self) -> (r: Action)
        requires
            old(self)@.ticks < u64::MAX,
            old(self)@.filled < old(self)@.rate,
        ensures
            (final(self)@, r) == advance(old(self)@),
    {
        self.ticks = self.ticks + 1;
        self.filled = self.filled + 1;
        self.stage = Stage::Filling;
        Action::Generate { tick: self.ticks }
    }

    fn halt(&mut self, reason: StopReason) -> (r: Action)
        ensures
            (final(self)@, r) == halt(old(self)@, reason),
    {
        self.stage = Stage::Stopped { reason };
        Action::Stop { reason }
    }

    /// Ticks of phase accumulated since the session started.
    pub fn ticks(&self) -> (r: u64)
        ensures
            r == self@.ticks,
    {
        self.ticks
    }

    pub fn stage(&self) -> (r: Stage)
        ensures
            r == self@.stage,
    {
        self.stage
    }

    pub fn sample_rate(&self) -> (r: u32)
        ensures
            r == self@.rate,
    {
        self.sample_rate
    }
}

} // verus!
