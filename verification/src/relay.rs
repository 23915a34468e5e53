//! The bidirectional relay as a state machine. The surrounding runtime
//! performs the reads, writes and yields; every decision — what to do
//! with a read result, when to drain, when to yield, when the budgets
//! end the loop — is taken here, with the byte accounting as an
//! invariant of the state.
use crate::errors::spec_is_benign;
use crate::errors::is_benign_error;
use vstd::prelude::*;

verus! {

/// Iteration budget: past this many iterations an idle relay stops.
pub const MAX_ITERS: u64 = 300;

/// Idle budget: how many consecutive iterations without data keep the
/// relay alive once the iteration budget is spent.
pub const IDLE_BREAK: u64 = 20;

/// Yield cadence: the relay yields to the host event loop after this
/// many iterations at the latest.
pub const YIELD_EVERY: u64 = 8;

/// Where the relay stands.
#[derive(Clone, Copy, PartialEq, Eq, Structural, Debug)]
pub enum RelayPhase {
    /// Both directions flow.
    Running,
    /// Side A reached end of stream; reads from B drain into A.
    DrainBtoA,
    /// Side B reached end of stream; reads from A drain into B.
    DrainAtoB,
    /// The relay is over.
    Done,
}

/// What the runtime observed on the sockets.
pub enum RelayEvent {
    /// A read from side A returned these bytes.
    DataA(Vec<u8>),
    /// A read from side B returned these bytes.
    DataB(Vec<u8>),
    /// A read from side A returned zero bytes.
    EofA,
    /// A read from side B returned zero bytes.
    EofB,
    /// A read from side A failed with this message.
    FromAErr(String),
    /// A read from side B failed with this message.
    FromBErr(String),
    /// A write ordered by the previous action failed.
    WriteFailed,
    /// The wall-clock or CPU budget for the whole relay ran out.
    TimeUp,
}

/// What the runtime must do next.
pub enum RelayAction {
    /// Write all of these bytes to side B.
    WriteToB(Vec<u8>),
    /// Write all of these bytes to side A.
    WriteToA(Vec<u8>),
    /// Shut down writes to side B, then keep reading B and feeding the
    /// reads back as events.
    ShutdownB,
    /// Shut down writes to side A, then keep reading A and feeding the
    /// reads back as events.
    ShutdownA,
    /// The relay ended cleanly; report the accumulated counts.
    Finish,
    /// The relay ended with a non-benign error to propagate.
    Fail(String),
}

/// The decision at the top of an iteration.
#[derive(Clone, Copy, PartialEq, Eq, Structural, Debug)]
pub enum IterStep {
    /// The iteration and idle budgets are spent; stop the relay.
    Stop,
    /// Run the iteration; yield to the event loop first when asked.
    Continue { yield_now: bool },
}

/// Sum of the lengths forwarded to side B in the transfer log.
pub open spec fn sum_to_b(log: Seq<(bool, int)>) -> int
    decreases log.len(),
{
    if log.len() == 0 {
        0
    } else {
        sum_to_b(log.drop_last()) + if log.last().0 {
            log.last().1
        } else {
            0
        }
    }
}

/// Sum of the lengths forwarded to side A in the transfer log.
pub open spec fn sum_to_a(log: Seq<(bool, int)>) -> int
    decreases log.len(),
{
    if log.len() == 0 {
        0
    } else {
        sum_to_a(log.drop_last()) + if log.last().0 {
            0
        } else {
            log.last().1
        }
    }
}

/// The relay state: two monotonic byte counters, the budget counters,
/// and a ghost log of every forwarded transfer.
pub struct RelayState {
    /// Bytes forwarded from side A to side B.
    pub a_to_b: u64,
    /// Bytes forwarded from side B to side A.
    pub b_to_a: u64,
    /// Iterations started.
    pub iterations: u64,
    /// Consecutive iterations without data.
    pub idle: u64,
    /// Iterations since the last yield.
    pub since_yield: u64,
    /// Where the relay stands.
    pub phase: RelayPhase,
    /// Every forwarded transfer: direction and length.
    pub log: Ghost<Seq<(bool, int)>>,
}

/// Which events a phase admits: while draining one side, only that
/// side's reads (and the global events) can still arrive.
pub open spec fn event_allowed(phase: RelayPhase, ev: &RelayEvent) -> bool {
    match phase {
        RelayPhase::Running => true,
        RelayPhase::DrainBtoA => ev is DataB || ev is EofB || ev is FromBErr || ev is WriteFailed
            || ev is TimeUp,
        RelayPhase::DrainAtoB => ev is DataA || ev is EofA || ev is FromAErr || ev is WriteFailed
            || ev is TimeUp,
        RelayPhase::Done => false,
    }
}

impl RelayState {
    /// The relay invariant: the counters equal the sums over the log,
    /// the yield cadence is respected, and idleness never outruns the
    /// iteration count.
    pub open spec fn wf(&self) -> bool {
        &&& self.a_to_b as int == sum_to_b(self.log@)
        &&& self.b_to_a as int == sum_to_a(self.log@)
        &&& self.since_yield < YIELD_EVERY
        &&& self.idle <= self.iterations
    }

    /// A fresh relay, ready to run.
    pub fn new() -> (s: Self)
        ensures
            s.wf(),
            s.a_to_b == 0,
            s.b_to_a == 0,
            s.iterations == 0,
            s.idle == 0,
            s.since_yield == 0,
            s.phase == RelayPhase::Running,
            s.log@ == Seq::<(bool, int)>::empty(),
    {
        RelayState {
            a_to_b: 0,
            b_to_a: 0,
            iterations: 0,
            idle: 0,
            since_yield: 0,
            phase: RelayPhase::Running,
            log: Ghost(Seq::empty()),
        }
    }

    /// Open one iteration: count it, stop if the iteration budget is
    /// spent while the stream is idle, and order a yield to the event
    /// loop every `YIELD_EVERY` iterations.
    pub fn begin_iteration(&mut self) -> (step: IterStep)
        requires
            old(self).wf(),
            old(self).phase is Running,
            old(self).iterations < u64::MAX,
        ensures
            final(self).wf(),
            final(self).iterations == old(self).iterations + 1,
            final(self).a_to_b == old(self).a_to_b,
            final(self).b_to_a == old(self).b_to_a,
            final(self).log@ == old(self).log@,
            ({
                if old(self).iterations + 1 > MAX_ITERS && old(self).idle > IDLE_BREAK {
                    &&& step is Stop
                    &&& final(self).phase is Done
                    &&& final(self).idle == old(self).idle
                    &&& final(self).since_yield == old(self).since_yield
                } else {
                    &&& step == IterStep::Continue {
                        yield_now: old(self).since_yield + 1 == YIELD_EVERY,
                    }
                    &&& final(self).phase is Running
                    &&& final(self).idle == old(self).idle + 1
                    &&& final(self).since_yield == if old(self).since_yield + 1 == YIELD_EVERY {
                        0
                    } else {
                        (old(self).since_yield + 1) as u64
                    }
                }
            }),
    {
        self.iterations = self.iterations + 1;
        if self.iterations > MAX_ITERS && self.idle > IDLE_BREAK {
            self.phase = RelayPhase::Done;
            return IterStep::Stop;
        }
        self.idle = self.idle + 1;
        if self.since_yield + 1 == YIELD_EVERY {
            self.since_yield = 0;
            IterStep::Continue { yield_now: true }
        } else {
            self.since_yield = self.since_yield + 1;
            IterStep::Continue { yield_now: false }
        }
    }

    /// React to one socket event. Data is forwarded to the other side
    /// and counted; end of stream (or a benign read error, treated the
    /// same) shuts the other side's writes down and drains it; a
    /// non-benign read error is propagated; a failed write, a drain-side
    /// error or an expired time budget end the relay cleanly.
    pub fn on_event(&mut self, event: RelayEvent) -> (action: RelayAction)
        requires
            old(self).wf(),
            event_allowed(old(self).phase, &event),
            event matches RelayEvent::DataA(v) ==> v@.len() > 0 && old(self).a_to_b + v@.len()
                <= u64::MAX,
            event matches RelayEvent::DataB(v) ==> v@.len() > 0 && old(self).b_to_a + v@.len()
                <= u64::MAX,
        ensures
            final(self).wf(),
            final(self).iterations == old(self).iterations,
            final(self).since_yield == old(self).since_yield,
            match event {
                RelayEvent::DataA(v) => {
                    &&& action matches RelayAction::WriteToB(w) && w@ == v@
                    &&& final(self).a_to_b == old(self).a_to_b + v@.len()
                    &&& final(self).b_to_a == old(self).b_to_a
                    &&& final(self).log@ == old(self).log@.push((true, v@.len() as int))
                    &&& final(self).phase == old(self).phase
                    &&& final(self).idle == 0
                },
                RelayEvent::DataB(v) => {
                    &&& action matches RelayAction::WriteToA(w) && w@ == v@
                    &&& final(self).b_to_a == old(self).b_to_a + v@.len()
                    &&& final(self).a_to_b == old(self).a_to_b
                    &&& final(self).log@ == old(self).log@.push((false, v@.len() as int))
                    &&& final(self).phase == old(self).phase
                    &&& final(self).idle == 0
                },
                RelayEvent::EofA => {
                    &&& unchanged_counts(old(self), final(self))
                    &&& if old(self).phase is Running {
                        action is ShutdownB && final(self).phase is DrainBtoA
                    } else {
                        action is Finish && final(self).phase is Done
                    }
                },
                RelayEvent::EofB => {
                    &&& unchanged_counts(old(self), final(self))
                    &&& if old(self).phase is Running {
                        action is ShutdownA && final(self).phase is DrainAtoB
                    } else {
                        action is Finish && final(self).phase is Done
                    }
                },
                RelayEvent::FromAErr(m) => {
                    &&& unchanged_counts(old(self), final(self))
                    &&& if old(self).phase is Running {
                        if spec_is_benign(m@) {
                            action is ShutdownB && final(self).phase is DrainBtoA
                        } else {
                            action matches RelayAction::Fail(e) && e@ == m@
                                && final(self).phase is Done
                        }
                    } else {
                        action is Finish && final(self).phase is Done
                    }
                },
                RelayEvent::FromBErr(m) => {
                    &&& unchanged_counts(old(self), final(self))
                    &&& if old(self).phase is Running {
                        if spec_is_benign(m@) {
                            action is ShutdownA && final(self).phase is DrainAtoB
                        } else {
                            action matches RelayAction::Fail(e) && e@ == m@
                                && final(self).phase is Done
                        }
                    } else {
                        action is Finish && final(self).phase is Done
                    }
                },
                RelayEvent::WriteFailed => {
                    &&& unchanged_counts(old(self), final(self))
                    &&& action is Finish
                    &&& final(self).phase is Done
                },
                RelayEvent::TimeUp => {
                    &&& unchanged_counts(old(self), final(self))
                    &&& action is Finish
                    &&& final(self).phase is Done
                },
            },
    {
        match event {
            RelayEvent::DataA(v) => {
                proof {
                    let newlog = self.log@.push((true, v@.len() as int));
                    assert(newlog.drop_last() =~= self.log@);
                    self.log@ = newlog;
                }
                self.a_to_b = self.a_to_b + v.len() as u64;
                self.idle = 0;
                RelayAction::WriteToB(v)
            },
            RelayEvent::DataB(v) => {
                proof {
                    let newlog = self.log@.push((false, v@.len() as int));
                    assert(newlog.drop_last() =~= self.log@);
                    self.log@ = newlog;
                }
                self.b_to_a = self.b_to_a + v.len() as u64;
                self.idle = 0;
                RelayAction::WriteToA(v)
            },
            RelayEvent::EofA => {
                if matches!(self.phase, RelayPhase::Running) {
                    self.phase = RelayPhase::DrainBtoA;
                    RelayAction::ShutdownB
                } else {
                    self.phase = RelayPhase::Done;
                    RelayAction::Finish
                }
            },
            RelayEvent::EofB => {
                if matches!(self.phase, RelayPhase::Running) {
                    self.phase = RelayPhase::DrainAtoB;
                    RelayAction::ShutdownA
                } else {
                    self.phase = RelayPhase::Done;
                    RelayAction::Finish
                }
            },
            RelayEvent::FromAErr(m) => {
                if matches!(self.phase, RelayPhase::Running) {
                    if is_benign_error(m.as_str()) {
                        self.phase = RelayPhase::DrainBtoA;
                        RelayAction::ShutdownB
                    } else {
                        self.phase = RelayPhase::Done;
                        RelayAction::Fail(m)
                    }
                } else {
                    self.phase = RelayPhase::Done;
                    RelayAction::Finish
                }
            },
            RelayEvent::FromBErr(m) => {
                if matches!(self.phase, RelayPhase::Running) {
                    if is_benign_error(m.as_str()) {
                        self.phase = RelayPhase::DrainAtoB;
                        RelayAction::ShutdownA
                    } else {
                        self.phase = RelayPhase::Done;
                        RelayAction::Fail(m)
                    }
                } else {
                    self.phase = RelayPhase::Done;
                    RelayAction::Finish
                }
            },
            RelayEvent::WriteFailed => {
                self.phase = RelayPhase::Done;
                RelayAction::Finish
            },
            RelayEvent::TimeUp => {
                self.phase = RelayPhase::Done;
                RelayAction::Finish
            },
        }
    }
}

/// Counters and log untouched by a transition.
pub open spec fn unchanged_counts(a: &RelayState, b: &RelayState) -> bool {
    &&& b.a_to_b == a.a_to_b
    &&& b.b_to_a == a.b_to_a
    &&& b.log@ == a.log@
    &&& b.idle == a.idle
}

/// Law: the outbound byte count to each side equals what was forwarded
/// to it — every counted byte stands in the transfer log with its
/// direction, drained bytes included, and nothing else is counted.
pub proof fn lemma_relay_accounting(s: &RelayState)
    requires
        s.wf(),
    ensures
        s.a_to_b as int == sum_to_b(s.log@),
        s.b_to_a as int == sum_to_a(s.log@),
{
}

/// Law: the relay never runs more than `YIELD_EVERY` consecutive
/// iterations without a yield, and that cadence is well under the
/// iteration budget.
pub proof fn lemma_yield_cadence(s: &RelayState)
    requires
        s.wf(),
    ensures
        s.since_yield < YIELD_EVERY,
        YIELD_EVERY <= MAX_ITERS,
{
}

} // verus!
