//! The control flow of one request, abstracted from its data: which unit of work has
//! settled, whether a chart file may exist, and how far the reply has gone. Every run
//! creates at most one chart file, sends exactly one reply before touching it, and
//! asks for the file's deletion exactly once when it exists.

use vstd::prelude::*;

verus! {

/// Where the snapshot fetch stands.
#[derive(Clone, Copy, Debug, PartialEq, Eq, Structural)]
pub enum Stage {
    Pending,
    Ready,
    Failed,
}

/// Where the chart stands. `file` says whether drawing began, so that a file may exist.
#[derive(Clone, Copy, Debug, PartialEq, Eq, Structural)]
pub enum DrawStage {
    Waiting,
    Drawing,
    Drawn,
    Failed { file: bool },
}

/// How far the request has gone after both units settled.
#[derive(Clone, Copy, Debug, PartialEq, Eq, Structural)]
pub enum Phase {
    /// The units of work are running.
    Working,
    /// The reply has been handed over for sending.
    Sending,
    /// The chart file's deletion has been asked for.
    Deleting,
    Done,
}

/// What happened, as far as control flow is concerned.
#[derive(Clone, Copy, Debug, PartialEq, Eq, Structural)]
pub enum EventKind {
    /// The snapshot came; `plottable` when its sparkline has a point to draw.
    SnapshotOk { plottable: bool },
    SnapshotErr,
    /// The OHLC series came; `plottable` when it has a candle to draw.
    OhlcOk { plottable: bool },
    OhlcErr,
    Drawn { ok: bool },
    Sent,
    Deleted,
}

/// What is asked for, as far as control flow is concerned.
#[derive(Clone, Copy, Debug, PartialEq, Eq, Structural)]
pub enum ActionKind {
    Fetch,
    Draw,
    Send,
    Delete,
    Finish,
    Wait,
}

/// The control state of one request; `line` for a line chart, whose drawing waits for
/// the snapshot.
#[derive(Clone, Copy, Debug, PartialEq, Eq, Structural)]
pub struct Control {
    pub line: bool,
    pub snapshot: Stage,
    pub chart: DrawStage,
    pub phase: Phase,
}

impl Control {
    /// The state before anything happened.
    pub open spec fn initial(line: bool) -> Control {
        Control { line, snapshot: Stage::Pending, chart: DrawStage::Waiting, phase: Phase::Working }
    }

    /// Drawing began, so a chart file may exist.
    pub open spec fn file_started(self) -> bool {
        match self.chart {
            DrawStage::Waiting => false,
            DrawStage::Drawing => true,
            DrawStage::Drawn => true,
            DrawStage::Failed { file } => file,
        }
    }

    /// Both units of work have finished, well or not.
    pub open spec fn settled(self) -> bool {
        &&& self.snapshot != Stage::Pending
        &&& (self.chart is Drawn || self.chart is Failed)
    }

    /// The deletion of the chart file has been asked for.
    pub open spec fn delete_asked(self) -> bool {
        (self.phase == Phase::Deleting || self.phase == Phase::Done) && self.file_started()
    }

    /// The reply has been handed over.
    pub open spec fn reply_handed(self) -> bool {
        self.phase != Phase::Working
    }

    pub open spec fn inv(self) -> bool {
        &&& self.line && self.chart != DrawStage::Waiting ==> self.snapshot != Stage::Pending
        &&& self.phase != Phase::Working ==> self.settled()
        &&& self.phase == Phase::Deleting ==> self.file_started()
    }

    /// After a unit of work settled: the reply goes out once both have.
    pub open spec fn after_unit(self) -> (Control, ActionKind) {
        if self.settled() {
            (Control { phase: Phase::Sending, ..self }, ActionKind::Send)
        } else {
            (self, ActionKind::Wait)
        }
    }

    /// The next state, and what to do, after `k`.
    pub open spec fn next(self, k: EventKind) -> (Control, ActionKind) {
        match self.phase {
            Phase::Working => match k {
                EventKind::SnapshotOk { plottable } => if self.snapshot != Stage::Pending {
                    (self, ActionKind::Wait)
                } else if self.line {
                    if plottable {
                        (
                            Control { snapshot: Stage::Ready, chart: DrawStage::Drawing, ..self },
                            ActionKind::Draw,
                        )
                    } else {
                        Control {
                            snapshot: Stage::Ready,
                            chart: DrawStage::Failed { file: false },
                            ..self
                        }.after_unit()
                    }
                } else {
                    Control { snapshot: Stage::Ready, ..self }.after_unit()
                },
                EventKind::SnapshotErr => if self.snapshot != Stage::Pending {
                    (self, ActionKind::Wait)
                } else if self.line {
                    Control {
                        snapshot: Stage::Failed,
                        chart: DrawStage::Failed { file: false },
                        ..self
                    }.after_unit()
                } else {
                    Control { snapshot: Stage::Failed, ..self }.after_unit()
                },
                EventKind::OhlcOk { plottable } => if self.line || self.chart
                    != DrawStage::Waiting {
                    (self, ActionKind::Wait)
                } else if plottable {
                    (Control { chart: DrawStage::Drawing, ..self }, ActionKind::Draw)
                } else {
                    Control { chart: DrawStage::Failed { file: false }, ..self }.after_unit()
                },
                EventKind::OhlcErr => if self.line || self.chart != DrawStage::Waiting {
                    (self, ActionKind::Wait)
                } else {
                    Control { chart: DrawStage::Failed { file: false }, ..self }.after_unit()
                },
                EventKind::Drawn { ok } => if self.chart != DrawStage::Drawing {
                    (self, ActionKind::Wait)
                } else if ok {
                    Control { chart: DrawStage::Drawn, ..self }.after_unit()
                } else {
                    Control { chart: DrawStage::Failed { file: true }, ..self }.after_unit()
                },
                _ => (self, ActionKind::Wait),
            },
            Phase::Sending => match k {
                EventKind::Sent => if self.file_started() {
                    (Control { phase: Phase::Deleting, ..self }, ActionKind::Delete)
                } else {
                    (Control { phase: Phase::Done, ..self }, ActionKind::Finish)
                },
                _ => (self, ActionKind::Wait),
            },
            Phase::Deleting => match k {
                EventKind::Deleted => (Control { phase: Phase::Done, ..self }, ActionKind::Finish),
                _ => (self, ActionKind::Wait),
            },
            Phase::Done => (self, ActionKind::Wait),
        }
    }

    /// The state after `events`, and what was asked for on the way.
    pub open spec fn run(self, events: Seq<EventKind>) -> (Control, Seq<ActionKind>)
        decreases events.len(),
    {
        if events.len() == 0 {
            (self, Seq::empty())
        } else {
            let (c1, a) = self.next(events[0]);
            let (c2, rest) = c1.run(events.drop_first());
            (c2, seq![a] + rest)
        }
    }
}

/// How often `kind` occurs in `acts`.
pub open spec fn count(acts: Seq<ActionKind>, kind: ActionKind) -> int
    decreases acts.len(),
{
    if acts.len() == 0 {
        0
    } else {
        (if acts[0] == kind {
            1int
        } else {
            0int
        }) + count(acts.drop_first(), kind)
    }
}

pub open spec fn flag(b: bool) -> int {
    if b {
        1
    } else {
        0
    }
}

/// One step keeps the invariant; a drawing, a reply and a deletion are each asked for
/// exactly when the matching flag goes up.
pub proof fn lemma_next(c: Control, k: EventKind)
    requires
        c.inv(),
    ensures
        ({
            let (c1, a) = c.next(k);
            &&& c1.inv()
            &&& c1.line == c.line
            &&& flag(c1.file_started()) == flag(c.file_started()) + flag(a == ActionKind::Draw)
            &&& flag(c1.delete_asked()) == flag(c.delete_asked()) + flag(a == ActionKind::Delete)
            &&& flag(c1.reply_handed()) == flag(c.reply_handed()) + flag(a == ActionKind::Send)
            &&& a != ActionKind::Fetch
            &&& a == ActionKind::Send ==> c1.settled()
        }),
{
}

/// The counts of a run from `c`, in terms of the flags of its first and last states.
pub proof fn lemma_run(c: Control, events: Seq<EventKind>)
    requires
        c.inv(),
    ensures
        ({
            let (last, acts) = c.run(events);
            &&& last.inv()
            &&& count(acts, ActionKind::Draw) == flag(last.file_started()) - flag(c.file_started())
            &&& count(acts, ActionKind::Delete) == flag(last.delete_asked()) - flag(
                c.delete_asked(),
            )
            &&& count(acts, ActionKind::Send) == flag(last.reply_handed()) - flag(c.reply_handed())
        }),
    decreases events.len(),
{
    if events.len() > 0 {
        let (c1, a) = c.next(events[0]);
        lemma_next(c, events[0]);
        lemma_run(c1, events.drop_first());
        let (c2, rest) = c1.run(events.drop_first());
        let acts = seq![a] + rest;
        assert(acts[0] == a);
        assert(acts.drop_first() =~= rest);
    }
}

/// Cleanup of a request: whatever happens and in whatever order, a run draws at most
/// one chart file, hands over at most one reply, asks for at most one deletion and
/// only of a drawn file; and once it is done, it has handed over its reply and asked
/// for the deletion exactly when a file was drawn, even when fetching or drawing failed.
pub proof fn lemma_cleanup(line: bool, events: Seq<EventKind>)
    ensures
        ({
            let (last, acts) = Control::initial(line).run(events);
            &&& count(acts, ActionKind::Draw) <= 1
            &&& count(acts, ActionKind::Send) <= 1
            &&& count(acts, ActionKind::Delete) <= count(acts, ActionKind::Draw)
            &&& last.phase == Phase::Done ==> count(acts, ActionKind::Send) == 1
            &&& last.phase == Phase::Done ==> count(acts, ActionKind::Delete) == count(
                acts,
                ActionKind::Draw,
            )
        }),
{
    lemma_run(Control::initial(line), events);
}

} // verus!
