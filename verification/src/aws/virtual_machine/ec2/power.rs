//! The protocol that starts or stops an instance: send the request, check how
//! many instances the answer says changed state, then poll the instance's
//! state until it reaches the target ("running" or "stopped").
//!
//! The caller performs each action (query the instance, report the outcome)
//! and feeds back what it observed; the decisions are made here.
use vstd::prelude::*;
use crate::ec2_types::{Instance, InstanceView};
use crate::text::same_text;

verus! {

/// Which way the instance is being moved.
#[derive(Clone, Copy, Debug, PartialEq, Eq, Structural)]
pub enum PowerOp {
    Start,
    Stop,
}

impl PowerOp {
    /// The state name that ends the transition.
    pub open spec fn target(self) -> Seq<char> {
        match self {
            PowerOp::Start => "running"@,
            PowerOp::Stop => "stopped"@,
        }
    }

    /// The state name the instance passes through on the way.
    pub open spec fn transitional(self) -> Seq<char> {
        match self {
            PowerOp::Start => "pending"@,
            PowerOp::Stop => "stopping"@,
        }
    }

    /// The complaint when the answer lists no changed instances.
    pub open spec fn none_changed_message(self) -> Seq<char> {
        match self {
            PowerOp::Start => "Tried to start instance, none started!"@,
            PowerOp::Stop => "Tried to stop instance, none stopped!"@,
        }
    }

    /// The complaint when the instance leaves the expected path.
    pub open spec fn other_status_message(self) -> Seq<char> {
        match self {
            PowerOp::Start => "tried to run but instead got another status!"@,
            PowerOp::Stop => "tried to stop but instead got another status!"@,
        }
    }
}

pub open spec fn too_many_changed_message() -> Seq<char> {
    "Started more than 1 instance! Are your tags correct? Trying to shut down all instances"@
}

pub open spec fn no_instance_message() -> Seq<char> {
    "couldn't find this instance but there was none!"@
}

pub open spec fn no_state_message() -> Seq<char> {
    "expected state of instance but there was none!"@
}

pub open spec fn no_state_name_message() -> Seq<char> {
    "expected state name but there was none!"@
}

/// The value reported when the transition completes.
pub open spec fn finished_message() -> Seq<char> {
    "running"@
}

/// Where a transition stands.
#[derive(Clone, Copy, Debug, PartialEq, Eq, Structural)]
pub enum PowerPhase {
    /// The start/stop request has been sent; its answer is awaited.
    AwaitingReply,
    /// The first look at the instance's state is awaited.
    AwaitingFirstStatus,
    /// The instance is on its way; its state is polled.
    Polling,
    Finished,
    Aborted,
}

/// What a look at the instance found.
#[derive(Debug, PartialEq, Eq)]
pub enum StatusReading {
    /// The answer does not list the instance.
    NoInstance,
    /// The instance reports no state.
    NoState,
    /// The state has no name.
    NoName,
    Name(String),
}

pub enum StatusReadingView {
    NoInstance,
    NoState,
    NoName,
    Name(Seq<char>),
}

impl View for StatusReading {
    type V = StatusReadingView;

    open spec fn view(&self) -> StatusReadingView {
        match self {
            StatusReading::NoInstance => StatusReadingView::NoInstance,
            StatusReading::NoState => StatusReadingView::NoState,
            StatusReading::NoName => StatusReadingView::NoName,
            StatusReading::Name(n) => StatusReadingView::Name(n@),
        }
    }
}

/// What a look at the (optional) instance finds.
pub open spec fn reading_of(instance: Option<InstanceView>) -> StatusReadingView {
    match instance {
        None => StatusReadingView::NoInstance,
        Some(i) => match i.state {
            None => StatusReadingView::NoState,
            Some(st) => match st.name {
                None => StatusReadingView::NoName,
                Some(n) => StatusReadingView::Name(n),
            },
        },
    }
}

impl StatusReading {
    /// Reads the state name of an instance looked up by id.
    pub fn of(instance: Option<Instance>) -> (r: StatusReading)
        ensures
            r@ == reading_of(instance.deep_view()),
    {
        match instance {
            None => StatusReading::NoInstance,
            Some(i) => match i.state {
                None => StatusReading::NoState,
                Some(st) => match st.name {
                    None => StatusReading::NoName,
                    Some(n) => StatusReading::Name(n),
                },
            },
        }
    }
}

/// What the caller is asked to do next.
#[derive(Debug, PartialEq, Eq)]
pub enum PowerAction {
    /// Look the instance up again and report its state.
    QueryStatus,
    /// The transition is complete; report this value.
    Finish(String),
    /// The transition failed; stop with this message.
    Abort(String),
}

pub enum PowerActionView {
    QueryStatus,
    Finish(Seq<char>),
    Abort(Seq<char>),
}

impl View for PowerAction {
    type V = PowerActionView;

    open spec fn view(&self) -> PowerActionView {
        match self {
            PowerAction::QueryStatus => PowerActionView::QueryStatus,
            PowerAction::Finish(s) => PowerActionView::Finish(s@),
            PowerAction::Abort(s) => PowerActionView::Abort(s@),
        }
    }
}

/// The answer to the start/stop request lists `changed` instances as changing
/// state (`None` when it lists none at all).
pub open spec fn after_reply(op: PowerOp, changed: Option<usize>) -> (PowerPhase, PowerActionView) {
    match changed {
        None => (PowerPhase::Aborted, PowerActionView::Abort(op.none_changed_message())),
        Some(n) => if n > 1 {
            (PowerPhase::Aborted, PowerActionView::Abort(too_many_changed_message()))
        } else {
            (PowerPhase::AwaitingFirstStatus, PowerActionView::QueryStatus)
        },
    }
}

/// A look at the instance found `reading` while in `phase`.
pub open spec fn after_status(op: PowerOp, phase: PowerPhase, reading: StatusReadingView) -> (
    PowerPhase,
    PowerActionView,
) {
    match reading {
        StatusReadingView::NoInstance => (
            PowerPhase::Aborted,
            PowerActionView::Abort(no_instance_message()),
        ),
        StatusReadingView::NoState => (
            PowerPhase::Aborted,
            PowerActionView::Abort(no_state_message()),
        ),
        StatusReadingView::NoName => (
            PowerPhase::Aborted,
            PowerActionView::Abort(no_state_name_message()),
        ),
        StatusReadingView::Name(s) => if phase == PowerPhase::Polling && s != op.transitional() && s
            != op.target() {
            (PowerPhase::Aborted, PowerActionView::Abort(op.other_status_message()))
        } else if s == op.target() {
            (PowerPhase::Finished, PowerActionView::Finish(finished_message()))
        } else {
            (PowerPhase::Polling, PowerActionView::QueryStatus)
        },
    }
}

/// One start or stop of an instance, from the request's answer to the end.
#[derive(Clone, Copy, Debug, PartialEq, Eq, Structural)]
pub struct PowerTransition {
    pub op: PowerOp,
    pub phase: PowerPhase,
}

impl PowerTransition {
    /// A transition whose request has just been sent.
    pub fn new(op: PowerOp) -> (t: PowerTransition)
        ensures
            t.op == op,
            t.phase == PowerPhase::AwaitingReply,
    {
        PowerTransition { op, phase: PowerPhase::AwaitingReply }
    }

    /// The request's answer listed `changed` instances as changing state.
    pub fn on_reply(&mut self, changed: Option<usize>) -> (a: PowerAction)
        requires
            old(self).phase == PowerPhase::AwaitingReply,
        ensures
            final(self).op == old(self).op,
            (final(self).phase, a@) == after_reply(old(self).op, changed),
    {
        match changed {
            None => {
                self.phase = PowerPhase::Aborted;
                match self.op {
                    PowerOp::Start => PowerAction::Abort(
                        String::from_str("Tried to start instance, none started!"),
                    ),
                    PowerOp::Stop => PowerAction::Abort(
                        String::from_str("Tried to stop instance, none stopped!"),
                    ),
                }
            },
            Some(n) => {
                if n > 1 {
                    self.phase = PowerPhase::Aborted;
                    PowerAction::Abort(
                        String::from_str(
                            "Started more than 1 instance! Are your tags correct? Trying to shut down all instances",
                        ),
                    )
                } else {
                    self.phase = PowerPhase::AwaitingFirstStatus;
                    PowerAction::QueryStatus
                }
            },
        }
    }

    /// A look at the instance found `reading`.
    pub fn on_status(&mut self, reading: StatusReading) -> (a: PowerAction)
        requires
            old(self).phase == PowerPhase::AwaitingFirstStatus || old(self).phase
                == PowerPhase::Polling,
        ensures
            final(self).op == old(self).op,
            (final(self).phase, a@) == after_status(old(self).op, old(self).phase, reading@),
    {
        match reading {
            StatusReading::NoInstance => {
                self.phase = PowerPhase::Aborted;
                PowerAction::Abort(
                    String::from_str("couldn't find this instance but there was none!"),
                )
            },
            StatusReading::NoState => {
                self.phase = PowerPhase::Aborted;
                PowerAction::Abort(String::from_str("expected state of instance but there was none!"))
            },
            StatusReading::NoName => {
                self.phase = PowerPhase::Aborted;
                PowerAction::Abort(String::from_str("expected state name but there was none!"))
            },
            StatusReading::Name(s) => {
                let (target, transitional) = match self.op {
                    PowerOp::Start => ("running", "pending"),
                    PowerOp::Stop => ("stopped", "stopping"),
                };
                let at_target = same_text(s.as_str(), target);
                let on_the_way = same_text(s.as_str(), transitional);
                if self.phase == PowerPhase::Polling && !on_the_way && !at_target {
                    self.phase = PowerPhase::Aborted;
                    match self.op {
                        PowerOp::Start => PowerAction::Abort(
                            String::from_str("tried to run but instead got another status!"),
                        ),
                        PowerOp::Stop => PowerAction::Abort(
                            String::from_str("tried to stop but instead got another status!"),
                        ),
                    }
                } else if at_target {
                    self.phase = PowerPhase::Finished;
                    PowerAction::Finish(String::from_str("running"))
                } else {
                    self.phase = PowerPhase::Polling;
                    PowerAction::QueryStatus
                }
            },
        }
    }
}


/// The phase reached from `phase` after the looks at the instance found
/// `readings`, in order (the readings after the transition ended are ignored).
pub open spec fn phase_after(op: PowerOp, phase: PowerPhase, readings: Seq<StatusReadingView>) -> PowerPhase
    decreases readings.len(),
{
    if readings.len() == 0 || !(phase == PowerPhase::AwaitingFirstStatus || phase
        == PowerPhase::Polling) {
        phase
    } else {
        phase_after(op, after_status(op, phase, readings[0]).0, readings.drop_first())
    }
}

/// The readings up to position `k` show a clean transition: each found a
/// state name, every one after the first (or every one, when `polling`) was
/// the transitional name, and the one at `k` is the target.
pub open spec fn clean_until(op: PowerOp, readings: Seq<StatusReadingView>, k: int, polling: bool) -> bool {
    &&& 0 <= k < readings.len()
    &&& readings[k] == StatusReadingView::Name(op.target())
    &&& forall|j: int|
        0 <= j < k ==> (#[trigger] readings[j] matches StatusReadingView::Name(n) && ((j > 0
            || polling) ==> n == op.transitional()))
}

proof fn lemma_finished_means_clean(
    op: PowerOp,
    phase: PowerPhase,
    readings: Seq<StatusReadingView>,
    polling: bool,
)
    requires
        phase == PowerPhase::AwaitingFirstStatus || phase == PowerPhase::Polling,
        polling == (phase == PowerPhase::Polling),
        phase_after(op, phase, readings) == PowerPhase::Finished,
    ensures
        exists|k: int| #[trigger] clean_until(op, readings, k, polling),
    decreases readings.len(),
{
    let next = after_status(op, phase, readings[0]).0;
    if readings[0] == StatusReadingView::Name(op.target()) {
        assert(clean_until(op, readings, 0, phase == PowerPhase::Polling));
    } else {
        assert(next == PowerPhase::Polling || next == PowerPhase::Aborted);
        if next == PowerPhase::Aborted {
            assert(phase_after(op, next, readings.drop_first()) == PowerPhase::Aborted) by {
                reveal_with_fuel(phase_after, 2);
            }
        } else {
            let rest = readings.drop_first();
            lemma_finished_means_clean(op, next, rest, true);
            let k = choose|k: int| #[trigger] clean_until(op, rest, k, true);
            assert(clean_until(op, readings, k + 1, phase == PowerPhase::Polling)) by {
                assert forall|j: int| 0 <= j < k + 1 implies (#[trigger] readings[j] matches StatusReadingView::Name(n) && ((j > 0
                    || phase == PowerPhase::Polling) ==> n == op.transitional())) by {
                    if j > 0 {
                        assert(readings[j] == rest[j - 1]);
                    }
                }
            }
        }
    }
}

proof fn lemma_clean_finishes(op: PowerOp, phase: PowerPhase, readings: Seq<StatusReadingView>, k: int)
    requires
        phase == PowerPhase::AwaitingFirstStatus || phase == PowerPhase::Polling,
        clean_until(op, readings, k, phase == PowerPhase::Polling),
    ensures
        phase_after(op, phase, readings) == PowerPhase::Finished,
    decreases readings.len(),
{
    let rest = readings.drop_first();
    if readings[0] == StatusReadingView::Name(op.target()) {
        assert(phase_after(op, PowerPhase::Finished, rest) == PowerPhase::Finished);
    } else {
        assert(k != 0);
        assert(readings[0] matches StatusReadingView::Name(n));
        assert(after_status(op, phase, readings[0]).0 == PowerPhase::Polling);
        assert(clean_until(op, rest, k - 1, true)) by {
            assert forall|j: int| 0 <= j < k - 1 implies (#[trigger] rest[j] matches StatusReadingView::Name(m) && (
            (j > 0 || true) ==> m == op.transitional())) by {
                assert(rest[j] == readings[j + 1]);
            }
            assert(rest[k - 1] == readings[k]);
        }
        lemma_clean_finishes(op, PowerPhase::Polling, rest, k - 1);
    }
}

/// A start (stop) reports success exactly when the instance is seen to reach
/// "running" ("stopped") by a clean path: after the first look found a state
/// name, every later look found "pending" ("stopping") until the target.
/// So a start is never reported done for an instance that shows any other
/// state on the way, such as one that crashes on boot.
pub proof fn lemma_finishes_iff_target_reached_cleanly(op: PowerOp, readings: Seq<StatusReadingView>)
    ensures
        phase_after(op, PowerPhase::AwaitingFirstStatus, readings) == PowerPhase::Finished
            <==> exists|k: int| #[trigger] clean_until(op, readings, k, false),
{
    if phase_after(op, PowerPhase::AwaitingFirstStatus, readings) == PowerPhase::Finished {
        lemma_finished_means_clean(op, PowerPhase::AwaitingFirstStatus, readings, false);
    }
    if exists|k: int| #[trigger] clean_until(op, readings, k, false) {
        let k = choose|k: int| #[trigger] clean_until(op, readings, k, false);
        lemma_clean_finishes(op, PowerPhase::AwaitingFirstStatus, readings, k);
    }
}

/// While polling, a state name other than the transitional one and the target
/// ends the transition as failed.
pub proof fn lemma_other_status_aborts(op: PowerOp, name: Seq<char>)
    requires
        name != op.transitional(),
        name != op.target(),
    ensures
        after_status(op, PowerPhase::Polling, StatusReadingView::Name(name)).0 == PowerPhase::Aborted,
        after_status(op, PowerPhase::Polling, StatusReadingView::Name(name)).1
            == PowerActionView::Abort(op.other_status_message()),
{
}


/// A look at the instance during a start (stop) finishes the transition
/// exactly when it found the state name "running" ("stopped"): only then is
/// the answer `Finish`, and then the transition is over. Any other reading,
/// such as "stopping" right after a stop request, is answered with a further
/// look or with a failure.
pub proof fn lemma_finish_exactly_at_target(op: PowerOp, phase: PowerPhase, reading: StatusReadingView)
    requires
        phase == PowerPhase::AwaitingFirstStatus || phase == PowerPhase::Polling,
    ensures
        after_status(op, phase, reading).1 is Finish <==> reading == StatusReadingView::Name(
            match op {
                PowerOp::Start => "running"@,
                PowerOp::Stop => "stopped"@,
            },
        ),
        after_status(op, phase, reading).1 is Finish <==> after_status(op, phase, reading).0
            == PowerPhase::Finished,
        !(after_status(op, phase, reading).1 is Finish) ==> (after_status(op, phase, reading).1
            is QueryStatus || after_status(op, phase, reading).1 is Abort),
{
}

} // verus!
