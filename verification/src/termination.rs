use vstd::prelude::*;

use crate::process::{Outcome, Process, ERROR_APP_HANG};
use crate::window::{Window, WindowInfo};

verus! {

/// Window message that asks a window to close.
pub const WM_CLOSE: u32 = 0x0010;

/// Window message that tells a window that it is being destroyed.
pub const WM_DESTROY: u32 = 0x0002;

/// Window message that asks an application to quit.
pub const WM_QUIT: u32 = 0x0012;

/// Result of a wait: the process has exited.
pub const WAIT_OBJECT_0: u32 = 0x0000_0000;

/// Result of a wait: the time ran out first.
pub const WAIT_TIMEOUT: u32 = 0x0000_0102;

/// How many kinds of close request the graceful phase tries.
pub const SIGNAL_KINDS: u32 = 3;

/// The kinds of close request, in the order in which they are tried.
#[derive(Clone, Copy, Debug, PartialEq, Eq, Structural)]
pub enum SignalKind {
    Close,
    Destroy,
    Quit,
}

/// How a wait for the process to exit ended.
#[derive(Clone, Copy, Debug, PartialEq, Eq, Structural)]
pub enum WaitResult {
    /// The process exited within the time allowed.
    Exited,
    /// The time ran out.
    TimedOut,
    /// The wait itself failed.
    Failed,
}

/// Where an attempt stands.
#[derive(Clone, Copy, Debug, PartialEq, Eq, Structural)]
pub enum Phase {
    /// Nothing has been done yet.
    Ready,
    /// The windows are being listed for a close request of the given kind.
    Listing(SignalKind),
    /// The close request of the given kind was sent and the wait is running.
    Waiting(SignalKind),
    /// The process is being terminated by force.
    Killing,
    /// The attempt is over.
    Finished(Outcome),
}

/// What has to be done next for an attempt.
#[derive(Debug)]
pub enum Step {
    /// List the windows that exist right now and report them.
    ListWindows,
    /// Post `message` to each of `windows` without waiting for an answer, then
    /// wait for the process behind `handle` to exit, `timeout_ms` at most, and
    /// report how the wait ended.
    Signal { message: u32, windows: Vec<Window>, handle: isize, timeout_ms: u32 },
    /// Terminate the process behind `handle` with `exit_code` and report
    /// whether that succeeded.
    Kill { handle: isize, exit_code: u32 },
    /// Nothing: the attempt is over with this outcome.
    Finish(Outcome),
}

/// What was observed after the last step.
#[derive(Debug)]
pub enum Event {
    /// Nothing yet: the attempt begins.
    Start,
    /// The windows that exist right now.
    Windows(Vec<WindowInfo>),
    /// How the wait ended.
    Waited(WaitResult),
    /// Whether the process was terminated.
    Killed(bool),
}

/// A step as a mathematical value.
pub enum StepView {
    ListWindows,
    Signal { message: u32, windows: Seq<Window>, handle: isize, timeout_ms: u32 },
    Kill { handle: isize, exit_code: u32 },
    Finish(Outcome),
}

/// An event as a mathematical value.
pub enum EventView {
    Start,
    Windows(Seq<WindowInfo>),
    Waited(WaitResult),
    Killed(bool),
}

impl View for Step {
    type V = StepView;

    open spec fn view(&self) -> StepView {
        match *self {
            Step::ListWindows => StepView::ListWindows,
            Step::Signal { message, windows, handle, timeout_ms } => StepView::Signal {
                message,
                windows: windows@,
                handle,
                timeout_ms,
            },
            Step::Kill { handle, exit_code } => StepView::Kill { handle, exit_code },
            Step::Finish(outcome) => StepView::Finish(outcome),
        }
    }
}

impl View for Event {
    type V = EventView;

    open spec fn view(&self) -> EventView {
        match *self {
            Event::Start => EventView::Start,
            Event::Windows(all) => EventView::Windows(all@),
            Event::Waited(result) => EventView::Waited(result),
            Event::Killed(killed) => EventView::Killed(killed),
        }
    }
}

impl StepView {
    /// For how long a step blocks the caller at most, in milliseconds. Only
    /// the wait after a close request blocks.
    pub open spec fn blocking_ms(self) -> nat {
        match self {
            StepView::Signal { timeout_ms, .. } => timeout_ms as nat,
            _ => 0,
        }
    }

    /// Whether a step asks anything of the operating system.
    pub open spec fn is_os_call(self) -> bool {
        !(self is Finish)
    }
}

impl SignalKind {
    /// The window message that carries a close request of this kind.
    pub open spec fn message(self) -> u32 {
        match self {
            SignalKind::Close => WM_CLOSE,
            SignalKind::Destroy => WM_DESTROY,
            SignalKind::Quit => WM_QUIT,
        }
    }

    /// The kind that is tried after this one, if there is one.
    pub open spec fn following(self) -> Option<SignalKind> {
        match self {
            SignalKind::Close => Some(SignalKind::Destroy),
            SignalKind::Destroy => Some(SignalKind::Quit),
            SignalKind::Quit => None,
        }
    }

    /// How many kinds are tried before this one.
    pub open spec fn position(self) -> nat {
        match self {
            SignalKind::Close => 0,
            SignalKind::Destroy => 1,
            SignalKind::Quit => 2,
        }
    }

    /// Returns the window message that carries a close request of this kind.
    pub fn to_message(self) -> (r: u32)
        ensures
            r == self.message(),
    {
        match self {
            SignalKind::Close => WM_CLOSE,
            SignalKind::Destroy => WM_DESTROY,
            SignalKind::Quit => WM_QUIT,
        }
    }

    /// Returns the kind that is tried after this one, if there is one.
    pub fn next(self) -> (r: Option<SignalKind>)
        ensures
            r == self.following(),
    {
        match self {
            SignalKind::Close => Some(SignalKind::Destroy),
            SignalKind::Destroy => Some(SignalKind::Quit),
            SignalKind::Quit => None,
        }
    }
}

impl WaitResult {
    /// Reads the result code of a wait on a process handle: the code for a
    /// signalled handle means that the process exited, the code for a timeout
    /// that the time ran out, and every other code that the wait failed.
    pub fn from_wait(code: u32) -> (r: WaitResult)
        ensures
            r == (if code == WAIT_OBJECT_0 {
                WaitResult::Exited
            } else if code == WAIT_TIMEOUT {
                WaitResult::TimedOut
            } else {
                WaitResult::Failed
            }),
    {
        if code == WAIT_OBJECT_0 {
            WaitResult::Exited
        } else if code == WAIT_TIMEOUT {
            WaitResult::TimedOut
        } else {
            WaitResult::Failed
        }
    }
}

/// The state of an attempt as a mathematical value.
pub struct Attempt {
    /// The process to terminate.
    pub process: Process,
    /// Whether close requests are tried before force is used.
    pub graceful: bool,
    /// The time that all waits together may take, in milliseconds.
    pub timeout_ms: u32,
    /// Where the attempt stands.
    pub phase: Phase,
}

impl Attempt {
    /// The time that the wait after one close request may take: an equal
    /// share of the whole time for each kind of request.
    pub open spec fn slice_ms(self) -> u32 {
        self.timeout_ms / SIGNAL_KINDS
    }

    /// The attempt ends with `outcome`. The process is not valid afterwards.
    pub open spec fn finish(self, outcome: Outcome) -> (Attempt, StepView) {
        (
            Attempt { process: self.process.invalidated(), phase: Phase::Finished(outcome), ..self },
            StepView::Finish(outcome),
        )
    }

    /// The windows are listed for a close request of the kind `kind`.
    pub open spec fn list(self, kind: SignalKind) -> (Attempt, StepView) {
        (Attempt { phase: Phase::Listing(kind), ..self }, StepView::ListWindows)
    }

    /// The process is terminated by force.
    pub open spec fn forceful(self) -> (Attempt, StepView) {
        (
            Attempt { phase: Phase::Killing, ..self },
            StepView::Kill { handle: self.process.raw_handle(), exit_code: ERROR_APP_HANG },
        )
    }

    /// The close request of the kind `kind` did not make the process exit:
    /// the next kind is tried, and force is used when there is none left.
    pub open spec fn give_up(self, kind: SignalKind) -> (Attempt, StepView) {
        match kind.following() {
            Some(next) => self.list(next),
            None => self.forceful(),
        }
    }

    /// The state after `event` and the step to take then.
    ///
    /// An attempt that is over stays as it is. An attempt on a process that is
    /// not valid fails at once, with nothing asked of the operating system.
    /// Otherwise:
    /// - at the start, close requests come first if they are enabled, force
    ///   if they are not;
    /// - when the windows have been listed, the request goes to the top-level
    ///   enabled windows of the process and the wait begins, unless there is
    ///   no such window, in which case this kind of request is given up;
    /// - when the wait has ended, the attempt succeeds if the process exited,
    ///   and this kind of request is given up if not;
    /// - when force has been used, the attempt ends as `Forced` or `Failed`.
    /// An event that does not answer the last step counts as a failure of
    /// that step.
    pub open spec fn react(self, event: EventView) -> (Attempt, StepView) {
        match self.phase {
            Phase::Finished(outcome) => (self, StepView::Finish(outcome)),
            _ => if !self.process.is_valid() {
                self.finish(Outcome::Failed)
            } else {
                match self.phase {
                    Phase::Ready => if self.graceful {
                        self.list(SignalKind::Close)
                    } else {
                        self.forceful()
                    },
                    Phase::Listing(kind) => match event {
                        EventView::Windows(all) => {
                            let targets = Window::targets_of(self.process.pid(), all);
                            if targets.len() > 0 {
                                (
                                    Attempt { phase: Phase::Waiting(kind), ..self },
                                    StepView::Signal {
                                        message: kind.message(),
                                        windows: targets,
                                        handle: self.process.raw_handle(),
                                        timeout_ms: self.slice_ms(),
                                    },
                                )
                            } else {
                                self.give_up(kind)
                            }
                        },
                        _ => self.give_up(kind),
                    },
                    Phase::Waiting(kind) => match event {
                        EventView::Waited(WaitResult::Exited) => self.finish(Outcome::Success),
                        _ => self.give_up(kind),
                    },
                    Phase::Killing => match event {
                        EventView::Killed(killed) => self.finish(
                            self.process.kill_outcome(killed),
                        ),
                        _ => self.finish(Outcome::Failed),
                    },
                    Phase::Finished(outcome) => (self, StepView::Finish(outcome)),
                }
            },
        }
    }

    /// The steps that the attempt takes when `events` arrive one after the
    /// other.
    pub open spec fn run(self, events: Seq<EventView>) -> Seq<StepView>
        decreases events.len(),
    {
        if events.len() == 0 {
            Seq::<StepView>::empty()
        } else {
            let (next, step) = self.react(events[0]);
            seq![step] + next.run(events.drop_first())
        }
    }

    /// How many waits the attempt may still begin.
    pub open spec fn waits_left(self) -> nat {
        if !self.process.is_valid() {
            0
        } else {
            match self.phase {
                Phase::Ready => if self.graceful {
                    SIGNAL_KINDS as nat
                } else {
                    0
                },
                Phase::Listing(kind) => (SIGNAL_KINDS - kind.position()) as nat,
                Phase::Waiting(kind) => (SIGNAL_KINDS - kind.position() - 1) as nat,
                _ => 0,
            }
        }
    }
}

/// The time for which the steps `steps` block the caller at most, all
/// together, in milliseconds.
pub open spec fn total_blocking_ms(steps: Seq<StepView>) -> nat
    decreases steps.len(),
{
    if steps.len() == 0 {
        0
    } else {
        steps[0].blocking_ms() + total_blocking_ms(steps.drop_first())
    }
}

/// An attempt that is over stays over: whatever is reported to it, it keeps
/// its state and its outcome, and asks for nothing.
pub proof fn lemma_finished_is_final(attempt: Attempt, outcome: Outcome, event: EventView)
    requires
        attempt.phase == Phase::Finished(outcome),
    ensures
        attempt.react(event) == (attempt, StepView::Finish(outcome)),
{
}

/// When an attempt ends, its process is no longer valid.
pub proof fn lemma_finish_invalidates(attempt: Attempt, event: EventView)
    requires
        !(attempt.phase is Finished),
    ensures
        attempt.react(event).0.phase is Finished ==> !attempt.react(event).0.process.is_valid(),
        attempt.react(event).1 is Finish <==> attempt.react(event).0.phase is Finished,
{
    crate::process::lemma_invalidated(attempt.process);
}

/// An attempt on a process that is no longer valid fails without anything
/// being asked of the operating system, whatever is reported to it. This
/// holds in particular of a second attempt on a process after a first one has
/// ended.
pub proof fn lemma_invalid_process_fails(attempt: Attempt, event: EventView)
    requires
        !attempt.process.is_valid(),
        !(attempt.phase is Finished),
    ensures
        attempt.react(event).1 == StepView::Finish(Outcome::Failed),
        attempt.react(event).0.phase == Phase::Finished(Outcome::Failed),
        !attempt.react(event).1.is_os_call(),
{
}

/// A second attempt on the process of an attempt that has ended fails at
/// once: its first step is to finish as `Failed`.
pub proof fn lemma_second_attempt_fails(
    first: Attempt,
    last: EventView,
    graceful: bool,
    timeout_ms: u32,
    event: EventView,
)
    requires
        !(first.phase is Finished),
        first.react(last).0.phase is Finished,
    ensures
        Termination::initial(Some(first.react(last).0.process), graceful, timeout_ms).react(
            event,
        ).1 == StepView::Finish(Outcome::Failed),
{
    lemma_finish_invalidates(first, last);
}

/// Without a target the attempt is over before it begins: its outcome is
/// `NoTarget` and every step is to finish with it.
pub proof fn lemma_no_target(graceful: bool, timeout_ms: u32, event: EventView)
    ensures
        Termination::initial(None, graceful, timeout_ms).react(event).1 == StepView::Finish(
            Outcome::NoTarget,
        ),
        Termination::initial(None, graceful, timeout_ms).react(event).0 == Termination::initial(
            None,
            graceful,
            timeout_ms,
        ),
{
}

/// No step changes the settings of an attempt or swaps its process for
/// another: the time allowed and the choice of close requests stay, and so do
/// the id and the handle of the process.
pub proof fn lemma_settings_stay(attempt: Attempt, event: EventView)
    ensures
        attempt.react(event).0.graceful == attempt.graceful,
        attempt.react(event).0.timeout_ms == attempt.timeout_ms,
        attempt.react(event).0.process.pid() == attempt.process.pid(),
        attempt.react(event).0.process.raw_handle() == attempt.process.raw_handle(),
{
    crate::process::lemma_invalidated(attempt.process);
}

/// Each step uses up what it blocks for: the waits that may still begin after
/// a step, together with a wait that the step itself begins, are no more than
/// the waits that could begin before it; and a wait takes one share of the
/// time.
pub proof fn lemma_step_uses_budget(attempt: Attempt, event: EventView)
    ensures
        attempt.react(event).1.blocking_ms() == 0 || attempt.react(event).1.blocking_ms()
            == attempt.slice_ms(),
        attempt.react(event).1.blocking_ms() == 0 ==> attempt.react(event).0.waits_left()
            <= attempt.waits_left(),
        attempt.react(event).1.blocking_ms() != 0 ==> attempt.react(event).0.waits_left() + 1
            <= attempt.waits_left(),
{
    crate::process::lemma_invalidated(attempt.process);
}

/// However an attempt goes, the waits after close requests never take more
/// than one share of the time for each wait that may still begin.
pub proof fn lemma_blocking_within_waits_left(attempt: Attempt, events: Seq<EventView>)
    ensures
        total_blocking_ms(attempt.run(events)) <= attempt.waits_left() * attempt.slice_ms(),
    decreases events.len(),
{
    if events.len() > 0 {
        let (next, step) = attempt.react(events[0]);
        let rest = next.run(events.drop_first());
        lemma_step_uses_budget(attempt, events[0]);
        lemma_settings_stay(attempt, events[0]);
        lemma_blocking_within_waits_left(next, events.drop_first());
        assert(attempt.run(events) == seq![step] + rest);
        assert((seq![step] + rest).drop_first() =~= rest);
        assert(total_blocking_ms(attempt.run(events)) == step.blocking_ms() + total_blocking_ms(
            rest,
        ));
        assert(next.slice_ms() == attempt.slice_ms());
        let slice = attempt.slice_ms() as int;
        let before = attempt.waits_left() as int;
        let after = next.waits_left() as int;
        if step.blocking_ms() == 0 {
            assert(after * slice <= before * slice) by (nonlinear_arith)
                requires
                    0 <= after <= before,
                    0 <= slice,
            ;
        } else {
            assert(slice + after * slice <= before * slice) by (nonlinear_arith)
                requires
                    0 <= after,
                    after + 1 <= before,
                    0 <= slice,
            ;
        }
    } else {
        assert(attempt.waits_left() * attempt.slice_ms() >= 0) by (nonlinear_arith)
            requires
                attempt.waits_left() >= 0,
                attempt.slice_ms() >= 0,
        ;
    }
}

/// The time budget: however an attempt goes, all its waits together block for
/// no longer than the time that was allowed for them. Each kind of close
/// request gets an equal share, so that the number of kinds does not matter.
pub proof fn lemma_timeout_budget(
    target: Option<Process>,
    graceful: bool,
    timeout_ms: u32,
    events: Seq<EventView>,
)
    ensures
        total_blocking_ms(Termination::initial(target, graceful, timeout_ms).run(events))
            <= timeout_ms,
{
    let attempt = Termination::initial(target, graceful, timeout_ms);
    lemma_blocking_within_waits_left(attempt, events);
    let slice = attempt.slice_ms() as int;
    let waits = attempt.waits_left() as int;
    assert(waits <= 3);
    assert(slice == timeout_ms as int / 3);
    assert(waits * slice <= timeout_ms) by (nonlinear_arith)
        requires
            0 <= waits <= 3,
            slice == timeout_ms as int / 3,
            0 <= timeout_ms,
    ;
}

/// Equal shares never add up to more than the whole: however many kinds of
/// close request there are, if each gets the same share of the time, rounded
/// down, then all shares together fit into the time.
pub proof fn lemma_equal_shares_fit(timeout_ms: nat, kinds: nat)
    requires
        kinds > 0,
    ensures
        kinds * (timeout_ms / kinds) <= timeout_ms,
{
    assert(kinds * (timeout_ms / kinds) <= timeout_ms) by (nonlinear_arith)
        requires
            kinds > 0,
            timeout_ms >= 0,
    ;
}

/// With close requests disabled the attempt goes straight to force: its first
/// step is to terminate the process, and no step of it ever lists windows,
/// sends a request or waits.
pub proof fn lemma_without_grace(process: Process, timeout_ms: u32, events: Seq<EventView>)
    requires
        process.is_valid(),
    ensures
        events.len() > 0 ==> Termination::initial(Some(process), false, timeout_ms).run(events)[0]
            == (StepView::Kill { handle: process.raw_handle(), exit_code: ERROR_APP_HANG }),
        forall|i: int|
            0 <= i < Termination::initial(Some(process), false, timeout_ms).run(events).len()
                ==> {
                let step = #[trigger] Termination::initial(Some(process), false, timeout_ms).run(
                    events,
                )[i];
                step is Kill || step is Finish
            },
{
    let attempt = Termination::initial(Some(process), false, timeout_ms);
    lemma_forceful_only(attempt, events);
}

/// An attempt that uses no close requests, or has none left to try, takes
/// only forceful and final steps.
proof fn lemma_forceful_only(attempt: Attempt, events: Seq<EventView>)
    requires
        attempt.waits_left() == 0,
        !(attempt.phase is Listing),
        !(attempt.phase is Waiting),
    ensures
        attempt.run(events).len() == events.len(),
        forall|i: int|
            0 <= i < attempt.run(events).len() ==> {
                let step = #[trigger] attempt.run(events)[i];
                step is Kill || step is Finish
            },
    decreases events.len(),
{
    if events.len() > 0 {
        let (next, step) = attempt.react(events[0]);
        crate::process::lemma_invalidated(attempt.process);
        lemma_forceful_only(next, events.drop_first());
        assert(attempt.run(events) == seq![step] + next.run(events.drop_first()));
    }
}

/// One attempt to terminate the process that owns a window: close requests
/// first, if they are enabled, then force.
///
/// The attempt does nothing by itself. `advance` takes what was observed after
/// the last step and says which step comes next, until that step is `Finish`.
pub struct Termination {
    process: Process,
    graceful: bool,
    timeout_ms: u32,
    phase: Phase,
}

impl View for Termination {
    type V = Attempt;

    closed spec fn view(&self) -> Attempt {
        Attempt {
            process: self.process,
            graceful: self.graceful,
            timeout_ms: self.timeout_ms,
            phase: self.phase,
        }
    }
}

impl Termination {
    /// The state in which an attempt on `target` begins. Without a target the
    /// attempt is over before it began, with the outcome `NoTarget`.
    pub open spec fn initial(target: Option<Process>, graceful: bool, timeout_ms: u32) -> Attempt {
        match target {
            Some(process) => Attempt { process, graceful, timeout_ms, phase: Phase::Ready },
            None => Attempt {
                process: Process::nothing(),
                graceful,
                timeout_ms,
                phase: Phase::Finished(Outcome::NoTarget),
            },
        }
    }

    /// Prepares an attempt to terminate `target`, the process that owns the
    /// window that was pointed at or focused; `None` if there was no such
    /// window. `graceful` says whether close requests are tried first, and
    /// `timeout_ms` how long all waits after them may take together.
    pub fn new(target: Option<Process>, graceful: bool, timeout_ms: u32) -> (r: Self)
        ensures
            r@ == Self::initial(target, graceful, timeout_ms),
    {
        match target {
            Some(process) => Self { process, graceful, timeout_ms, phase: Phase::Ready },
            None => Self {
                process: Process::none(),
                graceful,
                timeout_ms,
                phase: Phase::Finished(Outcome::NoTarget),
            },
        }
    }

    /// Returns the process of this attempt.
    pub fn process(&self) -> (r: &Process)
        ensures
            *r == self@.process,
    {
        &self.process
    }

    /// Ends the work on this attempt and gives its process back. After an
    /// attempt that is over the process is not valid.
    pub fn into_process(self) -> (r: Process)
        ensures
            r == self@.process,
    {
        self.process
    }

    /// Returns where the attempt stands.
    pub fn phase(&self) -> (r: Phase)
        ensures
            r == self@.phase,
    {
        self.phase
    }

    /// Returns the outcome of the attempt, once it is over.
    pub fn outcome(&self) -> (r: Option<Outcome>)
        ensures
            r == (match self@.phase {
                Phase::Finished(outcome) => Some(outcome),
                _ => None,
            }),
    {
        match self.phase {
            Phase::Finished(outcome) => Some(outcome),
            _ => None,
        }
    }

    /// Returns the time that the wait after one close request may take.
    pub fn slice_ms(&self) -> (r: u32)
        ensures
            r == self@.slice_ms(),
    {
        self.timeout_ms / SIGNAL_KINDS
    }

    fn finish(&mut self, outcome: Outcome) -> (step: Step)
        ensures
            (final(self)@, step@) == old(self)@.finish(outcome),
    {
        self.process.invalidate();
        self.phase = Phase::Finished(outcome);
        Step::Finish(outcome)
    }

    fn list(&mut self, kind: SignalKind) -> (step: Step)
        ensures
            (final(self)@, step@) == old(self)@.list(kind),
    {
        self.phase = Phase::Listing(kind);
        Step::ListWindows
    }

    fn forceful(&mut self) -> (step: Step)
        ensures
            (final(self)@, step@) == old(self)@.forceful(),
    {
        self.phase = Phase::Killing;
        Step::Kill { handle: self.process.handle(), exit_code: ERROR_APP_HANG }
    }

    fn give_up(&mut self, kind: SignalKind) -> (step: Step)
        ensures
            (final(self)@, step@) == old(self)@.give_up(kind),
    {
        match kind.next() {
            Some(next) => self.list(next),
            None => self.forceful(),
        }
    }

    /// Takes the attempt one step further: `event` is what was observed after
    /// the last step, and the result is the step to take now.
    pub fn advance(&mut self, event: Event) -> (step: Step)
        ensures
            (final(self)@, step@) == old(self)@.react(event@),
    {
        if let Phase::Finished(outcome) = self.phase {
            return Step::Finish(outcome);
        }
        if !self.process.valid() {
            return self.finish(Outcome::Failed);
        }
        match self.phase {
            Phase::Ready => {
                if self.graceful {
                    self.list(SignalKind::Close)
                } else {
                    self.forceful()
                }
            },
            Phase::Listing(kind) => match event {
                Event::Windows(all) => {
                    let targets = Window::top_level_enabled_windows_of(self.process.id(), &all);
                    if targets.len() > 0 {
                        self.phase = Phase::Waiting(kind);
                        Step::Signal {
                            message: kind.to_message(),
                            windows: targets,
                            handle: self.process.handle(),
                            timeout_ms: self.slice_ms(),
                        }
                    } else {
                        self.give_up(kind)
                    }
                },
                _ => self.give_up(kind),
            },
            Phase::Waiting(kind) => match event {
                Event::Waited(WaitResult::Exited) => self.finish(Outcome::Success),
                _ => self.give_up(kind),
            },
            Phase::Killing => match event {
                Event::Killed(killed) => {
                    let outcome = self.process.terminate(killed);
                    self.phase = Phase::Finished(outcome);
                    Step::Finish(outcome)
                },
                _ => self.finish(Outcome::Failed),
            },
            Phase::Finished(outcome) => Step::Finish(outcome),
        }
    }
}

} // verus!
