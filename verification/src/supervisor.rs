//! The trigger supervisor: launch one task per trigger type, wait for the first to end,
//! stop the rest.
//!
//! The supervisor decides and the host acts. The host asks for the action to take, carries
//! it out, and reports what happened as an [`Event`]; [`Supervisor::handle`] gives the
//! next action. Tasks are numbered in the order of their launch, from zero.
//!
//! A failed launch ends the run at once: no further trigger is launched, and the tasks
//! launched before are stopped.

use vstd::prelude::*;
use crate::trigger::TriggerKind;

verus! {

/// What happened on the host's side.
pub enum Event<E> {
    /// The trigger that was to be launched is running.
    Launched,
    /// The trigger that was to be launched could not be started.
    LaunchFailed(E),
    /// A running task has ended.
    Exited { task: usize, result: Result<(), E> },
    /// An outside signal asks the run to stop.
    Cancelled,
}

/// What the host is to do next.
#[derive(Clone, Copy, Debug, PartialEq, Eq, Structural)]
pub enum Action {
    /// Start a task for this trigger type, then report `Launched` or `LaunchFailed`.
    Launch(TriggerKind),
    /// Wait until a task ends or a stop is asked for, then report it.
    Wait,
    /// Stop every task that still runs, release what it holds, and report the verdict.
    Stop,
    /// Nothing: the event changed nothing.
    Ignore,
}

/// How a run ended.
#[derive(Debug, PartialEq, Eq)]
pub enum Verdict<E> {
    /// Task `task`, running a trigger of kind `kind`, was the first to end, with `result`.
    Finished { task: usize, kind: TriggerKind, result: Result<(), E> },
    /// The trigger of kind `kind` could not be started.
    LaunchFailed { kind: TriggerKind, error: E },
    /// The run was stopped from outside. This is no failure.
    Cancelled,
}

/// The three states of a run.
#[derive(Clone, Copy, Debug, PartialEq, Eq, Structural)]
pub enum Phase {
    Launching,
    Racing,
    Terminated,
}

/// The mathematical value of a [`Supervisor`]: the trigger types to run, how many of them
/// have a running task, and the verdict once there is one.
pub ghost struct SupervisorModel<E> {
    pub kinds: Seq<TriggerKind>,
    pub launched: nat,
    pub verdict: Option<Verdict<E>>,
}

impl<E> SupervisorModel<E> {
    /// No trigger type occurs twice, and no more tasks run than there are types.
    pub open spec fn wf(self) -> bool {
        &&& self.kinds.no_duplicates()
        &&& self.launched <= self.kinds.len()
    }

    /// The supervisor before the first launch.
    pub open spec fn initial(kinds: Seq<TriggerKind>) -> Self {
        SupervisorModel { kinds, launched: 0, verdict: None }
    }

    pub open spec fn phase(self) -> Phase {
        if self.verdict is Some {
            Phase::Terminated
        } else if self.launched < self.kinds.len() {
            Phase::Launching
        } else {
            Phase::Racing
        }
    }

    /// The action that is due in this state.
    pub open spec fn due(self) -> Action {
        match self.phase() {
            Phase::Launching => Action::Launch(self.kinds[self.launched as int]),
            Phase::Racing => Action::Wait,
            Phase::Terminated => Action::Stop,
        }
    }

    /// The state with the given verdict.
    pub open spec fn ended(self, verdict: Verdict<E>) -> Self {
        SupervisorModel { verdict: Some(verdict), ..self }
    }

    /// The state after an event, and the action that answers it.
    ///
    /// After the verdict nothing changes. Before it, the first task to end decides the
    /// verdict, a failed launch or a stop request ends the run, and a successful launch
    /// leads to the next launch or, after the last, to the race. A report that fits no
    /// task and no pending launch is ignored.
    pub open spec fn step(self, event: Event<E>) -> (Self, Action) {
        if self.verdict is Some {
            (self, Action::Ignore)
        } else {
            match event {
                Event::Launched => if self.launched < self.kinds.len() {
                    let next = SupervisorModel { launched: self.launched + 1, ..self };
                    (next, next.due())
                } else {
                    (self, Action::Ignore)
                },
                Event::LaunchFailed(error) => if self.launched < self.kinds.len() {
                    (
                        self.ended(
                            Verdict::LaunchFailed { kind: self.kinds[self.launched as int], error },
                        ),
                        Action::Stop,
                    )
                } else {
                    (self, Action::Ignore)
                },
                Event::Exited { task, result } => if task < self.launched {
                    (
                        self.ended(Verdict::Finished { task, kind: self.kinds[task as int], result }),
                        Action::Stop,
                    )
                } else {
                    (self, Action::Ignore)
                },
                Event::Cancelled => (self.ended(Verdict::Cancelled), Action::Stop),
            }
        }
    }

    /// Whether task `task` is one that the host must stop: the run is over, the task
    /// was launched, and it is not the one whose end decided the verdict.
    pub open spec fn cancelled(self, task: int) -> bool {
        &&& self.verdict is Some
        &&& 0 <= task < self.launched
        &&& match self.verdict->0 {
            Verdict::Finished { task: first, .. } => task != first,
            _ => true,
        }
    }
}

/// A step keeps a well-formed state well-formed and never changes the trigger types.
pub proof fn lemma_step_preserves<E>(s: SupervisorModel<E>, event: Event<E>)
    requires
        s.wf(),
    ensures
        s.step(event).0.wf(),
        s.step(event).0.kinds == s.kinds,
        s.step(event).0.launched >= s.launched,
{
}

/// First exit wins. While no verdict is set, the end of a running task sets it: the
/// verdict is that task's own result, tagged with its trigger type; every other running
/// task is to be stopped, the finished one is not; and whatever is reported afterwards,
/// the end of another task included, changes nothing.
pub proof fn lemma_first_exit_wins<E>(
    s: SupervisorModel<E>,
    task: usize,
    result: Result<(), E>,
    later: Event<E>,
)
    requires
        s.wf(),
        s.verdict is None,
        task < s.launched,
    ensures
        ({
            let (after, action) = s.step(Event::Exited { task, result });
            &&& after.verdict == Some(
                Verdict::Finished { task, kind: s.kinds[task as int], result },
            )
            &&& action == Action::Stop
            &&& after.phase() == Phase::Terminated
            &&& forall|other: int|
                0 <= other < s.launched && other != task ==> #[trigger] after.cancelled(other)
            &&& !after.cancelled(task as int)
            &&& after.step(later) == (after, Action::Ignore)
        }),
{
}

/// A failed launch ends the run without a further launch, and every task launched
/// before is to be stopped.
pub proof fn lemma_launch_failure_is_fatal<E>(s: SupervisorModel<E>, error: E, later: Event<E>)
    requires
        s.wf(),
        s.phase() == Phase::Launching,
    ensures
        ({
            let (after, action) = s.step(Event::LaunchFailed(error));
            &&& after.verdict == Some(
                Verdict::LaunchFailed { kind: s.kinds[s.launched as int], error },
            )
            &&& action == Action::Stop
            &&& after.launched == s.launched
            &&& forall|task: int| 0 <= task < s.launched ==> #[trigger] after.cancelled(task)
            &&& after.step(later) == (after, Action::Ignore)
        }),
{
}

/// Launching `n` trigger types takes exactly `n` successful launches, one per type and
/// in the order of the launch set; then the race begins.
pub proof fn lemma_launches_in_order<E>(s: SupervisorModel<E>)
    requires
        s.wf(),
        s.phase() == Phase::Launching,
    ensures
        s.due() == Action::Launch(s.kinds[s.launched as int]),
        s.step(Event::Launched).0.launched == s.launched + 1,
        s.step(Event::Launched).0.verdict is None,
        s.launched + 1 < s.kinds.len() ==> s.step(Event::Launched).1 == Action::Launch(
            s.kinds[(s.launched + 1) as int],
        ),
        s.launched + 1 == s.kinds.len() ==> s.step(Event::Launched).1 == Action::Wait
            && s.step(Event::Launched).0.phase() == Phase::Racing,
{
}

/// Runs the triggers of one application and decides how the run ends.
pub struct Supervisor<E> {
    kinds: Vec<TriggerKind>,
    launched: usize,
    verdict: Option<Verdict<E>>,
}

impl<E> View for Supervisor<E> {
    type V = SupervisorModel<E>;

    closed spec fn view(&self) -> SupervisorModel<E> {
        SupervisorModel {
            kinds: self.kinds@,
            launched: self.launched as nat,
            verdict: self.verdict,
        }
    }
}

/// Whether no trigger type occurs twice in `kinds`.
pub fn all_distinct(kinds: &Vec<TriggerKind>) -> (distinct: bool)
    ensures
        distinct == kinds@.no_duplicates(),
{
    let mut i: usize = 0;
    while i < kinds.len()
        invariant
            i <= kinds.len(),
            forall|a: int, b: int| 0 <= a < b < i ==> kinds[a] != kinds[b],
        decreases kinds.len() - i,
    {
        let mut j: usize = 0;
        while j < i
            invariant
                j <= i < kinds.len(),
                forall|a: int| 0 <= a < j ==> kinds[a] != kinds[i as int],
            decreases i - j,
        {
            if kinds[j] == kinds[i] {
                return false;
            }
            j += 1;
        }
        i += 1;
    }
    true
}

impl<E> Supervisor<E> {
    #[verifier::type_invariant]
    spec fn well_formed(self) -> bool {
        self@.wf() && self.kinds.len() > 0
    }

    /// A supervisor for the given launch set, before the first launch. There is none for
    /// an empty set, nor for one that names a trigger type twice.
    pub fn new(kinds: Vec<TriggerKind>) -> (supervisor: Option<Supervisor<E>>)
        ensures
            supervisor is Some <==> kinds@.len() > 0 && kinds@.no_duplicates(),
            supervisor is Some ==> supervisor->0@ == SupervisorModel::<E>::initial(kinds@),
    {
        if kinds.len() == 0 || !all_distinct(&kinds) {
            None
        } else {
            Some(Supervisor { kinds, launched: 0, verdict: None })
        }
    }

    pub fn phase(&self) -> (phase: Phase)
        ensures
            phase == self@.phase(),
    {
        if self.verdict.is_some() {
            Phase::Terminated
        } else if self.launched < self.kinds.len() {
            Phase::Launching
        } else {
            Phase::Racing
        }
    }

    /// The action that is due now.
    pub fn due(&self) -> (action: Action)
        ensures
            action == self@.due(),
    {
        proof {
            use_type_invariant(self);
        }
        match self.phase() {
            Phase::Launching => Action::Launch(self.kinds[self.launched]),
            Phase::Racing => Action::Wait,
            Phase::Terminated => Action::Stop,
        }
    }

    /// Takes in what the host reports and says what to do next.
    pub fn handle(&mut self, event: Event<E>) -> (action: Action)
        ensures
            final(self)@ == old(self)@.step(event).0,
            action == old(self)@.step(event).1,
    {
        proof {
            use_type_invariant(&*self);
        }
        if self.verdict.is_some() {
            return Action::Ignore;
        }
        match event {
            Event::Launched => {
                if self.launched < self.kinds.len() {
                    self.launched = self.launched + 1;
                    self.due()
                } else {
                    Action::Ignore
                }
            },
            Event::LaunchFailed(error) => {
                if self.launched < self.kinds.len() {
                    let kind = self.kinds[self.launched];
                    self.verdict = Some(Verdict::LaunchFailed { kind, error });
                    Action::Stop
                } else {
                    Action::Ignore
                }
            },
            Event::Exited { task, result } => {
                if task < self.launched {
                    let kind = self.kinds[task];
                    self.verdict = Some(Verdict::Finished { task, kind, result });
                    Action::Stop
                } else {
                    Action::Ignore
                }
            },
            Event::Cancelled => {
                self.verdict = Some(Verdict::Cancelled);
                Action::Stop
            },
        }
    }

    /// How many tasks were launched.
    pub fn launched(&self) -> (count: usize)
        ensures
            count == self@.launched,
    {
        self.launched
    }

    /// The trigger type that task `task` runs.
    pub fn kind_of_task(&self, task: usize) -> (kind: Option<TriggerKind>)
        ensures
            kind == if task < self@.launched {
                Some(self@.kinds[task as int])
            } else {
                None
            },
    {
        proof {
            use_type_invariant(self);
        }
        if task < self.launched {
            Some(self.kinds[task])
        } else {
            None
        }
    }

    /// The verdict, once the run is over.
    pub fn verdict(&self) -> (verdict: Option<&Verdict<E>>)
        ensures
            verdict is Some == self@.verdict is Some,
            verdict is Some ==> *verdict->0 == self@.verdict->0,
    {
        self.verdict.as_ref()
    }

    /// Hands the verdict over, and with it the error that it carries.
    pub fn into_verdict(self) -> (verdict: Option<Verdict<E>>)
        ensures
            verdict == self@.verdict,
    {
        self.verdict
    }

    /// Whether the host must stop task `task`.
    pub fn is_cancelled(&self, task: usize) -> (cancelled: bool)
        ensures
            cancelled == self@.cancelled(task as int),
    {
        match &self.verdict {
            None => false,
            Some(Verdict::Finished { task: first, .. }) => task < self.launched && task != *first,
            Some(_) => task < self.launched,
        }
    }

    /// The tasks that the host must stop, in the order of their launch.
    pub fn cancelled_tasks(&self) -> (tasks: Vec<usize>)
        ensures
            forall|task: usize| tasks@.contains(task) <==> self@.cancelled(task as int),
            forall|a: int, b: int| 0 <= a < b < tasks.len() ==> tasks[a] < tasks[b],
    {
        let mut tasks: Vec<usize> = Vec::new();
        let mut task: usize = 0;
        while task < self.launched
            invariant
                task <= self.launched,
                forall|t: usize| tasks@.contains(t) <==> t < task && self@.cancelled(t as int),
                forall|a: int| 0 <= a < tasks.len() ==> tasks[a] < task,
                forall|a: int, b: int| 0 <= a < b < tasks.len() ==> tasks[a] < tasks[b],
            decreases self.launched - task,
        {
            if self.is_cancelled(task) {
                let ghost before = tasks@;
                tasks.push(task);
                assert forall|t: usize| tasks@.contains(t) <==> t < task + 1 && self@.cancelled(
                    t as int,
                ) by {
                    if tasks@.contains(t) {
                        let at = choose|at: int| 0 <= at < tasks.len() && tasks[at] == t;
                        if at < before.len() {
                            assert(before.contains(t));
                        }
                    }
                    if t < task + 1 && self@.cancelled(t as int) {
                        if t == task {
                            assert(tasks[tasks.len() - 1] == t);
                        } else {
                            assert(before.contains(t));
                            let at = choose|at: int| 0 <= at < before.len() && before[at] == t;
                            assert(tasks[at] == t);
                        }
                    }
                }
            }
            task += 1;
        }
        tasks
    }
}

} // verus!
