//! The task executor.
//!
//! A task hosts one computation on the reactor. It owns the computation while
//! the computation is not being advanced, the identity of the poller that was
//! registered for it, and the slot through which its output reaches a
//! [`JoinHandle`]. One task of an executor may be the root task: its output is
//! the final output of the whole run, and its completion stops the reactor.
//!
//! The executor never advances a computation itself. On a tick of a task's
//! poller the surrounding program asks for the computation with
//! [`Executor::begin_poll`], advances it one step, and reports what came of it
//! with [`Executor::finish_poll`], which decides what happens to the task, to
//! its poller and to the reactor.

use crate::bridge::{poll_of, Poll};
use crate::complete::{notified, CompletionSlot, SlotState};
use crate::reactor::{PollerId, Reactor, ReactorView};
use crate::slab::{Key, Slab};
use crate::waker::WakeToken;
use vstd::prelude::*;

verus! {

/// Identity of a task. It names one task for as long as the executor holds
/// that task, and no task after that.
#[derive(Clone, Copy, Debug, PartialEq, Eq, Hash, Structural)]
pub struct TaskId {
    pub key: Key,
}

#[derive(Clone, Copy, Debug, PartialEq, Eq, Structural)]
pub enum TaskState {
    /// Spawned, not advanced yet.
    Created,
    /// Its computation is being advanced.
    Running,
    /// Advanced at least once, and waiting to be advanced again.
    Suspended,
    /// Its computation has produced its output.
    Completed,
}

/// What one step of a computation came to.
pub enum Step<C, T> {
    /// Not done: the computation as it stands after the step.
    Pending(C),
    /// Done, with the output.
    Ready(T),
}

/// What became of a task in `finish_poll`.
#[derive(Clone, Copy, Debug, PartialEq, Eq, Structural)]
pub enum PollOutcome {
    /// The computation is not done: its poller was paused.
    Paused,
    /// The computation is done: its poller was unregistered.
    Finished,
    /// The root computation is done: its poller was unregistered and the
    /// reactor was stopped.
    FinishedAndStopped,
}

/// What `finish_poll` did, for the one who has to do the same to the native
/// pollers.
#[derive(Clone, Copy, Debug, PartialEq, Eq)]
pub struct PollReport {
    /// What became of the task and its poller.
    pub outcome: PollOutcome,
    /// The token that was invoked: that of the computation which waited for
    /// the task's output.
    pub woken: Option<WakeToken>,
}

/// What a task is, as a mathematical value.
pub struct TaskView<C, T> {
    /// The poller registered for the task.
    pub poller: PollerId,
    /// Whether this is the root task.
    pub root: bool,
    /// Whether its join handle was given up.
    pub detached: bool,
    /// Whether the computation has been advanced at least once.
    pub started: bool,
    /// The computation, while it is neither being advanced nor done.
    pub computation: Option<C>,
    /// The slot that carries the output to the join handle.
    pub output: SlotState<T>,
}

impl<C, T> TaskView<C, T> {
    pub open spec fn state(self) -> TaskState {
        if !self.output.pending() {
            TaskState::Completed
        } else if self.computation is None {
            TaskState::Running
        } else if self.started {
            TaskState::Suspended
        } else {
            TaskState::Created
        }
    }

    /// The wake token of the task: the one bound to its poller.
    pub open spec fn waker(self) -> WakeToken {
        WakeToken { poller: self.poller }
    }

    /// A task as `spawn` makes it.
    pub open spec fn fresh(poller: PollerId, root: bool, computation: C) -> TaskView<C, T> {
        TaskView {
            poller,
            root,
            detached: false,
            started: false,
            computation: Some(computation),
            output: SlotState::Empty,
        }
    }
}

/// What an executor is, as a mathematical value.
pub struct ExecutorView<C, T> {
    /// The tasks that the executor holds.
    pub tasks: Map<TaskId, TaskView<C, T>>,
    /// The root task, once one was spawned; it stays named here after it is done.
    pub root: Option<TaskId>,
    /// The output of the root task, from its completion until it is taken.
    pub final_output: Option<T>,
    /// Every identity that was ever given to a task, held still or not.
    pub issued: Set<TaskId>,
}

impl<C, T> ExecutorView<C, T> {
    /// An executor without tasks.
    pub open spec fn initial() -> ExecutorView<C, T> {
        ExecutorView { tasks: Map::empty(), root: None, final_output: None, issued: Set::empty() }
    }

    /// The executor after a task was spawned under `task` with poller `poller`.
    pub open spec fn spawned(self, task: TaskId, poller: PollerId, root: bool, computation: C)
        -> ExecutorView<C, T> {
        ExecutorView {
            tasks: self.tasks.insert(task, TaskView::fresh(poller, root, computation)),
            root: if root {
                Some(task)
            } else {
                self.root
            },
            issued: self.issued.insert(task),
            ..self
        }
    }

    /// Whether a tick may advance `task` now: the executor holds its
    /// computation and the reactor is about to call its poller.
    pub open spec fn pollable(self, reactor: ReactorView, task: TaskId) -> bool {
        &&& self.tasks.contains_key(task)
        &&& self.tasks[task].output.pending()
        &&& self.tasks[task].computation is Some
        &&& reactor.due(self.tasks[task].poller)
    }

    /// The executor after the computation of `task` was handed out.
    pub open spec fn begun(self, task: TaskId) -> ExecutorView<C, T> {
        ExecutorView {
            tasks: self.tasks.insert(
                task,
                TaskView { started: true, computation: None, ..self.tasks[task] },
            ),
            ..self
        }
    }

    /// The executor after a step of `task` that did not finish it.
    pub open spec fn suspended(self, task: TaskId, computation: C) -> ExecutorView<C, T> {
        ExecutorView {
            tasks: self.tasks.insert(
                task,
                TaskView { computation: Some(computation), ..self.tasks[task] },
            ),
            ..self
        }
    }

    /// The executor after the step of `task` that produced `output`. The root
    /// task's output becomes the final output; the output of a task whose
    /// handle was given up is dropped; any other output waits in the task's
    /// slot for the join handle.
    pub open spec fn completed(self, task: TaskId, output: T) -> ExecutorView<C, T> {
        if self.tasks[task].root {
            ExecutorView { tasks: self.tasks.remove(task), final_output: Some(output), ..self }
        } else if self.tasks[task].detached {
            ExecutorView { tasks: self.tasks.remove(task), ..self }
        } else {
            ExecutorView {
                tasks: self.tasks.insert(
                    task,
                    TaskView { output: self.tasks[task].output.filled(output), ..self.tasks[task] },
                ),
                ..self
            }
        }
    }

    /// The token that the completion of `task` invokes: that of the computation
    /// which has polled the task's join handle and waits for the output.
    pub open spec fn woken_by_completion(self, task: TaskId) -> Option<WakeToken> {
        if self.tasks[task].root || self.tasks[task].detached {
            None
        } else {
            self.tasks[task].output.waiter()
        }
    }

    /// The reactor after the step of `task` that finished it: the computation
    /// that waits for the output is woken, the root task stops the reactor, and
    /// the task's poller is unregistered.
    pub open spec fn reactor_after_completion(self, reactor: ReactorView, task: TaskId)
        -> ReactorView {
        let woken = notified(reactor, self.woken_by_completion(task));
        let stopped = if self.tasks[task].root {
            woken.stop()
        } else {
            woken
        };
        stopped.unregister(self.tasks[task].poller)
    }

    /// What `finish_poll` reports for a step of `task` that finished it.
    pub open spec fn completion_report(self, task: TaskId) -> PollReport {
        PollReport {
            outcome: if self.tasks[task].root {
                PollOutcome::FinishedAndStopped
            } else {
                PollOutcome::Finished
            },
            woken: self.woken_by_completion(task),
        }
    }

    /// Whether the executor and the reactor agree on the pollers of the tasks:
    /// a task that has not produced its output has its poller registered, a
    /// task that has produced it has given its poller up, every task's poller
    /// got its identity from this reactor, and no two tasks share a poller.
    pub open spec fn bound_to(self, reactor: ReactorView) -> bool {
        &&& forall|task: TaskId| #[trigger]
            self.tasks.contains_key(task) ==> reactor.issued.contains(self.tasks[task].poller) && (
            self.tasks[task].output.pending() <==> reactor.pollers.contains_key(
                self.tasks[task].poller,
            ))
        &&& forall|a: TaskId, b: TaskId|
            self.tasks.contains_key(a) && self.tasks.contains_key(b) && a != b
                ==> self.tasks[a].poller != self.tasks[b].poller
    }

    /// What a poll of the join handle of `task` answers.
    pub open spec fn join_answer(self, task: TaskId) -> Poll<T> {
        if self.tasks.contains_key(task) {
            poll_of(self.tasks[task].output.taken())
        } else {
            Poll::Pending
        }
    }

    /// The executor after a poll of the join handle of `task` by a computation
    /// that would be woken through `token`: a completed task is given up with
    /// its output, any other task remembers the token.
    pub open spec fn joined(self, task: TaskId, token: WakeToken) -> ExecutorView<C, T> {
        if !self.tasks.contains_key(task) {
            self
        } else if self.tasks[task].output.pending() {
            ExecutorView {
                tasks: self.tasks.insert(
                    task,
                    TaskView { output: self.tasks[task].output.polled(token), ..self.tasks[task] },
                ),
                ..self
            }
        } else {
            ExecutorView { tasks: self.tasks.remove(task), ..self }
        }
    }

    /// The executor after the join handle of `task` was given up.
    pub open spec fn detached(self, task: TaskId) -> ExecutorView<C, T> {
        if !self.tasks.contains_key(task) {
            self
        } else if self.tasks[task].output.pending() {
            ExecutorView {
                tasks: self.tasks.insert(task, TaskView { detached: true, ..self.tasks[task] }),
                ..self
            }
        } else {
            ExecutorView { tasks: self.tasks.remove(task), ..self }
        }
    }
}

/// The spawner's view onto a task's eventual output. There is at most one
/// handle for a task, and the task runs to completion whether or not the handle
/// is kept.
#[derive(Debug)]
pub struct JoinHandle {
    task: TaskId,
}

impl JoinHandle {
    pub closed spec fn id(&self) -> TaskId {
        self.task
    }

    /// The task that the handle stands for.
    pub fn task(&self) -> (task: TaskId)
        ensures
            task == self.id(),
    {
        self.task
    }
}

/// What a spawn does: the task and its poller get identities that were never
/// used before, the task enters the executor as a fresh task, and its poller
/// enters the reactor, active.
pub open spec fn spawn_ensures<C, T>(
    before: ExecutorView<C, T>,
    after: ExecutorView<C, T>,
    reactor_before: ReactorView,
    reactor_after: ReactorView,
    task: TaskId,
    root: bool,
    computation: C,
) -> bool {
    let poller = after.tasks[task].poller;
    &&& !before.issued.contains(task)
    &&& !reactor_before.issued.contains(poller)
    &&& after == before.spawned(task, poller, root, computation)
    &&& reactor_after == reactor_before.register(poller)
}

struct Task<C, T> {
    poller: PollerId,
    root: bool,
    detached: bool,
    started: bool,
    computation: Option<C>,
    output: CompletionSlot<T>,
}

impl<C, T> Task<C, T> {
    spec fn view(&self) -> TaskView<C, T> {
        TaskView {
            poller: self.poller,
            root: self.root,
            detached: self.detached,
            started: self.started,
            computation: self.computation,
            output: self.output@,
        }
    }
}

pub struct Executor<C, T> {
    tasks: Slab<Task<C, T>>,
    root: Option<TaskId>,
    final_output: Option<T>,
}

impl<C, T> Executor<C, T> {
    pub closed spec fn view(&self) -> ExecutorView<C, T> {
        ExecutorView {
            tasks: Map::new(
                |task: TaskId| self.tasks@.contains_key(task.key),
                |task: TaskId| self.tasks@[task.key]@,
            ),
            root: self.root,
            final_output: self.final_output,
            issued: Set::new(|task: TaskId| self.tasks.issued_keys().contains(task.key)),
        }
    }

    /// The identity of every task that the executor holds is among those
    /// handed out, and no two tasks share a position.
    pub proof fn lemma_held_tasks(&self)
        ensures
            self@.tasks.dom().subset_of(self@.issued),
            forall|a: TaskId, b: TaskId|
                self@.tasks.contains_key(a) && self@.tasks.contains_key(b) && a.key.index
                    == b.key.index ==> a == b,
    {
        self.tasks.lemma_live_keys();
    }

    /// An executor without tasks.
    pub fn new() -> (executor: Executor<C, T>)
        ensures
            executor@ == ExecutorView::<C, T>::initial(),
    {
        let executor = Executor { tasks: Slab::new(), root: None, final_output: None };
        assert(executor@.tasks =~= Map::empty());
        assert(executor@.issued =~= Set::empty());
        executor
    }

    fn register(&mut self, reactor: &mut Reactor, root: bool, computation: C) -> (ids: (
        TaskId,
        PollerId,
    ))
        ensures
            !old(self)@.issued.contains(ids.0),
            !old(reactor)@.issued.contains(ids.1),
            final(self).tasks@ == old(self).tasks@.insert(
                ids.0.key,
                Task {
                    poller: ids.1,
                    root,
                    detached: false,
                    started: false,
                    computation: Some(computation),
                    output: final(self).tasks@[ids.0.key].output,
                },
            ),
            final(self).tasks@[ids.0.key].output@ == SlotState::<T>::Empty,
            final(self).root == old(self).root,
            final(self).final_output == old(self).final_output,
            final(self)@.issued == old(self)@.issued.insert(ids.0),
            final(reactor)@ == old(reactor)@.register(ids.1),
    {
        let poller = reactor.register_poller();
        let key = self.tasks.insert(
            Task {
                poller,
                root,
                detached: false,
                started: false,
                computation: Some(computation),
                output: CompletionSlot::create(),
            },
        );
        let task = TaskId { key };
        assert(self@.issued =~= old(self)@.issued.insert(task));
        (task, poller)
    }

    /// Spawns a computation: a task is made for it and a poller is registered
    /// with the reactor, active from the start. The computation is first
    /// advanced on a tick of that poller, not here.
    pub fn spawn(&mut self, reactor: &mut Reactor, computation: C) -> (handle: JoinHandle)
        ensures
            spawn_ensures(
                old(self)@,
                final(self)@,
                old(reactor)@,
                final(reactor)@,
                handle.id(),
                false,
                computation,
            ),
    {
        let (task, poller) = self.register(reactor, false, computation);
        assert(self@.tasks =~= old(self)@.spawned(task, poller, false, computation).tasks);
        JoinHandle { task }
    }

    /// Spawns the root computation, the one whose completion stops the reactor
    /// and whose output is the final output. An executor has one root task in
    /// its life: once one was spawned, the computation is handed back and
    /// nothing changes.
    pub fn spawn_root(&mut self, reactor: &mut Reactor, computation: C) -> (spawned: Result<
        TaskId,
        C,
    >)
        ensures
            match spawned {
                Ok(task) => old(self)@.root is None && spawn_ensures(
                    old(self)@,
                    final(self)@,
                    old(reactor)@,
                    final(reactor)@,
                    task,
                    true,
                    computation,
                ),
                Err(back) => {
                    &&& old(self)@.root is Some
                    &&& back == computation
                    &&& final(self)@ == old(self)@
                    &&& final(reactor)@ == old(reactor)@
                },
            },
    {
        if self.root.is_some() {
            return Err(computation);
        }
        let (task, poller) = self.register(reactor, true, computation);
        self.root = Some(task);
        assert(self@.tasks =~= old(self)@.spawned(task, poller, true, computation).tasks);
        Ok(task)
    }

    /// The first half of a tick of the task's poller: hands out the task's wake
    /// token, from which the resumption context of the step is built, and the
    /// computation to advance. The task is running until `finish_poll`.
    ///
    /// Nothing is handed out, and nothing changes, unless the executor holds
    /// the computation of `task` and the reactor is about to call its poller.
    pub fn begin_poll(&mut self, reactor: &Reactor, task: TaskId) -> (lent: Option<(WakeToken, C)>)
        ensures
            match lent {
                Some((token, computation)) => {
                    &&& old(self)@.pollable(reactor@, task)
                    &&& token == old(self)@.tasks[task].waker()
                    &&& Some(computation) == old(self)@.tasks[task].computation
                    &&& final(self)@ == old(self)@.begun(task)
                },
                None => !old(self)@.pollable(reactor@, task) && final(self)@ == old(self)@,
            },
    {
        match self.tasks.get_mut(task.key) {
            Some(record) => {
                if record.output.is_pending() && record.computation.is_some() && reactor.is_due(
                    record.poller,
                ) {
                    let computation = record.computation.take();
                    record.started = true;
                    let token = WakeToken::new(record.poller);
                    assert(self@.tasks =~= old(self)@.begun(task).tasks);
                    match computation {
                        Some(computation) => Some((token, computation)),
                        None => None,
                    }
                } else {
                    assert(self@.tasks =~= old(self)@.tasks);
                    None
                }
            },
            None => {
                assert(self@.tasks =~= old(self)@.tasks);
                None
            },
        }
    }

    /// The second half of a tick of the task's poller: takes what the step
    /// came to and decides what becomes of the task.
    ///
    /// A step that did not finish the computation stores it again and pauses
    /// the task's poller, so that the reactor calls it no more until its wake
    /// token is invoked. A step that finished it delivers the output: the root
    /// task's output becomes the final output and the reactor is stopped; any
    /// other output goes to the join handle, whose waiting computation is
    /// woken, or is dropped if the handle was given up. Either way the task's
    /// poller is unregistered.
    ///
    /// Only a running task can finish a step: `task` is one whose computation
    /// `begin_poll` handed out and which has not reported since.
    pub fn finish_poll(&mut self, reactor: &mut Reactor, task: TaskId, step: Step<C, T>) -> (report:
        PollReport)
        requires
            old(self)@.tasks.contains_key(task),
            old(self)@.tasks[task].state() == TaskState::Running,
        ensures
            match step {
                Step::Pending(computation) => {
                    &&& report == (PollReport { outcome: PollOutcome::Paused, woken: None })
                    &&& final(self)@ == old(self)@.suspended(task, computation)
                    &&& final(reactor)@ == old(reactor)@.pause(old(self)@.tasks[task].poller)
                },
                Step::Ready(output) => {
                    &&& report == old(self)@.completion_report(task)
                    &&& final(self)@ == old(self)@.completed(task, output)
                    &&& final(reactor)@ == old(self)@.reactor_after_completion(old(reactor)@, task)
                },
            },
    {
        match step {
            Step::Pending(computation) => {
                match self.tasks.get_mut(task.key) {
                    Some(record) => {
                        record.computation = Some(computation);
                        reactor.pause_poller(record.poller);
                    },
                    None => {},
                }
                assert(self@.tasks =~= old(self)@.suspended(task, computation).tasks);
                PollReport { outcome: PollOutcome::Paused, woken: None }
            },
            Step::Ready(output) => {
                let (poller, root, detached) = match self.tasks.get(task.key) {
                    Some(record) => (record.poller, record.root, record.detached),
                    None => return PollReport { outcome: PollOutcome::Finished, woken: None },
                };
                let mut woken: Option<WakeToken> = None;
                if root {
                    self.final_output = Some(output);
                    reactor.stop();
                    let _ = self.tasks.remove(task.key);
                } else if detached {
                    let _ = self.tasks.remove(task.key);
                } else {
                    match self.tasks.get_mut(task.key) {
                        Some(record) => {
                            woken = record.output.fill(output, reactor);
                        },
                        None => {},
                    }
                }
                reactor.unregister_poller(poller);
                assert(self@.tasks =~= old(self)@.completed(task, output).tasks);
                PollReport {
                    outcome: if root {
                        PollOutcome::FinishedAndStopped
                    } else {
                        PollOutcome::Finished
                    },
                    woken,
                }
            },
        }
    }

    /// One poll of a join handle by a computation that would be woken through
    /// `token`. The output of a completed task is handed out, once, and the
    /// task is given up. While the task is not completed the poll is pending,
    /// as often as it is repeated, and the task remembers `token` for its
    /// completion. A handle whose task is gone gets no answer but pending.
    pub fn join(&mut self, handle: &JoinHandle, token: WakeToken) -> (answer: Poll<T>)
        ensures
            answer == old(self)@.join_answer(handle.id()),
            final(self)@ == old(self)@.joined(handle.id(), token),
    {
        let task = handle.task;
        let completed = match self.tasks.get(task.key) {
            Some(record) => !record.output.is_pending(),
            None => {
                assert(self@.tasks =~= old(self)@.tasks);
                return Poll::Pending;
            },
        };
        if completed {
            let removed = self.tasks.remove(task.key);
            assert(self@.tasks =~= old(self)@.joined(task, token).tasks);
            match removed {
                Some(record) => {
                    let mut output = record.output;
                    match output.try_take(token) {
                        Some(value) => Poll::Ready(value),
                        None => Poll::Pending,
                    }
                },
                None => Poll::Pending,
            }
        } else {
            match self.tasks.get_mut(task.key) {
                Some(record) => {
                    let _ = record.output.try_take(token);
                },
                None => {},
            }
            assert(self@.tasks =~= old(self)@.joined(task, token).tasks);
            Poll::Pending
        }
    }

    /// Gives up a join handle. The task is not cancelled: it runs to completion
    /// as before, and its output is dropped when it arrives, or now, if it has
    /// arrived already.
    pub fn detach(&mut self, handle: JoinHandle)
        ensures
            final(self)@ == old(self)@.detached(handle.id()),
    {
        let task = handle.task;
        let completed = match self.tasks.get_mut(task.key) {
            Some(record) => {
                record.detached = true;
                !record.output.is_pending()
            },
            None => false,
        };
        if completed {
            let _ = self.tasks.remove(task.key);
        }
        assert(self@.tasks =~= old(self)@.detached(task).tasks);
    }

    /// Takes the final output: there is one from the completion of the root
    /// task until it is taken.
    pub fn take_final_output(&mut self) -> (output: Option<T>)
        ensures
            output == old(self)@.final_output,
            final(self)@ == (ExecutorView { final_output: None, ..old(self)@ }),
    {
        let output = self.final_output.take();
        assert(self@.tasks =~= old(self)@.tasks);
        output
    }

    /// The state of a task that the executor holds.
    pub fn state(&self, task: TaskId) -> (state: Option<TaskState>)
        ensures
            state == (if self@.tasks.contains_key(task) {
                Some(self@.tasks[task].state())
            } else {
                None
            }),
    {
        match self.tasks.get(task.key) {
            Some(record) => {
                if !record.output.is_pending() {
                    Some(TaskState::Completed)
                } else if record.computation.is_none() {
                    Some(TaskState::Running)
                } else if record.started {
                    Some(TaskState::Suspended)
                } else {
                    Some(TaskState::Created)
                }
            },
            None => None,
        }
    }

    /// The wake token of a task that the executor holds.
    pub fn waker(&self, task: TaskId) -> (token: Option<WakeToken>)
        ensures
            token == (if self@.tasks.contains_key(task) {
                Some(self@.tasks[task].waker())
            } else {
                None
            }),
    {
        match self.tasks.get(task.key) {
            Some(record) => Some(WakeToken::new(record.poller)),
            None => None,
        }
    }

    /// The root task, once one was spawned.
    pub fn root(&self) -> (root: Option<TaskId>)
        ensures
            root == self@.root,
    {
        self.root
    }

    /// The tasks that the next tick of the reactor advances, in the order of
    /// their identities' positions: those that `begin_poll` would hand out.
    pub fn due_tasks(&self, reactor: &Reactor) -> (due: Vec<TaskId>)
        ensures
            forall|task: TaskId| due@.contains(task) <==> self@.pollable(reactor@, task),
            forall|i: int, j: int|
                0 <= i < j < due@.len() ==> due@[i].key.index < due@[j].key.index,
    {
        let mut due: Vec<TaskId> = Vec::new();
        let n: usize = self.tasks.slots();
        let mut index: usize = 0;
        proof {
            self.tasks.lemma_live_keys();
        }
        while index < n
            invariant
                index <= n,
                n == self.tasks.positions(),
                forall|k: int|
                    0 <= k < due@.len() ==> self@.pollable(reactor@, #[trigger] due@[k])
                        && due@[k].key.index < index,
                forall|task: TaskId| #[trigger]
                    self@.pollable(reactor@, task) && task.key.index < index ==> due@.contains(
                        task,
                    ),
                forall|i: int, j: int|
                    0 <= i < j < due@.len() ==> due@[i].key.index < due@[j].key.index,
            decreases n - index,
        {
            proof {
                self.tasks.lemma_live_keys();
            }
            let ghost before = due@;
            match self.tasks.key_at(index) {
                Some(key) => {
                    let task = TaskId { key };
                    let pollable = match self.tasks.get(key) {
                        Some(record) => record.output.is_pending() && record.computation.is_some()
                            && reactor.is_due(record.poller),
                        None => false,
                    };
                    if pollable {
                        due.push(task);
                        assert(due@[before.len() as int] == task);
                    }
                },
                None => {},
            }
            assert forall|task: TaskId| #[trigger]
                self@.pollable(reactor@, task) && task.key.index < index + 1 implies due@.contains(
                task,
            ) by {
                if task.key.index < index {
                    let k = choose|k: int| 0 <= k < before.len() && before[k] == task;
                    assert(due@[k] == task);
                }
            }
            index = index + 1;
        }
        due
    }
}

/// Spawn and join: the join handle of a spawned computation is pending, as
/// often as it is polled, until the computation has been advanced; the reactor
/// is about to advance it; and once a step has produced the output, the next
/// poll of the handle returns that output, after which the task is gone and a
/// further poll gets nothing.
pub proof fn lemma_spawn_join_round_trip<C, T>(
    executor: ExecutorView<C, T>,
    reactor: ReactorView,
    task: TaskId,
    poller: PollerId,
    computation: C,
    output: T,
    joiner: WakeToken,
)
    requires
        !reactor.stopped,
    ensures
        ({
            let spawned = executor.spawned(task, poller, false, computation);
            let running = spawned.joined(task, joiner).begun(task);
            let done = running.completed(task, output);
            &&& spawned.tasks[task].state() == TaskState::Created
            &&& spawned.join_answer(task) == Poll::<T>::Pending
            &&& spawned.joined(task, joiner).join_answer(task) == Poll::<T>::Pending
            &&& spawned.joined(task, joiner).pollable(reactor.register(poller), task)
            &&& running.tasks[task].state() == TaskState::Running
            &&& running.join_answer(task) == Poll::<T>::Pending
            &&& done.tasks[task].state() == TaskState::Completed
            &&& done.join_answer(task) == Poll::Ready(output)
            &&& running.woken_by_completion(task) == Some(joiner)
            &&& running.reactor_after_completion(reactor.register(poller), task) == reactor.register(
                poller,
            ).resume(joiner.poller).unregister(poller)
            &&& !done.joined(task, joiner).tasks.contains_key(task)
            &&& done.joined(task, joiner).join_answer(task) == Poll::<T>::Pending
        }),
{
}

/// Root completion stops the reactor: when the root computation produces its
/// output, that output is the final output, the reactor is told to stop, once,
/// and nobody is woken; from then on no poller is due and no task can be
/// advanced.
pub proof fn lemma_root_completion_stops_reactor<C, T>(
    executor: ExecutorView<C, T>,
    reactor: ReactorView,
    task: TaskId,
    output: T,
)
    requires
        executor.tasks.contains_key(task),
        executor.tasks[task].root,
    ensures
        executor.completed(task, output).final_output == Some(output),
        !executor.completed(task, output).tasks.contains_key(task),
        executor.reactor_after_completion(reactor, task).stopped,
        executor.reactor_after_completion(reactor, task).stop_requests == reactor.stop_requests + 1,
        executor.reactor_after_completion(reactor, task).wakeups == reactor.wakeups,
        forall|id: PollerId| !executor.reactor_after_completion(reactor, task).due(id),
        forall|other: TaskId|
            !executor.completed(task, output).pollable(
                executor.reactor_after_completion(reactor, task),
                other,
            ),
{
}

/// The executor and the reactor stay in agreement on the tasks' pollers through
/// a spawn.
pub proof fn lemma_spawn_keeps_binding<C, T>(
    executor: ExecutorView<C, T>,
    reactor: ReactorView,
    task: TaskId,
    poller: PollerId,
    root: bool,
    computation: C,
)
    requires
        executor.bound_to(reactor),
        !executor.tasks.contains_key(task),
        !reactor.issued.contains(poller),
    ensures
        executor.spawned(task, poller, root, computation).bound_to(reactor.register(poller)),
{
}

/// The executor and the reactor stay in agreement on the tasks' pollers through
/// both halves of a tick, whatever the step came to, and through a poll of a
/// join handle, the giving up of one, and an invoked wake token.
pub proof fn lemma_ticks_keep_binding<C, T>(
    executor: ExecutorView<C, T>,
    reactor: ReactorView,
    task: TaskId,
    computation: C,
    output: T,
    token: WakeToken,
)
    requires
        executor.bound_to(reactor),
    ensures
        executor.tasks.contains_key(task) ==> executor.begun(task).bound_to(reactor),
        executor.tasks.contains_key(task) ==> executor.suspended(task, computation).bound_to(
            reactor.pause(executor.tasks[task].poller),
        ),
        executor.tasks.contains_key(task) && executor.tasks[task].output.pending()
            ==> executor.completed(task, output).bound_to(
            executor.reactor_after_completion(reactor, task),
        ),
        executor.joined(task, token).bound_to(reactor),
        executor.detached(task).bound_to(reactor),
        executor.bound_to(reactor.resume(token.poller)),
{
}

/// A suspended task whose wake token is invoked is advanced by the next tick,
/// unless the reactor was stopped: the token un-pauses the task's poller, and
/// the executor holds the computation.
pub proof fn lemma_woken_task_is_due<C, T>(
    executor: ExecutorView<C, T>,
    reactor: ReactorView,
    task: TaskId,
)
    requires
        executor.bound_to(reactor),
        executor.tasks.contains_key(task),
        executor.tasks[task].state() == TaskState::Suspended,
        !reactor.stopped,
    ensures
        executor.pollable(reactor.resume(executor.tasks[task].waker().poller), task),
{
}

} // verus!
