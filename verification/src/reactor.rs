use std::collections::HashMap;
use vstd::prelude::*;

verus! {

broadcast use vstd::std_specs::hash::group_hash_axioms;

/// Where a task stands. `W` is the handle that resumes the task's executor
/// (a waker); it is kept while the task waits for its timer.
pub enum TaskState<W> {
    Ready,
    NotReady(W),
    Finished,
}

/// A message to the reactor's timer thread.
#[derive(PartialEq, Eq, Structural, Debug, Clone, Copy)]
pub enum Event {
    /// Stop the timer thread.
    Close,
    /// After the given number of seconds, wake the task with the given id.
    Timeout(u64, usize),
}

/// The outcome of polling a task.
#[derive(PartialEq, Eq, Structural, Debug, Clone, Copy)]
pub enum TaskPoll {
    /// The task is done; it carries the task's id.
    Ready(usize),
    /// The task is waiting for its timer.
    Pending,
}

/// What the timer thread does with a message.
#[derive(PartialEq, Eq, Structural, Debug, Clone, Copy)]
pub enum TimerAction {
    /// Stop taking messages, and wait for the timers already started.
    Stop,
    /// Start a timer that wakes the task `id` after `seconds` seconds.
    WakeAfter { seconds: u64, id: usize },
}

/// The timer thread's step for one message: `Close` stops it, and
/// `Timeout(seconds, id)` starts a timer for the task `id`.
pub fn timer_action(event: Event) -> (action: TimerAction)
    ensures
        action == (match event {
            Event::Close => TimerAction::Stop,
            Event::Timeout(seconds, id) => TimerAction::WakeAfter { seconds, id },
        }),
{
    match event {
        Event::Close => TimerAction::Stop,
        Event::Timeout(seconds, id) => TimerAction::WakeAfter { seconds, id },
    }
}

/// The task table of a reactor: the state of each task by id.
pub struct Reactor<W> {
    tasks: HashMap<usize, TaskState<W>>,
}

impl<W> View for Reactor<W> {
    type V = Map<usize, TaskState<W>>;

    closed spec fn view(&self) -> Map<usize, TaskState<W>> {
        self.tasks@
    }
}

/// Whether the task `id` of the table `tasks` has been woken and not yet
/// finished.
pub open spec fn task_is_ready<W>(tasks: Map<usize, TaskState<W>>, id: usize) -> bool {
    tasks.contains_key(id) && tasks[id] is Ready
}

/// Whether the task `id` of the table `tasks` waits for its timer.
pub open spec fn task_is_waiting<W>(tasks: Map<usize, TaskState<W>>, id: usize) -> bool {
    tasks.contains_key(id) && tasks[id] is NotReady
}

/// The table after the task `id` is registered to wait with `waker`.
pub open spec fn registered<W>(tasks: Map<usize, TaskState<W>>, id: usize, waker: W) -> Map<
    usize,
    TaskState<W>,
> {
    tasks.insert(id, TaskState::NotReady(waker))
}

/// The table after the timer of task `id` fired.
pub open spec fn woken<W>(tasks: Map<usize, TaskState<W>>, id: usize) -> Map<usize, TaskState<W>> {
    tasks.insert(id, TaskState::Ready)
}

/// What polling the task (`id`, `data`) with `waker` does to the table
/// `tasks`: the outcome, the message for the timer thread if any, and the
/// table afterwards.
/// A woken task finishes; a known task that is not woken waits again with the
/// new waker; an unknown task is registered and its timer is started for
/// `data` seconds.
pub open spec fn poll_step<W>(tasks: Map<usize, TaskState<W>>, id: usize, data: u64, waker: W) -> (
    TaskPoll,
    Option<Event>,
    Map<usize, TaskState<W>>,
) {
    if task_is_ready(tasks, id) {
        (TaskPoll::Ready(id), None, tasks.insert(id, TaskState::Finished))
    } else if tasks.contains_key(id) {
        (TaskPoll::Pending, None, registered(tasks, id, waker))
    } else {
        (TaskPoll::Pending, Some(Event::Timeout(data, id)), registered(tasks, id, waker))
    }
}

impl<W> Reactor<W> {
    /// A reactor that knows no task.
    pub fn new() -> (r: Reactor<W>)
        ensures
            r@ == Map::<usize, TaskState<W>>::empty(),
    {
        Reactor { tasks: HashMap::new() }
    }

    /// Records the task `id` as waiting with `waker`, and returns the message
    /// that starts its timer of `duration` seconds. A task is registered once.
    pub fn register(&mut self, duration: u64, waker: W, id: usize) -> (event: Event)
        requires
            !old(self)@.contains_key(id),
        ensures
            final(self)@ == registered(old(self)@, id, waker),
            event == Event::Timeout(duration, id),
    {
        self.tasks.insert(id, TaskState::NotReady(waker));
        Event::Timeout(duration, id)
    }

    /// Marks the waiting task `id` as woken and hands back the waker it was
    /// waiting with, for the caller to resume the executor that polled it.
    /// Only a waiting task can be woken.
    pub fn wake(&mut self, id: usize) -> (waker: W)
        requires
            task_is_waiting(old(self)@, id),
        ensures
            final(self)@ == woken(old(self)@, id),
            old(self)@[id] == TaskState::NotReady(waker),
        decreases 0nat,
    {
        match self.tasks.insert(id, TaskState::Ready) {
            Some(TaskState::NotReady(waker)) => waker,
            _ => {
                // The task was waiting, so `insert` handed back its waker.
                proof {
                    assert(false);
                }
                self.wake(id)
            },
        }
    }

    /// Whether the table knows the task `id`.
    pub fn contains(&self, id: usize) -> (known: bool)
        ensures
            known == self@.contains_key(id),
    {
        self.tasks.contains_key(&id)
    }

    /// Whether the task `id` is waiting for its timer.
    pub fn is_waiting(&self, id: usize) -> (waiting: bool)
        ensures
            waiting == task_is_waiting(self@, id),
    {
        match self.tasks.get(&id) {
            Some(TaskState::NotReady(_)) => true,
            _ => false,
        }
    }

    /// Whether the task `id` has been woken and not yet finished.
    pub fn is_ready(&self, id: usize) -> (ready: bool)
        ensures
            ready == task_is_ready(self@, id),
    {
        match self.tasks.get(&id) {
            Some(TaskState::Ready) => true,
            _ => false,
        }
    }

    /// The message that stops the timer thread.
    pub fn close(&self) -> (event: Event)
        ensures
            event == Event::Close,
    {
        Event::Close
    }
}

/// A task that completes once its timer of `data` seconds has fired.
pub struct Task {
    pub id: usize,
    pub data: u64,
}

impl Task {
    pub fn new(data: u64, id: usize) -> (t: Task)
        ensures
            t.id == id,
            t.data == data,
    {
        Task { id, data }
    }

    /// Polls the task against the reactor's table, with the waker of the
    /// executor that polls it. Returns the outcome and, on the task's first
    /// poll, the message that starts its timer.
    pub fn poll<W>(&self, reactor: &mut Reactor<W>, waker: W) -> (res: (TaskPoll, Option<Event>))
        ensures
            (res.0, res.1, final(reactor)@) == poll_step(old(reactor)@, self.id, self.data, waker),
    {
        if reactor.is_ready(self.id) {
            reactor.tasks.insert(self.id, TaskState::Finished);
            (TaskPoll::Ready(self.id), None)
        } else if reactor.tasks.contains_key(&self.id) {
            reactor.tasks.insert(self.id, TaskState::NotReady(waker));
            (TaskPoll::Pending, None)
        } else {
            let event = reactor.register(self.data, waker, self.id);
            (TaskPoll::Pending, Some(event))
        }
    }
}

/// The first poll of a task registers it with the waker it was polled with
/// and starts exactly its timer: a `Timeout` for its own duration and id.
pub proof fn lemma_first_poll_starts_timer<W>(
    tasks: Map<usize, TaskState<W>>,
    id: usize,
    data: u64,
    waker: W,
)
    requires
        !tasks.contains_key(id),
    ensures
        poll_step(tasks, id, data, waker).0 == TaskPoll::Pending,
        poll_step(tasks, id, data, waker).1 == Some(Event::Timeout(data, id)),
        poll_step(tasks, id, data, waker).2[id] == TaskState::NotReady(waker),
{
}

/// A timer is started at most once per task: polling a task the table
/// already knows sends nothing to the timer thread.
pub proof fn lemma_known_task_starts_no_timer<W>(
    tasks: Map<usize, TaskState<W>>,
    id: usize,
    data: u64,
    waker: W,
)
    requires
        tasks.contains_key(id),
    ensures
        poll_step(tasks, id, data, waker).1 == None::<Event>,
{
}

/// A task's life: its first poll waits, the timer wakes it with the waker of
/// that poll, the next poll completes it with its id, and it is finished.
pub proof fn lemma_poll_wake_poll_completes<W>(
    tasks: Map<usize, TaskState<W>>,
    id: usize,
    data: u64,
    waker1: W,
    waker2: W,
)
    requires
        !tasks.contains_key(id),
    ensures
        ({
            let (out1, _, after_first) = poll_step(tasks, id, data, waker1);
            let after_wake = woken(after_first, id);
            let (out2, event2, after_second) = poll_step(after_wake, id, data, waker2);
            &&& out1 == TaskPoll::Pending
            &&& after_first[id] == TaskState::NotReady(waker1)
            &&& task_is_waiting(after_first, id)
            &&& task_is_ready(after_wake, id)
            &&& out2 == TaskPoll::Ready(id)
            &&& event2 == None::<Event>
            &&& after_second[id] == TaskState::<W>::Finished
            &&& !task_is_ready(after_second, id)
        }),
{
}

/// Polling, registering and waking a task leave every other task as it was.
pub proof fn lemma_other_tasks_unchanged<W>(
    tasks: Map<usize, TaskState<W>>,
    id: usize,
    other: usize,
    data: u64,
    waker: W,
)
    requires
        id != other,
    ensures
        poll_step(tasks, id, data, waker).2.contains_key(other) == tasks.contains_key(other),
        poll_step(tasks, id, data, waker).2[other] == tasks[other],
        woken(tasks, id).contains_key(other) == tasks.contains_key(other),
        woken(tasks, id)[other] == tasks[other],
        registered(tasks, id, waker).contains_key(other) == tasks.contains_key(other),
        registered(tasks, id, waker)[other] == tasks[other],
{
}

} // verus!
