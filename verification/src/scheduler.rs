//! The scheduling rules: three tasks of fixed priority, started in order of
//! priority, and a priority ceiling on each resource that they share.
//!
//! The scheduler decides; it runs nothing. Its owner tells it what happened
//! (the button's interrupt fired, the running task finished, the running
//! task wants a resource) and is told what to do next.
use vstd::prelude::*;
use crate::stoptimer::{counter_modulus, interval, millis_between};

verus! {

/// Milliseconds after which the polling task runs again.
pub const READ_POT_DELAY: u32 = 100;

/// Milliseconds after which the animation task runs again.
pub const RGB_UPDATE_DELAY: u32 = 50;

/// Half the range of the millisecond counter: a due time that lies less
/// than this behind the clock has been reached.
pub const HALF_RANGE: u32 = 0x8000_0000;

/// The three tasks.
#[derive(Clone, Copy, Debug, PartialEq, Eq, Structural)]
pub enum TaskId {
    /// Reads the potentiometer and sets the fan; periodic.
    ReadPot,
    /// Refreshes the LED ring and the display; periodic.
    RgbUpdate,
    /// Handles an edge of the push button; bound to its interrupt.
    UserButton,
}

/// Where a task stands in its life.
#[derive(Clone, Copy, Debug, PartialEq, Eq, Structural)]
pub enum TaskState {
    /// Waiting for its interrupt.
    Idle,
    /// Waiting for the clock to reach the time it holds.
    Scheduled(u32),
    /// Started and not yet finished: executing, or preempted.
    Running,
}

/// What the tasks share.
#[derive(Clone, Copy, Debug, PartialEq, Eq, Structural)]
pub enum Resource {
    /// The fan's duty cycle and the display.
    FanDisplay,
    /// The LED ring's mode and brightness.
    Animator,
    /// The mark that the display is due to show the mode's name.
    RefreshFlag,
}

/// A task's priority; the higher number preempts the lower.
pub open spec fn priority(task: TaskId) -> int {
    match task {
        TaskId::ReadPot => 1,
        TaskId::RgbUpdate => 2,
        TaskId::UserButton => 3,
    }
}

/// The delay after which a periodic task runs again; none for the task that
/// is bound to an interrupt.
pub open spec fn rearm_delay(task: TaskId) -> Option<u32> {
    match task {
        TaskId::ReadPot => Some(READ_POT_DELAY),
        TaskId::RgbUpdate => Some(RGB_UPDATE_DELAY),
        TaskId::UserButton => None,
    }
}

/// Whether a task ever takes a resource.
pub open spec fn uses(task: TaskId, resource: Resource) -> bool {
    match task {
        TaskId::ReadPot => resource == Resource::FanDisplay,
        TaskId::RgbUpdate => true,
        TaskId::UserButton => true,
    }
}

/// The greater of two numbers.
pub open spec fn max2(a: int, b: int) -> int {
    if a >= b {
        a
    } else {
        b
    }
}

/// A task's priority where it uses the resource, zero where it does not.
pub open spec fn claim(task: TaskId, resource: Resource) -> int {
    if uses(task, resource) {
        priority(task)
    } else {
        0
    }
}

/// A resource's priority ceiling: the highest priority among the tasks that
/// use it.
pub open spec fn ceiling(resource: Resource) -> int {
    max2(
        claim(TaskId::ReadPot, resource),
        max2(claim(TaskId::RgbUpdate, resource), claim(TaskId::UserButton, resource)),
    )
}

/// The scheduler's state as plain data.
#[derive(Clone, Copy, Debug, PartialEq, Eq, Structural)]
pub struct SchedulerState {
    /// State of the polling task.
    pub read_pot: TaskState,
    /// State of the animation task.
    pub rgb_update: TaskState,
    /// State of the button handler.
    pub user_button: TaskState,
    /// Whether the button's interrupt has fired and not been served yet.
    pub edge_pending: bool,
    /// Who holds the fan and the display.
    pub fan_display: Option<TaskId>,
    /// Who holds the animator.
    pub animator: Option<TaskId>,
    /// Who holds the refresh mark.
    pub refresh_flag: Option<TaskId>,
}

impl SchedulerState {
    /// The state of a task.
    pub open spec fn state_of(self, task: TaskId) -> TaskState {
        match task {
            TaskId::ReadPot => self.read_pot,
            TaskId::RgbUpdate => self.rgb_update,
            TaskId::UserButton => self.user_button,
        }
    }

    /// The task that holds a resource.
    pub open spec fn holder_of(self, resource: Resource) -> Option<TaskId> {
        match resource {
            Resource::FanDisplay => self.fan_display,
            Resource::Animator => self.animator,
            Resource::RefreshFlag => self.refresh_flag,
        }
    }

    /// Whether a task holds a resource.
    pub open spec fn holds(self, task: TaskId, resource: Resource) -> bool {
        self.holder_of(resource) == Some(task)
    }

    /// Whether a task has been started and has not finished.
    pub open spec fn is_running(self, task: TaskId) -> bool {
        self.state_of(task) == TaskState::Running
    }

    /// The ceiling of a resource where the task holds it, zero where not.
    pub open spec fn raised_by(self, task: TaskId, resource: Resource) -> int {
        if self.holds(task, resource) {
            ceiling(resource)
        } else {
            0
        }
    }

    /// The priority at which a task runs: its own, raised to the ceiling of
    /// every resource that it holds.
    pub open spec fn effective_priority(self, task: TaskId) -> int {
        max2(
            max2(priority(task), self.raised_by(task, Resource::FanDisplay)),
            max2(self.raised_by(task, Resource::Animator), self.raised_by(task, Resource::RefreshFlag)),
        )
    }

    /// A started task's effective priority, zero for a task that is not
    /// started.
    pub open spec fn running_level(self, task: TaskId) -> int {
        if self.is_running(task) {
            self.effective_priority(task)
        } else {
            0
        }
    }

    /// The level that a task has to exceed to be started: the highest
    /// effective priority among the started tasks, zero where none is.
    pub open spec fn system_ceiling(self) -> int {
        max2(
            self.running_level(TaskId::ReadPot),
            max2(self.running_level(TaskId::RgbUpdate), self.running_level(TaskId::UserButton)),
        )
    }

    /// Whether a task waits for nothing but the processor at `now`: a
    /// periodic task whose time has come, or the button handler with its
    /// interrupt pending.
    pub open spec fn is_ready(self, task: TaskId, now: u32) -> bool {
        match self.state_of(task) {
            TaskState::Idle => rearm_delay(task) is None && self.edge_pending,
            TaskState::Scheduled(due) => interval(due, now) < HALF_RANGE,
            TaskState::Running => false,
        }
    }

    /// Whether a task may be started at `now`: it is ready, and its priority
    /// is above that of everything started, ceilings included.
    pub open spec fn can_start(self, task: TaskId, now: u32) -> bool {
        self.is_ready(task, now) && priority(task) > self.system_ceiling()
    }

    /// The task to start at `now`: of those that may be started, the one of
    /// highest priority.
    pub open spec fn next_task(self, now: u32) -> Option<TaskId> {
        if self.can_start(TaskId::UserButton, now) {
            Some(TaskId::UserButton)
        } else if self.can_start(TaskId::RgbUpdate, now) {
            Some(TaskId::RgbUpdate)
        } else if self.can_start(TaskId::ReadPot, now) {
            Some(TaskId::ReadPot)
        } else {
            None
        }
    }

    /// The task that executes: of those started, the one of highest
    /// priority; the others are preempted.
    pub open spec fn executing(self) -> Option<TaskId> {
        if self.is_running(TaskId::UserButton) {
            Some(TaskId::UserButton)
        } else if self.is_running(TaskId::RgbUpdate) {
            Some(TaskId::RgbUpdate)
        } else if self.is_running(TaskId::ReadPot) {
            Some(TaskId::ReadPot)
        } else {
            None
        }
    }

    /// Whether a task holds any resource.
    pub open spec fn holds_any(self, task: TaskId) -> bool {
        ||| self.fan_display == Some(task)
        ||| self.animator == Some(task)
        ||| self.refresh_flag == Some(task)
    }

    /// The state with one task's state replaced.
    pub open spec fn with_state(self, task: TaskId, state: TaskState) -> SchedulerState {
        match task {
            TaskId::ReadPot => SchedulerState { read_pot: state, ..self },
            TaskId::RgbUpdate => SchedulerState { rgb_update: state, ..self },
            TaskId::UserButton => SchedulerState { user_button: state, ..self },
        }
    }

    /// The state with one resource's holder replaced.
    pub open spec fn with_holder(self, resource: Resource, holder: Option<TaskId>) -> SchedulerState {
        match resource {
            Resource::FanDisplay => SchedulerState { fan_display: holder, ..self },
            Resource::Animator => SchedulerState { animator: holder, ..self },
            Resource::RefreshFlag => SchedulerState { refresh_flag: holder, ..self },
        }
    }

    /// The state after a task has been started: it is running, and where it
    /// is the button handler, its interrupt is served.
    pub open spec fn started(self, task: TaskId) -> SchedulerState {
        let next = self.with_state(task, TaskState::Running);
        if rearm_delay(task) is None {
            SchedulerState { edge_pending: false, ..next }
        } else {
            next
        }
    }

    /// The state in which a finished task waits: a periodic task for the
    /// clock to reach `now` plus its delay, modulo the counter's range, the
    /// button handler for its interrupt.
    pub open spec fn rest_state(task: TaskId, now: u32) -> TaskState {
        match rearm_delay(task) {
            Some(delay) => TaskState::Scheduled(((now + delay) % counter_modulus()) as u32),
            None => TaskState::Idle,
        }
    }

    /// Whoever holds the resource has been started and is one of the tasks
    /// that use it.
    pub open spec fn holder_rule(self, resource: Resource) -> bool {
        self.holder_of(resource) matches Some(task) ==> self.is_running(task) && uses(
            task,
            resource,
        )
    }

    /// Where both tasks are started and `high` has the higher priority, it
    /// is above the effective priority of `low`: it was started while `low`
    /// held what it holds now.
    pub open spec fn order_rule(self, low: TaskId, high: TaskId) -> bool {
        self.is_running(low) && self.is_running(high) && priority(low) < priority(high)
            ==> self.effective_priority(low) < priority(high)
    }

    /// A periodic task is never idle, and the button handler is never
    /// scheduled.
    pub open spec fn life_rule(self, state: TaskState, task: TaskId) -> bool {
        match state {
            TaskState::Idle => rearm_delay(task) is None,
            TaskState::Scheduled(_) => rearm_delay(task) is Some,
            TaskState::Running => true,
        }
    }

    /// The rules that every state keeps: whoever holds a resource has been
    /// started and uses it; a started task of higher priority is above the
    /// effective priority of every started task of lower priority; and
    /// every task is in a state that its kind allows.
    pub open spec fn wf(self) -> bool {
        &&& forall|r: Resource, t: TaskId| #[trigger]
            self.holds(t, r) ==> self.is_running(t) && uses(t, r)
        &&& forall|low: TaskId, high: TaskId|
            #![trigger self.is_running(low), self.is_running(high)]
            self.is_running(low) && self.is_running(high) && priority(low) < priority(high)
                ==> self.effective_priority(low) < priority(high)
        &&& forall|t: TaskId| self.life_rule(#[trigger] self.state_of(t), t)
    }
}

/// A resource's ceiling is the priority of one of the tasks that use it, and
/// no task that uses it has a higher one.
pub proof fn lemma_ceiling_is_highest_user(resource: Resource)
    ensures
        forall|t: TaskId| uses(t, resource) ==> priority(t) <= ceiling(resource),
        exists|t: TaskId| uses(t, resource) && priority(t) == ceiling(resource),
{
    assert(uses(TaskId::UserButton, resource) && priority(TaskId::UserButton) == ceiling(
        resource,
    ));
}

/// The executing task is started, and no started task has a higher
/// priority.
pub proof fn lemma_executing_is_highest(state: SchedulerState, task: TaskId)
    requires
        state.executing() == Some(task),
    ensures
        state.is_running(task),
        forall|t: TaskId| state.is_running(t) ==> priority(t) <= priority(task),
{
}

/// The task that is started next may be started, and no task that may be
/// started has a higher priority; none is started only where none may be.
pub proof fn lemma_next_task_is_highest(state: SchedulerState, now: u32)
    ensures
        state.next_task(now) matches Some(task) ==> state.can_start(task, now) && forall|
            t: TaskId,
        | state.can_start(t, now) ==> priority(t) <= priority(task),
        state.next_task(now) is None ==> forall|t: TaskId| !state.can_start(t, now),
{
}

/// The executing task never waits for a resource: one that it uses is free
/// or its own. Any other holder would have kept it from being started.
pub proof fn lemma_lock_is_free(state: SchedulerState, task: TaskId, resource: Resource)
    requires
        state.wf(),
        state.executing() == Some(task),
        uses(task, resource),
    ensures
        state.holder_of(resource) is None || state.holder_of(resource) == Some(task),
{
    if let Some(holder) = state.holder_of(resource) {
        if holder != task {
            assert(state.holds(holder, resource));
            assert(state.is_running(holder) && uses(holder, resource));
            assert(state.is_running(task));
            assert(state.raised_by(holder, resource) == ceiling(resource));
            assert(state.effective_priority(holder) >= ceiling(resource));
            assert(priority(task) <= ceiling(resource));
            assert(priority(holder) < priority(task));
        }
    }
}

/// While a resource is held, no task that uses it can be started: the
/// holder runs at the resource's ceiling, which none of them exceeds.
pub proof fn lemma_holder_excludes_users(
    state: SchedulerState,
    resource: Resource,
    task: TaskId,
    now: u32,
)
    requires
        state.wf(),
        state.holder_of(resource) is Some,
        uses(task, resource),
    ensures
        !state.can_start(task, now),
{
    let holder = state.holder_of(resource)->Some_0;
    assert(state.holds(holder, resource));
    assert(state.is_running(holder) && uses(holder, resource));
    assert(state.raised_by(holder, resource) == ceiling(resource));
    assert(state.effective_priority(holder) >= ceiling(resource));
    assert(state.running_level(holder) >= ceiling(resource));
    assert(state.system_ceiling() >= ceiling(resource));
    assert(priority(task) <= ceiling(resource));
}

/// A due time is reached from the moment the clock passes it until half
/// the counter's range later, whether or not the counter wraps round in
/// between; before that moment, up to half the range ahead, it is not.
pub proof fn lemma_due_across_wrap(armed: u32, delay: u32, elapsed: nat)
    requires
        elapsed < delay + HALF_RANGE,
        delay <= HALF_RANGE,
    ensures
        interval(
            ((armed + delay) % counter_modulus()) as u32,
            ((armed + elapsed) % counter_modulus()) as u32,
        ) < HALF_RANGE <==> elapsed >= delay,
{
}

/// A task's priority.
pub fn task_priority(task: TaskId) -> (level: u8)
    ensures
        level == priority(task),
{
    match task {
        TaskId::ReadPot => 1,
        TaskId::RgbUpdate => 2,
        TaskId::UserButton => 3,
    }
}

/// The delay after which a periodic task runs again.
pub fn task_delay(task: TaskId) -> (delay: Option<u32>)
    ensures
        delay == rearm_delay(task),
{
    match task {
        TaskId::ReadPot => Some(READ_POT_DELAY),
        TaskId::RgbUpdate => Some(RGB_UPDATE_DELAY),
        TaskId::UserButton => None,
    }
}

/// Whether a task ever takes a resource.
pub fn task_uses(task: TaskId, resource: Resource) -> (used: bool)
    ensures
        used == uses(task, resource),
{
    match task {
        TaskId::ReadPot => match resource {
            Resource::FanDisplay => true,
            _ => false,
        },
        TaskId::RgbUpdate => true,
        TaskId::UserButton => true,
    }
}

/// A resource's priority ceiling.
pub fn resource_ceiling(resource: Resource) -> (level: u8)
    ensures
        level == ceiling(resource),
{
    let mut level: u8 = 0;
    if task_uses(TaskId::ReadPot, resource) {
        level = task_priority(TaskId::ReadPot);
    }
    if task_uses(TaskId::RgbUpdate, resource) && task_priority(TaskId::RgbUpdate) > level {
        level = task_priority(TaskId::RgbUpdate);
    }
    if task_uses(TaskId::UserButton, resource) && task_priority(TaskId::UserButton) > level {
        level = task_priority(TaskId::UserButton);
    }
    level
}

/// The scheduler: the state of every task, and who holds which resource.
#[derive(Clone, Copy, Debug)]
pub struct Scheduler {
    state: SchedulerState,
}

impl View for Scheduler {
    type V = SchedulerState;

    closed spec fn view(&self) -> SchedulerState {
        self.state
    }
}

impl Scheduler {
    /// The state at start-up: both periodic tasks due at `now`, the button
    /// handler waiting for its interrupt, every resource free.
    pub open spec fn new_spec(now: u32) -> SchedulerState {
        SchedulerState {
            read_pot: TaskState::Scheduled(now),
            rgb_update: TaskState::Scheduled(now),
            user_button: TaskState::Idle,
            edge_pending: false,
            fan_display: None,
            animator: None,
            refresh_flag: None,
        }
    }

    /// The scheduler at start-up.
    pub fn new(now: u32) -> (scheduler: Self)
        ensures
            scheduler@.wf(),
            scheduler@ == Self::new_spec(now),
    {
        Scheduler {
            state: SchedulerState {
                read_pot: TaskState::Scheduled(now),
                rgb_update: TaskState::Scheduled(now),
                user_button: TaskState::Idle,
                edge_pending: false,
                fan_display: None,
                animator: None,
                refresh_flag: None,
            },
        }
    }

    /// Whether the state keeps the scheduler's rules.
    pub fn is_valid(&self) -> (valid: bool)
        ensures
            valid == self@.wf(),
    {
        let holders: bool = self.holder_is_valid(Resource::FanDisplay) && self.holder_is_valid(
            Resource::Animator,
        ) && self.holder_is_valid(Resource::RefreshFlag);
        let order: bool = self.order_is_valid(TaskId::ReadPot, TaskId::RgbUpdate)
            && self.order_is_valid(TaskId::ReadPot, TaskId::UserButton) && self.order_is_valid(
            TaskId::RgbUpdate,
            TaskId::UserButton,
        );
        let lives: bool = self.life_is_valid(TaskId::ReadPot) && self.life_is_valid(
            TaskId::RgbUpdate,
        ) && self.life_is_valid(TaskId::UserButton);
        proof {
            let state = self@;
            if holders && order && lives {
                assert forall|r: Resource, t: TaskId| #[trigger]
                    state.holds(t, r) implies state.is_running(t) && uses(t, r) by {
                    assert(state.holder_rule(r));
                }
                assert forall|low: TaskId, high: TaskId|
                    state.is_running(low) && state.is_running(high) && priority(low) < priority(
                        high,
                    ) implies state.effective_priority(low) < priority(high) by {
                    assert(state.order_rule(low, high));
                }
                assert forall|t: TaskId| state.life_rule(#[trigger] state.state_of(t), t) by {
                    assert(state.life_rule(state.state_of(t), t));
                }
            }
            if state.wf() {
                assert(state.holder_rule(Resource::FanDisplay)) by {
                    if let Some(t) = state.fan_display {
                        assert(state.holds(t, Resource::FanDisplay));
                    }
                }
                assert(state.holder_rule(Resource::Animator)) by {
                    if let Some(t) = state.animator {
                        assert(state.holds(t, Resource::Animator));
                    }
                }
                assert(state.holder_rule(Resource::RefreshFlag)) by {
                    if let Some(t) = state.refresh_flag {
                        assert(state.holds(t, Resource::RefreshFlag));
                    }
                }
                assert(state.life_rule(state.state_of(TaskId::ReadPot), TaskId::ReadPot));
                assert(state.life_rule(state.state_of(TaskId::RgbUpdate), TaskId::RgbUpdate));
                assert(state.life_rule(state.state_of(TaskId::UserButton), TaskId::UserButton));
            }
        }
        holders && order && lives
    }

    fn holder_is_valid(&self, resource: Resource) -> (valid: bool)
        ensures
            valid == self@.holder_rule(resource),
    {
        match self.holder_of(resource) {
            Some(task) => self.is_running(task) && task_uses(task, resource),
            None => true,
        }
    }

    fn order_is_valid(&self, low: TaskId, high: TaskId) -> (valid: bool)
        ensures
            valid == self@.order_rule(low, high),
    {
        !(self.is_running(low) && self.is_running(high) && task_priority(low) < task_priority(
            high,
        )) || self.effective_priority(low) < task_priority(high)
    }

    fn life_is_valid(&self, task: TaskId) -> (valid: bool)
        ensures
            valid == self@.life_rule(self@.state_of(task), task),
    {
        match self.state_of(task) {
            TaskState::Idle => task_delay(task).is_none(),
            TaskState::Scheduled(_) => task_delay(task).is_some(),
            TaskState::Running => true,
        }
    }

    /// The whole state.
    pub fn state(&self) -> (state: SchedulerState)
        ensures
            state == self@,
    {
        self.state
    }

    /// The state of a task.
    pub fn state_of(&self, task: TaskId) -> (state: TaskState)
        ensures
            state == self@.state_of(task),
    {
        match task {
            TaskId::ReadPot => self.state.read_pot,
            TaskId::RgbUpdate => self.state.rgb_update,
            TaskId::UserButton => self.state.user_button,
        }
    }

    /// The task that holds a resource.
    pub fn holder_of(&self, resource: Resource) -> (holder: Option<TaskId>)
        ensures
            holder == self@.holder_of(resource),
    {
        match resource {
            Resource::FanDisplay => self.state.fan_display,
            Resource::Animator => self.state.animator,
            Resource::RefreshFlag => self.state.refresh_flag,
        }
    }

    /// Records that the button's interrupt has fired. Until the handler is
    /// started, further edges add nothing.
    pub fn signal_edge(&mut self)
        requires
            old(self)@.wf(),
        ensures
            final(self)@.wf(),
            final(self)@ == (SchedulerState { edge_pending: true, ..old(self)@ }),
    {
        self.state.edge_pending = true;
        proof {
            lemma_same_tasks_and_holders(old(self)@, self@);
        }
    }

    /// The priority at which a task runs.
    pub fn effective_priority(&self, task: TaskId) -> (level: u8)
        ensures
            level == self@.effective_priority(task),
    {
        let mut level: u8 = task_priority(task);
        if self.is_held_by(Resource::FanDisplay, task) && resource_ceiling(Resource::FanDisplay)
            > level {
            level = resource_ceiling(Resource::FanDisplay);
        }
        if self.is_held_by(Resource::Animator, task) && resource_ceiling(Resource::Animator)
            > level {
            level = resource_ceiling(Resource::Animator);
        }
        if self.is_held_by(Resource::RefreshFlag, task) && resource_ceiling(Resource::RefreshFlag)
            > level {
            level = resource_ceiling(Resource::RefreshFlag);
        }
        level
    }

    /// Whether a task holds a resource.
    pub fn is_held_by(&self, resource: Resource, task: TaskId) -> (held: bool)
        ensures
            held == (self@.holder_of(resource) == Some(task)),
    {
        match self.holder_of(resource) {
            Some(holder) => holder == task,
            None => false,
        }
    }

    /// Whether a task has been started and has not finished.
    pub fn is_running(&self, task: TaskId) -> (running: bool)
        ensures
            running == self@.is_running(task),
    {
        match self.state_of(task) {
            TaskState::Running => true,
            _ => false,
        }
    }

    /// The level that a task has to exceed to be started.
    pub fn system_ceiling(&self) -> (level: u8)
        ensures
            level == self@.system_ceiling(),
    {
        let mut level: u8 = 0;
        if self.is_running(TaskId::ReadPot) {
            level = self.effective_priority(TaskId::ReadPot);
        }
        if self.is_running(TaskId::RgbUpdate) && self.effective_priority(TaskId::RgbUpdate)
            > level {
            level = self.effective_priority(TaskId::RgbUpdate);
        }
        if self.is_running(TaskId::UserButton) && self.effective_priority(TaskId::UserButton)
            > level {
            level = self.effective_priority(TaskId::UserButton);
        }
        level
    }

    /// Whether a task waits for nothing but the processor at `now`.
    pub fn is_ready(&self, task: TaskId, now: u32) -> (ready: bool)
        ensures
            ready == self@.is_ready(task, now),
    {
        match self.state_of(task) {
            TaskState::Idle => task_delay(task).is_none() && self.state.edge_pending,
            TaskState::Scheduled(due) => millis_between(due, now) < HALF_RANGE,
            TaskState::Running => false,
        }
    }

    /// Whether a task may be started at `now`.
    pub fn can_start(&self, task: TaskId, now: u32) -> (startable: bool)
        ensures
            startable == self@.can_start(task, now),
    {
        self.is_ready(task, now) && task_priority(task) > self.system_ceiling()
    }

    /// The task that executes, where one does.
    pub fn executing(&self) -> (task: Option<TaskId>)
        ensures
            task == self@.executing(),
    {
        if self.is_running(TaskId::UserButton) {
            Some(TaskId::UserButton)
        } else if self.is_running(TaskId::RgbUpdate) {
            Some(TaskId::RgbUpdate)
        } else if self.is_running(TaskId::ReadPot) {
            Some(TaskId::ReadPot)
        } else {
            None
        }
    }

    /// Starts the task that is to run next at `now`, where there is one: of
    /// the ready tasks whose priority is above everything started, the one
    /// of highest priority. It preempts whatever was executing. Returns
    /// the task for its owner to run.
    pub fn dispatch(&mut self, now: u32) -> (task: Option<TaskId>)
        requires
            old(self)@.wf(),
        ensures
            final(self)@.wf(),
            task == old(self)@.next_task(now),
            match task {
                Some(t) => final(self)@ == old(self)@.started(t) && final(self)@.executing()
                    == Some(t),
                None => final(self)@ == old(self)@,
            },
    {
        let next = if self.can_start(TaskId::UserButton, now) {
            Some(TaskId::UserButton)
        } else if self.can_start(TaskId::RgbUpdate, now) {
            Some(TaskId::RgbUpdate)
        } else if self.can_start(TaskId::ReadPot, now) {
            Some(TaskId::ReadPot)
        } else {
            None
        };
        if let Some(task) = next {
            self.set_state(task, TaskState::Running);
            if task_delay(task).is_none() {
                self.state.edge_pending = false;
            }
            proof {
                lemma_started_keeps_rules(old(self)@, task, now);
            }
        }
        next
    }

    /// Ends the executing task, where one executes and holds no resource:
    /// a periodic task is scheduled for `now` plus its delay, the button
    /// handler goes back to waiting for its interrupt. Whatever it had
    /// preempted executes again. Returns the task that ended.
    pub fn complete(&mut self, now: u32) -> (task: Option<TaskId>)
        requires
            old(self)@.wf(),
        ensures
            final(self)@.wf(),
            match old(self)@.executing() {
                Some(t) if !old(self)@.holds_any(t) => task == Some(t) && final(self)@ == old(
                    self,
                )@.with_state(t, SchedulerState::rest_state(t, now)),
                _ => task is None && final(self)@ == old(self)@,
            },
    {
        match self.executing() {
            Some(task) => {
                if self.is_held_by(Resource::FanDisplay, task) || self.is_held_by(
                    Resource::Animator,
                    task,
                ) || self.is_held_by(Resource::RefreshFlag, task) {
                    None
                } else {
                    let rest = match task_delay(task) {
                        Some(delay) => TaskState::Scheduled(now.wrapping_add(delay)),
                        None => TaskState::Idle,
                    };
                    self.set_state(task, rest);
                    proof {
                        lemma_completed_keeps_rules(old(self)@, task, rest);
                    }
                    Some(task)
                }
            },
            None => None,
        }
    }

    /// The executing task takes a resource. It gets it where it is one of
    /// the tasks that use the resource and does not hold it yet; it never
    /// has to wait. Returns whether it got it.
    pub fn lock(&mut self, resource: Resource) -> (granted: bool)
        requires
            old(self)@.wf(),
        ensures
            final(self)@.wf(),
            match old(self)@.executing() {
                Some(t) if uses(t, resource) && old(self)@.holder_of(resource) != Some(t) => {
                    granted && final(self)@ == old(self)@.with_holder(resource, Some(t))
                },
                _ => !granted && final(self)@ == old(self)@,
            },
    {
        match self.executing() {
            Some(task) => {
                if task_uses(task, resource) && self.holder_of(resource).is_none() {
                    self.set_holder(resource, Some(task));
                    proof {
                        lemma_locked_keeps_rules(old(self)@, task, resource);
                    }
                    true
                } else {
                    proof {
                        if uses(task, resource) {
                            lemma_lock_is_free(old(self)@, task, resource);
                        }
                    }
                    false
                }
            },
            None => false,
        }
    }

    /// The executing task gives a resource back. Returns whether it held
    /// it.
    pub fn unlock(&mut self, resource: Resource) -> (released: bool)
        requires
            old(self)@.wf(),
        ensures
            final(self)@.wf(),
            match old(self)@.executing() {
                Some(t) if old(self)@.holder_of(resource) == Some(t) => {
                    released && final(self)@ == old(self)@.with_holder(resource, None)
                },
                _ => !released && final(self)@ == old(self)@,
            },
    {
        match self.executing() {
            Some(task) => {
                if self.is_held_by(resource, task) {
                    self.set_holder(resource, None);
                    proof {
                        lemma_unlocked_keeps_rules(old(self)@, task, resource);
                    }
                    true
                } else {
                    false
                }
            },
            None => false,
        }
    }

    fn set_state(&mut self, task: TaskId, state: TaskState)
        ensures
            final(self)@ == old(self)@.with_state(task, state),
    {
        match task {
            TaskId::ReadPot => {
                self.state.read_pot = state;
            },
            TaskId::RgbUpdate => {
                self.state.rgb_update = state;
            },
            TaskId::UserButton => {
                self.state.user_button = state;
            },
        }
    }

    fn set_holder(&mut self, resource: Resource, holder: Option<TaskId>)
        ensures
            final(self)@ == old(self)@.with_holder(resource, holder),
    {
        match resource {
            Resource::FanDisplay => {
                self.state.fan_display = holder;
            },
            Resource::Animator => {
                self.state.animator = holder;
            },
            Resource::RefreshFlag => {
                self.state.refresh_flag = holder;
            },
        }
    }
}

/// The rules speak of the tasks' states and of the holders only.
proof fn lemma_same_tasks_and_holders(before: SchedulerState, after: SchedulerState)
    requires
        before.wf(),
        forall|t: TaskId| after.state_of(t) == before.state_of(t),
        forall|r: Resource| after.holder_of(r) == before.holder_of(r),
    ensures
        after.wf(),
{
    assert forall|t: TaskId| after.effective_priority(t) == before.effective_priority(t) by {
        assert(after.holder_of(Resource::FanDisplay) == before.holder_of(Resource::FanDisplay));
        assert(after.holder_of(Resource::Animator) == before.holder_of(Resource::Animator));
        assert(after.holder_of(Resource::RefreshFlag) == before.holder_of(Resource::RefreshFlag));
    }
    assert forall|low: TaskId, high: TaskId|
        after.is_running(low) && after.is_running(high) && priority(low) < priority(
            high,
        ) implies after.effective_priority(low) < priority(high) by {
        assert(before.is_running(low) && before.is_running(high));
    }
    assert forall|r: Resource, t: TaskId| #[trigger]
        after.holds(t, r) implies after.is_running(t) && uses(t, r) by {
        assert(before.holds(t, r));
    }
}

/// A task that is not started holds nothing, so it runs at its own priority.
proof fn lemma_idle_task_holds_nothing(state: SchedulerState, task: TaskId)
    requires
        state.wf(),
        !state.is_running(task),
    ensures
        !state.holds_any(task),
        state.effective_priority(task) == priority(task),
{
    assert(!state.holds(task, Resource::FanDisplay));
    assert(!state.holds(task, Resource::Animator));
    assert(!state.holds(task, Resource::RefreshFlag));
}

/// Starting a task that may be started keeps the rules, and the started
/// task is the one that executes.
proof fn lemma_started_keeps_rules(state: SchedulerState, task: TaskId, now: u32)
    requires
        state.wf(),
        state.can_start(task, now),
    ensures
        state.started(task).wf(),
        state.started(task).executing() == Some(task),
{
    let after = state.started(task);
    lemma_idle_task_holds_nothing(state, task);
    assert forall|r: Resource| after.holder_of(r) == state.holder_of(r) by {}
    assert forall|t: TaskId| after.effective_priority(t) == state.effective_priority(t) by {}
    assert forall|t: TaskId| t != task implies after.state_of(t) == state.state_of(t) by {}
    assert(after.is_running(task));
    assert forall|t: TaskId| state.is_running(t) implies state.effective_priority(t)
        < priority(task) by {
        assert(state.running_level(t) <= state.system_ceiling());
    }
    assert forall|r: Resource, t: TaskId| #[trigger]
        after.holds(t, r) implies after.is_running(t) && uses(t, r) by {
        assert(state.holds(t, r));
    }
    assert forall|low: TaskId, high: TaskId|
        after.is_running(low) && after.is_running(high) && priority(low) < priority(
            high,
        ) implies after.effective_priority(low) < priority(high) by {
        if high == task {
            assert(state.is_running(low));
        } else if low == task {
            assert(state.is_running(high));
            assert(priority(high) <= state.effective_priority(high));
        } else {
            assert(state.is_running(low) && state.is_running(high));
        }
    }
    assert forall|t: TaskId| state.is_running(t) implies priority(t) < priority(task) by {
        assert(priority(t) <= state.effective_priority(t));
    }
}

/// Ending a task that holds nothing keeps the rules.
proof fn lemma_completed_keeps_rules(state: SchedulerState, task: TaskId, rest: TaskState)
    requires
        state.wf(),
        state.is_running(task),
        !state.holds_any(task),
        rest != TaskState::Running,
        rest is Idle <==> rearm_delay(task) is None,
    ensures
        state.with_state(task, rest).wf(),
{
    let after = state.with_state(task, rest);
    assert forall|r: Resource| after.holder_of(r) == state.holder_of(r) by {}
    assert forall|t: TaskId| after.effective_priority(t) == state.effective_priority(t) by {}
    assert forall|t: TaskId| t != task implies after.state_of(t) == state.state_of(t) by {}
    assert forall|r: Resource, t: TaskId| #[trigger]
        after.holds(t, r) implies after.is_running(t) && uses(t, r) by {
        assert(state.holds(t, r));
        assert(t != task);
    }
    assert forall|low: TaskId, high: TaskId|
        after.is_running(low) && after.is_running(high) && priority(low) < priority(
            high,
        ) implies after.effective_priority(low) < priority(high) by {
        assert(state.is_running(low) && state.is_running(high));
    }
    assert forall|t: TaskId| after.life_rule(#[trigger] after.state_of(t), t) by {
        if t != task {
            assert(after.state_of(t) == state.state_of(t));
            assert(state.life_rule(state.state_of(t), t));
        }
    }
}

/// Handing a free resource to the executing task keeps the rules.
proof fn lemma_locked_keeps_rules(state: SchedulerState, task: TaskId, resource: Resource)
    requires
        state.wf(),
        state.executing() == Some(task),
        uses(task, resource),
        state.holder_of(resource) is None,
    ensures
        state.with_holder(resource, Some(task)).wf(),
{
    let after = state.with_holder(resource, Some(task));
    assert forall|t: TaskId| after.state_of(t) == state.state_of(t) by {}
    assert forall|r: Resource| r != resource implies after.holder_of(r) == state.holder_of(r) by {}
    assert forall|t: TaskId| t != task implies after.effective_priority(t)
        == state.effective_priority(t) by {}
    assert forall|r: Resource, t: TaskId| #[trigger]
        after.holds(t, r) implies after.is_running(t) && uses(t, r) by {
        if r != resource {
            assert(state.holds(t, r));
        }
    }
    assert forall|low: TaskId, high: TaskId|
        after.is_running(low) && after.is_running(high) && priority(low) < priority(
            high,
        ) implies after.effective_priority(low) < priority(high) by {
        assert(state.is_running(low) && state.is_running(high));
        if low == task {
            lemma_executing_is_highest(state, task);
        }
    }
}

/// Taking a resource back from its holder keeps the rules.
proof fn lemma_unlocked_keeps_rules(state: SchedulerState, task: TaskId, resource: Resource)
    requires
        state.wf(),
        state.holder_of(resource) == Some(task),
    ensures
        state.with_holder(resource, None).wf(),
{
    let after = state.with_holder(resource, None);
    assert forall|t: TaskId| after.state_of(t) == state.state_of(t) by {}
    assert forall|r: Resource| r != resource implies after.holder_of(r) == state.holder_of(r) by {}
    assert forall|t: TaskId| after.effective_priority(t) <= state.effective_priority(t) by {}
    assert forall|r: Resource, t: TaskId| #[trigger]
        after.holds(t, r) implies after.is_running(t) && uses(t, r) by {
        assert(r != resource);
        assert(state.holds(t, r));
    }
    assert forall|low: TaskId, high: TaskId|
        after.is_running(low) && after.is_running(high) && priority(low) < priority(
            high,
        ) implies after.effective_priority(low) < priority(high) by {
        assert(state.is_running(low) && state.is_running(high));
    }
}

} // verus!
