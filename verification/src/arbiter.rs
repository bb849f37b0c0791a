//! The arbiter: the one owner of what the tasks share. A task reaches the
//! shared state through it alone, and only while it executes and holds the
//! resources that it touches.
use vstd::prelude::*;
use crate::error::Error;
use crate::inputs::{DebouncedDInput, PotRead};
use crate::leds::Rgb;
use crate::scheduler::{lemma_lock_is_free, uses, Resource, Scheduler, SchedulerState, TaskId};
use crate::tasks::{
    button_handled, duty_updated, label_written, periodic_rgb_update, read_pot_and_update_fan,
    rgb_refreshed, user_button_handler, DutyUpdate, RgbRefresh, Shared,
};

verus! {

/// The scheduler together with the state that the tasks share.
#[derive(Clone, Copy, Debug)]
pub struct SharedStateArbiter {
    scheduler: Scheduler,
    shared: Shared,
}

impl SharedStateArbiter {
    /// The state of the tasks and of the locks.
    pub closed spec fn tasks(&self) -> SchedulerState {
        self.scheduler@
    }

    /// The shared state.
    pub closed spec fn shared(&self) -> Shared {
        self.shared
    }

    /// The scheduler's rules hold, and the fan's state is valid.
    pub open spec fn wf(&self) -> bool {
        self.tasks().wf() && self.shared().pwm_obj.wf()
    }

    /// Whether `task` may take its step: it is the one that executes, and
    /// it holds no resource yet.
    pub open spec fn admits(&self, task: TaskId) -> bool {
        self.tasks().executing() == Some(task) && !self.tasks().holds_any(task)
    }

    /// An arbiter over `shared`, with the scheduler as it is at start-up.
    pub fn new(shared: Shared, now: u32) -> (arbiter: Self)
        requires
            shared.pwm_obj.wf(),
        ensures
            arbiter.wf(),
            arbiter.shared() == shared,
            arbiter.tasks() == Scheduler::new_spec(now),
    {
        SharedStateArbiter { scheduler: Scheduler::new(now), shared }
    }

    /// Whether the scheduler's rules hold and the fan's state is valid.
    pub fn is_valid(&self) -> (valid: bool)
        ensures
            valid == self.wf(),
    {
        self.scheduler.is_valid() && self.shared.pwm_obj.is_valid()
    }

    /// A copy of the shared state, for whoever owns the arbiter.
    pub fn inspect(&self) -> (shared: Shared)
        ensures
            shared == self.shared(),
    {
        self.shared
    }

    /// A copy of the scheduler.
    pub fn scheduler(&self) -> (scheduler: Scheduler)
        ensures
            scheduler@ == self.tasks(),
    {
        self.scheduler
    }

    /// Records that the button's interrupt has fired.
    pub fn signal_edge(&mut self)
        requires
            old(self).wf(),
        ensures
            final(self).wf(),
            final(self).shared() == old(self).shared(),
            final(self).tasks() == (SchedulerState { edge_pending: true, ..old(self).tasks() }),
    {
        self.scheduler.signal_edge();
    }

    /// Starts the task that is to run next at `now`, where there is one.
    pub fn dispatch(&mut self, now: u32) -> (task: Option<TaskId>)
        requires
            old(self).wf(),
        ensures
            final(self).wf(),
            final(self).shared() == old(self).shared(),
            task == old(self).tasks().next_task(now),
            match task {
                Some(t) => final(self).tasks() == old(self).tasks().started(t) && final(self).tasks().executing() == Some(t),
                None => final(self).tasks() == old(self).tasks(),
            },
    {
        self.scheduler.dispatch(now)
    }

    /// Ends the executing task, where one executes and holds no resource.
    pub fn complete(&mut self, now: u32) -> (task: Option<TaskId>)
        requires
            old(self).wf(),
        ensures
            final(self).wf(),
            final(self).shared() == old(self).shared(),
            match old(self).tasks().executing() {
                Some(t) if !old(self).tasks().holds_any(t) => task == Some(t) && final(self).tasks() == old(self).tasks().with_state(t, SchedulerState::rest_state(t, now)),
                _ => task is None && final(self).tasks() == old(self).tasks(),
            },
    {
        self.scheduler.complete(now)
    }

    /// Takes one or two resources for `task`, where it may take its step.
    /// The executing task never has to wait for what it uses, so both are
    /// granted.
    fn enter(&mut self, task: TaskId, first: Resource, second: Resource) -> (entered: bool)
        requires
            old(self).wf(),
            uses(task, first),
            uses(task, second),
        ensures
            final(self).wf(),
            final(self).shared() == old(self).shared(),
            entered == old(self).admits(task),
            entered ==> final(self).tasks() == old(self).tasks().with_holder(
                first,
                Some(task),
            ).with_holder(second, Some(task)),
            entered ==> final(self).tasks().executing() == Some(task),
            entered ==> old(self).tasks().holder_of(first) is None && old(self).tasks().holder_of(
                second,
            ) is None,
            !entered ==> final(self).tasks() == old(self).tasks(),
    {
        let admitted: bool = match self.scheduler.executing() {
            Some(executing) => executing == task && !self.scheduler.is_held_by(
                Resource::FanDisplay,
                task,
            ) && !self.scheduler.is_held_by(Resource::Animator, task)
                && !self.scheduler.is_held_by(Resource::RefreshFlag, task),
            None => false,
        };
        if !admitted {
            return false;
        }
        proof {
            lemma_lock_is_free(self.tasks(), task, first);
            lemma_lock_is_free(self.tasks(), task, second);
        }
        let got_first: bool = self.scheduler.lock(first);
        assert(got_first);
        if second != first {
            let got_second: bool = self.scheduler.lock(second);
            assert(got_second);
        }
        true
    }

    /// Gives back what `enter` took.
    fn leave(&mut self, task: TaskId, first: Resource, second: Resource)
        requires
            old(self).wf(),
            old(self).tasks().executing() == Some(task),
            old(self).tasks().holds(task, first),
            old(self).tasks().holds(task, second),
        ensures
            final(self).wf(),
            final(self).shared() == old(self).shared(),
            final(self).tasks() == old(self).tasks().with_holder(first, None).with_holder(
                second,
                None,
            ),
    {
        let gave_first: bool = self.scheduler.unlock(first);
        assert(gave_first);
        if second != first {
            let gave_second: bool = self.scheduler.unlock(second);
            assert(gave_second);
        }
    }

    /// The polling task's step, under the lock on the fan and the display:
    /// the lock is taken, the step is made, and the lock is given back
    /// before anything is handed out. It is carried out for the polling
    /// task alone, while it executes; for anyone else nothing changes, and
    /// the answer is `Error::Generic`.
    pub fn read_pot_and_update_fan(&mut self, pot_obj: &mut PotRead, sample: u16) -> (result:
        Result<Option<DutyUpdate>, Error>)
        requires
            old(self).wf(),
        ensures
            final(self).wf(),
            final(self).tasks() == old(self).tasks(),
            if old(self).admits(TaskId::ReadPot) {
                &&& result matches Ok(update) && duty_updated(
                    old(self).shared(),
                    final(self).shared(),
                    sample,
                    update,
                )
                &&& final(pot_obj).latest() == sample
            } else {
                &&& result matches Err(e) && e == Error::Generic
                &&& final(self).shared() == old(self).shared()
                &&& *final(pot_obj) == *old(pot_obj)
            },
    {
        if !self.enter(TaskId::ReadPot, Resource::FanDisplay, Resource::FanDisplay) {
            return Err(Error::Generic);
        }
        let update = read_pot_and_update_fan(&mut self.shared, pot_obj, sample);
        self.leave(TaskId::ReadPot, Resource::FanDisplay, Resource::FanDisplay);
        Ok(update)
    }

    /// The button handler's step, under the locks on the animator and on
    /// the refresh mark. It is carried out for the button handler alone,
    /// while it executes; for anyone else nothing changes, the button is not
    /// polled, and the answer is `Error::Generic`.
    pub fn user_button_handler(
        &mut self,
        user_button: &mut DebouncedDInput,
        is_pin_high: bool,
        now_ms: u32,
    ) -> (result: Result<Option<[Rgb; 8]>, Error>)
        requires
            old(self).wf(),
        ensures
            final(self).wf(),
            final(self).tasks() == old(self).tasks(),
            if old(self).admits(TaskId::UserButton) {
                &&& result matches Ok(frame) && button_handled(
                    old(self).shared(),
                    final(self).shared(),
                    old(user_button)@.report(is_pin_high, now_ms as int),
                    now_ms,
                    frame,
                )
                &&& final(user_button)@ == old(user_button)@.polled(is_pin_high, now_ms as int)
            } else {
                &&& result matches Err(e) && e == Error::Generic
                &&& final(self).shared() == old(self).shared()
                &&& *final(user_button) == *old(user_button)
            },
    {
        if !self.enter(TaskId::UserButton, Resource::Animator, Resource::RefreshFlag) {
            return Err(Error::Generic);
        }
        let frame = user_button_handler(&mut self.shared, user_button, is_pin_high, now_ms);
        self.leave(TaskId::UserButton, Resource::Animator, Resource::RefreshFlag);
        Ok(frame)
    }

    /// The animation task's step, under the locks on the animator and on
    /// the refresh mark. It is carried out for the animation task alone,
    /// while it executes; for anyone else the answer is `Error::Generic`.
    /// The shared state stays as it is either way.
    pub fn periodic_rgb_update(&mut self, now_ms: u32) -> (result: Result<RgbRefresh, Error>)
        requires
            old(self).wf(),
        ensures
            final(self).wf(),
            final(self).tasks() == old(self).tasks(),
            final(self).shared() == old(self).shared(),
            if old(self).admits(TaskId::RgbUpdate) {
                result matches Ok(refresh) && rgb_refreshed(old(self).shared(), now_ms, refresh)
            } else {
                result matches Err(e) && e == Error::Generic
            },
    {
        if !self.enter(TaskId::RgbUpdate, Resource::Animator, Resource::RefreshFlag) {
            return Err(Error::Generic);
        }
        let refresh = periodic_rgb_update(&self.shared, now_ms);
        self.leave(TaskId::RgbUpdate, Resource::Animator, Resource::RefreshFlag);
        Ok(refresh)
    }

    /// Takes in how the transfer of the mode's name to the display went,
    /// under the lock on the refresh mark, for the animation task while it
    /// executes. After a transfer that succeeded the name is no longer due;
    /// after one that failed it stays due, and the failure is handed on.
    /// For anyone else nothing changes, and the answer is `Error::Generic`.
    pub fn label_written(&mut self, outcome: Result<(), Error>) -> (result: Result<(), Error>)
        requires
            old(self).wf(),
        ensures
            final(self).wf(),
            final(self).tasks() == old(self).tasks(),
            final(self).shared().pwm_obj == old(self).shared().pwm_obj,
            final(self).shared().lcd == old(self).shared().lcd,
            if old(self).admits(TaskId::RgbUpdate) {
                &&& result == outcome
                &&& final(self).shared().rgb_needs_lcd_update == (old(self).shared().rgb_needs_lcd_update && outcome is Err)
            } else {
                &&& result == Err::<(), Error>(Error::Generic)
                &&& final(self).shared() == old(self).shared()
            },
    {
        if !self.enter(TaskId::RgbUpdate, Resource::RefreshFlag, Resource::RefreshFlag) {
            return Err(Error::Generic);
        }
        let result = label_written(&mut self.shared, outcome);
        self.leave(TaskId::RgbUpdate, Resource::RefreshFlag, Resource::RefreshFlag);
        result
    }
}

} // verus!
