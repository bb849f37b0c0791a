use fan_control::scheduler::{
    resource_ceiling, task_delay, task_priority, task_uses, Resource, Scheduler, TaskId,
    TaskState,
};

const TASKS: [TaskId; 3] = [TaskId::ReadPot, TaskId::RgbUpdate, TaskId::UserButton];
const RESOURCES: [Resource; 3] = [Resource::FanDisplay, Resource::Animator, Resource::RefreshFlag];

#[test]
fn priorities_and_delays_are_fixed() {
    assert_eq!(task_priority(TaskId::ReadPot), 1);
    assert_eq!(task_priority(TaskId::RgbUpdate), 2);
    assert_eq!(task_priority(TaskId::UserButton), 3);
    assert_eq!(task_delay(TaskId::ReadPot), Some(100));
    assert_eq!(task_delay(TaskId::RgbUpdate), Some(50));
    assert_eq!(task_delay(TaskId::UserButton), None);
}

#[test]
fn ceiling_is_the_highest_priority_among_users() {
    for resource in RESOURCES {
        let mut highest: u8 = 0;
        for task in TASKS {
            if task_uses(task, resource) {
                highest = highest.max(task_priority(task));
            }
        }
        assert_eq!(resource_ceiling(resource), highest);
        assert_eq!(resource_ceiling(resource), 3);
    }
    assert!(task_uses(TaskId::ReadPot, Resource::FanDisplay));
    assert!(!task_uses(TaskId::ReadPot, Resource::Animator));
    assert!(!task_uses(TaskId::ReadPot, Resource::RefreshFlag));
}

#[test]
fn periodic_tasks_start_in_order_of_priority() {
    let mut scheduler = Scheduler::new(0);
    assert_eq!(scheduler.state_of(TaskId::ReadPot), TaskState::Scheduled(0));
    assert_eq!(scheduler.state_of(TaskId::RgbUpdate), TaskState::Scheduled(0));
    assert_eq!(scheduler.state_of(TaskId::UserButton), TaskState::Idle);
    assert_eq!(scheduler.executing(), None);
    assert_eq!(scheduler.dispatch(0), Some(TaskId::RgbUpdate));
    assert_eq!(scheduler.executing(), Some(TaskId::RgbUpdate));
    assert_eq!(scheduler.dispatch(0), None);
    assert_eq!(scheduler.complete(0), Some(TaskId::RgbUpdate));
    assert_eq!(scheduler.state_of(TaskId::RgbUpdate), TaskState::Scheduled(50));
    assert_eq!(scheduler.dispatch(0), Some(TaskId::ReadPot));
    assert_eq!(scheduler.complete(3), Some(TaskId::ReadPot));
    assert_eq!(scheduler.state_of(TaskId::ReadPot), TaskState::Scheduled(103));
    assert_eq!(scheduler.dispatch(3), None);
    assert_eq!(scheduler.dispatch(49), None);
    assert_eq!(scheduler.dispatch(50), Some(TaskId::RgbUpdate));
}

#[test]
fn nothing_completes_while_nothing_runs() {
    let mut scheduler = Scheduler::new(10);
    assert_eq!(scheduler.complete(10), None);
    assert!(!scheduler.lock(Resource::FanDisplay));
    assert!(!scheduler.unlock(Resource::FanDisplay));
    assert_eq!(scheduler.state(), Scheduler::new(10).state());
}

#[test]
fn button_edge_preempts_a_periodic_task() {
    let mut scheduler = Scheduler::new(0);
    assert_eq!(scheduler.dispatch(0), Some(TaskId::RgbUpdate));
    scheduler.signal_edge();
    assert!(scheduler.is_ready(TaskId::UserButton, 1));
    assert_eq!(scheduler.dispatch(1), Some(TaskId::UserButton));
    assert_eq!(scheduler.executing(), Some(TaskId::UserButton));
    assert!(scheduler.is_running(TaskId::RgbUpdate));
    assert!(!scheduler.state().edge_pending);
    assert_eq!(scheduler.complete(2), Some(TaskId::UserButton));
    assert_eq!(scheduler.state_of(TaskId::UserButton), TaskState::Idle);
    assert_eq!(scheduler.executing(), Some(TaskId::RgbUpdate));
    assert_eq!(scheduler.complete(4), Some(TaskId::RgbUpdate));
    assert_eq!(scheduler.state_of(TaskId::RgbUpdate), TaskState::Scheduled(54));
}

#[test]
fn lower_priority_does_not_preempt() {
    let mut scheduler = Scheduler::new(0);
    assert_eq!(scheduler.dispatch(0), Some(TaskId::RgbUpdate));
    assert!(scheduler.is_ready(TaskId::ReadPot, 0));
    assert!(!scheduler.can_start(TaskId::ReadPot, 0));
    assert_eq!(scheduler.system_ceiling(), 2);
    assert_eq!(scheduler.dispatch(0), None);
}

#[test]
fn held_resource_keeps_its_users_out() {
    let mut scheduler = Scheduler::new(0);
    assert_eq!(scheduler.dispatch(0), Some(TaskId::RgbUpdate));
    assert_eq!(scheduler.complete(0), Some(TaskId::RgbUpdate));
    assert_eq!(scheduler.dispatch(0), Some(TaskId::ReadPot));
    assert_eq!(scheduler.effective_priority(TaskId::ReadPot), 1);
    assert!(scheduler.lock(Resource::FanDisplay));
    assert_eq!(scheduler.holder_of(Resource::FanDisplay), Some(TaskId::ReadPot));
    assert_eq!(scheduler.effective_priority(TaskId::ReadPot), 3);
    assert_eq!(scheduler.system_ceiling(), 3);
    scheduler.signal_edge();
    assert!(scheduler.is_ready(TaskId::UserButton, 60));
    assert!(scheduler.is_ready(TaskId::RgbUpdate, 60));
    assert_eq!(scheduler.dispatch(60), None);
    assert!(scheduler.unlock(Resource::FanDisplay));
    assert_eq!(scheduler.holder_of(Resource::FanDisplay), None);
    assert_eq!(scheduler.dispatch(60), Some(TaskId::UserButton));
    assert_eq!(scheduler.complete(61), Some(TaskId::UserButton));
    assert_eq!(scheduler.dispatch(61), Some(TaskId::RgbUpdate));
}

#[test]
fn lock_is_refused_to_a_task_that_does_not_use_the_resource() {
    let mut scheduler = Scheduler::new(0);
    scheduler.dispatch(0);
    scheduler.complete(0);
    assert_eq!(scheduler.dispatch(0), Some(TaskId::ReadPot));
    assert!(!scheduler.lock(Resource::Animator));
    assert!(!scheduler.lock(Resource::RefreshFlag));
    assert_eq!(scheduler.holder_of(Resource::Animator), None);
    assert!(scheduler.lock(Resource::FanDisplay));
    assert!(!scheduler.lock(Resource::FanDisplay));
    assert!(!scheduler.unlock(Resource::Animator));
}

#[test]
fn task_that_holds_a_resource_does_not_complete() {
    let mut scheduler = Scheduler::new(0);
    assert_eq!(scheduler.dispatch(0), Some(TaskId::RgbUpdate));
    assert!(scheduler.lock(Resource::Animator));
    assert!(scheduler.lock(Resource::RefreshFlag));
    assert_eq!(scheduler.complete(5), None);
    assert!(scheduler.unlock(Resource::Animator));
    assert_eq!(scheduler.complete(5), None);
    assert!(scheduler.unlock(Resource::RefreshFlag));
    assert_eq!(scheduler.complete(5), Some(TaskId::RgbUpdate));
    assert_eq!(scheduler.state_of(TaskId::RgbUpdate), TaskState::Scheduled(55));
}

#[test]
fn edge_without_pending_interrupt_starts_nothing() {
    let mut scheduler = Scheduler::new(1000);
    assert!(!scheduler.is_ready(TaskId::UserButton, 1000));
    scheduler.signal_edge();
    scheduler.signal_edge();
    assert_eq!(scheduler.dispatch(1000), Some(TaskId::UserButton));
    assert_eq!(scheduler.complete(1000), Some(TaskId::UserButton));
    assert!(!scheduler.is_ready(TaskId::UserButton, 1000));
}

#[test]
fn edge_during_the_handler_runs_it_again() {
    let mut scheduler = Scheduler::new(0);
    scheduler.signal_edge();
    assert_eq!(scheduler.dispatch(0), Some(TaskId::UserButton));
    scheduler.signal_edge();
    assert_eq!(scheduler.dispatch(0), None);
    assert_eq!(scheduler.complete(1), Some(TaskId::UserButton));
    assert_eq!(scheduler.dispatch(1), Some(TaskId::UserButton));
}

#[test]
fn due_time_is_reached_across_a_wrap_of_the_clock() {
    let start: u32 = u32::MAX - 20;
    let mut scheduler = Scheduler::new(start);
    assert_eq!(scheduler.dispatch(start), Some(TaskId::RgbUpdate));
    assert_eq!(scheduler.complete(start), Some(TaskId::RgbUpdate));
    assert_eq!(scheduler.state_of(TaskId::RgbUpdate), TaskState::Scheduled(29));
    assert_eq!(scheduler.dispatch(start), Some(TaskId::ReadPot));
    assert_eq!(scheduler.complete(start), Some(TaskId::ReadPot));
    assert_eq!(scheduler.state_of(TaskId::ReadPot), TaskState::Scheduled(79));
    assert_eq!(scheduler.dispatch(u32::MAX), None);
    assert_eq!(scheduler.dispatch(28), None);
    assert_eq!(scheduler.dispatch(29), Some(TaskId::RgbUpdate));
    assert_eq!(scheduler.complete(30), Some(TaskId::RgbUpdate));
    assert_eq!(scheduler.dispatch(78), None);
    assert_eq!(scheduler.dispatch(79), Some(TaskId::ReadPot));
}

#[test]
fn due_time_before_the_clock_is_not_reached() {
    let mut scheduler = Scheduler::new(500);
    assert!(!scheduler.is_ready(TaskId::ReadPot, 499));
    assert!(!scheduler.is_ready(TaskId::ReadPot, 0));
    assert!(scheduler.is_ready(TaskId::ReadPot, 500));
    assert!(scheduler.is_ready(TaskId::ReadPot, 500 + 0x7FFF_FFFF));
    assert!(!scheduler.is_ready(TaskId::ReadPot, 500 + 0x8000_0000));
    assert_eq!(scheduler.dispatch(499), None);
}

#[test]
fn every_reachable_state_keeps_the_rules() {
    let mut scheduler = Scheduler::new(0);
    assert!(scheduler.is_valid());
    let mut time: u32 = 0;
    let mut seed: u32 = 12345;
    for _ in 0..5000 {
        seed = seed.wrapping_mul(1_103_515_245).wrapping_add(12345);
        let choice: u32 = (seed >> 16) % 8;
        let resource = RESOURCES[((seed >> 8) % 3) as usize];
        match choice {
            0 => scheduler.signal_edge(),
            1 | 2 => {
                scheduler.dispatch(time);
            },
            3 => {
                scheduler.complete(time);
            },
            4 | 5 => {
                scheduler.lock(resource);
            },
            6 => {
                scheduler.unlock(resource);
            },
            _ => time = time.wrapping_add(17),
        }
        assert!(scheduler.is_valid());
        for resource in RESOURCES {
            if let Some(holder) = scheduler.holder_of(resource) {
                assert!(scheduler.is_running(holder));
                for task in TASKS {
                    if task_uses(task, resource) {
                        assert!(!scheduler.can_start(task, time));
                    }
                }
            }
        }
    }
}
