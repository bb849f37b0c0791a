use fan_control::arbiter::SharedStateArbiter;
use fan_control::error::Error;
use fan_control::inputs::{DebouncedDInput, PotRead};
use fan_control::pwm_fan::compute_frame;
use fan_control::scheduler::{TaskId, TaskState};
use fan_control::tasks::init;

fn started(now: u32) -> SharedStateArbiter {
    SharedStateArbiter::new(init(1000).shared, now)
}

#[test]
fn steps_are_refused_while_no_task_executes() {
    let mut arbiter = started(0);
    let mut pot = PotRead::with_adc01();
    let mut button = DebouncedDInput::with_pullup();
    assert!(matches!(arbiter.read_pot_and_update_fan(&mut pot, 4000), Err(Error::Generic)));
    assert!(matches!(arbiter.user_button_handler(&mut button, false, 50), Err(Error::Generic)));
    assert!(matches!(arbiter.periodic_rgb_update(0), Err(Error::Generic)));
    assert_eq!(arbiter.label_written(Ok(())), Err(Error::Generic));
    assert_eq!(arbiter.inspect().pwm_obj.get_duty(), 50);
    assert!(arbiter.inspect().rgb_needs_lcd_update);
    assert!(arbiter.is_valid());
}

#[test]
fn step_is_refused_to_another_task() {
    let mut arbiter = started(0);
    let mut pot = PotRead::with_adc01();
    let mut button = DebouncedDInput::with_pullup();
    assert_eq!(arbiter.dispatch(0), Some(TaskId::RgbUpdate));
    assert!(matches!(arbiter.read_pot_and_update_fan(&mut pot, 4000), Err(Error::Generic)));
    assert!(matches!(arbiter.user_button_handler(&mut button, false, 50), Err(Error::Generic)));
    assert!(button.accepted_level());
    assert_eq!(arbiter.inspect().pwm_obj.get_duty(), 50);
    assert!(arbiter.periodic_rgb_update(0).is_ok());
}

#[test]
fn animation_step_runs_under_its_locks_and_releases_them() {
    let mut arbiter = started(0);
    assert_eq!(arbiter.dispatch(0), Some(TaskId::RgbUpdate));
    let before = arbiter.scheduler().state();
    let refresh = arbiter.periodic_rgb_update(7).expect("the animation task executes");
    assert_eq!(arbiter.scheduler().state(), before);
    assert_eq!(refresh.frame, Some(compute_frame(0, 7, 128)));
    assert_eq!(refresh.label.map(|w| w.text), Some(b"Rainbow Twirl".to_vec()));
    assert_eq!(arbiter.label_written(Err(Error::I2C)), Err(Error::I2C));
    assert!(arbiter.inspect().rgb_needs_lcd_update);
    assert_eq!(arbiter.label_written(Ok(())), Ok(()));
    assert!(!arbiter.inspect().rgb_needs_lcd_update);
    assert_eq!(arbiter.complete(9), Some(TaskId::RgbUpdate));
    assert_eq!(arbiter.scheduler().state_of(TaskId::RgbUpdate), TaskState::Scheduled(59));
}

#[test]
fn polling_step_sets_the_fan() {
    let mut arbiter = started(0);
    let mut pot = PotRead::with_adc01();
    assert_eq!(arbiter.dispatch(0), Some(TaskId::RgbUpdate));
    assert_eq!(arbiter.complete(0), Some(TaskId::RgbUpdate));
    assert_eq!(arbiter.dispatch(0), Some(TaskId::ReadPot));
    let update = arbiter.read_pot_and_update_fan(&mut pot, 1024).expect("the polling task executes");
    let update = update.expect("the duty cycle changed");
    assert_eq!(update.compare, 249);
    assert_eq!(update.display.1.text, b"25%".to_vec());
    assert_eq!(arbiter.inspect().pwm_obj.get_duty(), 25);
    assert_eq!(arbiter.scheduler().holder_of(fan_control::scheduler::Resource::FanDisplay), None);
    assert_eq!(arbiter.complete(2), Some(TaskId::ReadPot));
    assert!(arbiter.scheduler().is_valid());
}

#[test]
fn button_edge_is_served_before_the_periodic_tasks() {
    let mut arbiter = started(100);
    let mut button = DebouncedDInput::with_pullup();
    let polls = [(false, 100u32), (false, 111), (true, 120), (true, 131)];
    let mut frames = Vec::new();
    for (level, at) in polls {
        arbiter.signal_edge();
        assert_eq!(arbiter.dispatch(at), Some(TaskId::UserButton));
        let frame = arbiter.user_button_handler(&mut button, level, at).expect("the handler executes");
        frames.push(frame);
        assert_eq!(arbiter.complete(at), Some(TaskId::UserButton));
    }
    assert_eq!(frames, vec![None, None, None, Some(compute_frame(1, 131, 128))]);
    assert_eq!(arbiter.inspect().pwm_obj.rgb().map(|r| r.color_mode()), Some(1));
    assert_eq!(arbiter.dispatch(131), Some(TaskId::RgbUpdate));
}
