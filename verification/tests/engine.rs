use nova_gfx::engine::{add_process, add_system, add_system_early, add_system_late, Context};
use nova_gfx::input::{Button, ButtonEvent, ButtonState, Input, BUTTON_COUNT};
use nova_gfx::shared_str::SharedStr;
use nova_gfx::time::{setup, tick, Clock};
use nova_gfx::types::Size;
use nova_gfx::window::{Event, OpenError, WindowOptions};

#[test]
fn systems_are_registered_in_their_group() {
    let mut ctx = Context::new();
    assert!(ctx.is_setting_up());
    add_process(&mut ctx, 1);
    add_process(&mut ctx, 2);
    add_system_early(&mut ctx, 10, "early".to_string(), vec![]);
    add_system(&mut ctx, 11, "main".to_string(), vec!["early".to_string()]);
    add_system(&mut ctx, 12, "other".to_string(), vec![]);
    add_system_late(&mut ctx, 13, "late".to_string(), vec!["main".to_string(), "other".to_string()]);
    let setup = ctx.start().expect("the engine was being set up");
    assert!(!ctx.is_setting_up());
    assert!(ctx.start().is_none());
    assert_eq!(setup.processes, vec![1, 2]);
    assert_eq!(setup.early_systems.len(), 1);
    assert_eq!(setup.early_systems[0].name, "early");
    assert_eq!(setup.systems.len(), 2);
    assert_eq!(setup.systems[0].system, 11);
    assert_eq!(setup.systems[0].dependencies, vec!["early".to_string()]);
    assert_eq!(setup.systems[1].name, "other");
    assert_eq!(setup.late_systems.len(), 1);
    assert_eq!(setup.late_systems[0].dependencies.len(), 2);
}

#[test]
fn clock_counts_ticks_and_time_between_them() {
    let mut clock = setup(1_000);
    assert_eq!(clock, Clock { ticks: 0, ticked_at: 1_000, delta_time: 0 });
    tick(&mut clock, 17_000);
    assert_eq!(clock, Clock { ticks: 1, ticked_at: 17_000, delta_time: 16_000 });
    tick(&mut clock, 17_000);
    assert_eq!(clock, Clock { ticks: 2, ticked_at: 17_000, delta_time: 0 });
    tick(&mut clock, u64::MAX);
    assert_eq!(clock.delta_time, u64::MAX - 17_000);
    assert_eq!(clock.ticks, 3);
}

#[test]
fn no_button_is_pressed_at_first() {
    let input = Input::new();
    assert_eq!(input.buttons.len(), BUTTON_COUNT);
    for button in [Button::Up, Button::Down, Button::Left, Button::Right, Button::Accept, Button::Cancel] {
        assert!(!input.is_pressed(button));
        assert!(!input.is_pressed_repeated(button));
    }
}

#[test]
fn buttons_have_their_own_state() {
    let all = [Button::Up, Button::Down, Button::Left, Button::Right, Button::Accept, Button::Cancel];
    for (position, button) in all.iter().enumerate() {
        assert_eq!(button.index(), position);
        let mut input = Input::new();
        input.update(5, &vec![ButtonEvent::Pressed(*button)]);
        for other in all.iter() {
            assert_eq!(input.is_pressed(*other), other == button);
        }
    }
}

#[test]
fn press_is_repeated_only_in_the_frame_of_the_event() {
    let mut input = Input::new();
    input.update(100, &vec![ButtonEvent::Pressed(Button::Accept)]);
    assert!(input.is_pressed(Button::Accept));
    assert!(input.is_pressed_repeated(Button::Accept));
    assert_eq!(input.buttons[4], ButtonState { pressed_at: Some(100), repeated: true });

    input.update(200, &vec![]);
    assert!(input.is_pressed(Button::Accept));
    assert!(!input.is_pressed_repeated(Button::Accept));

    input.update(300, &vec![ButtonEvent::Pressed(Button::Accept)]);
    assert_eq!(input.buttons[4], ButtonState { pressed_at: Some(100), repeated: true });

    input.update(400, &vec![ButtonEvent::Released(Button::Accept)]);
    assert_eq!(input.buttons[4], ButtonState { pressed_at: None, repeated: false });
}

#[test]
fn events_of_one_frame_apply_in_order() {
    let mut input = Input::new();
    input.update(
        7,
        &vec![
            ButtonEvent::Pressed(Button::Left),
            ButtonEvent::Released(Button::Left),
            ButtonEvent::Pressed(Button::Right),
            ButtonEvent::Released(Button::Up),
        ],
    );
    assert!(!input.is_pressed(Button::Left));
    assert!(input.is_pressed(Button::Right));
    assert!(input.is_pressed_repeated(Button::Right));
    assert!(!input.is_pressed(Button::Up));
    input.update(9, &vec![ButtonEvent::Released(Button::Right), ButtonEvent::Pressed(Button::Right)]);
    assert_eq!(input.buttons[3], ButtonState { pressed_at: Some(9), repeated: true });
}

#[test]
fn window_options_start_large_and_untitled() {
    let mut options = WindowOptions::new();
    assert_eq!(options.title, "");
    assert_eq!(options.size, Size::new(2560, 1440));
    options.set_title("nova");
    assert_eq!(options.title, "nova");
    options.set_title("a longer title");
    assert_eq!(options.title, "a longer title");
    options.set_title("");
    assert_eq!(options.title, "");
    assert_eq!(options.size, Size::new(2560, 1440));
}

#[test]
fn open_errors_describe_themselves() {
    assert_eq!(OpenError::Unknown.to_string(), "unknown error");
    assert_eq!(OpenError::CreationFailed("no display".to_string()).to_string(), "no display");
    assert_ne!(Event::CloseRequested, Event::Resized);
}

#[test]
fn shared_strings_compare_by_text() {
    let empty = SharedStr::new();
    assert_eq!(empty.as_str(), "");
    assert!(matches!(empty, SharedStr::Static(_)));
    let fixed = SharedStr::from_static("hello");
    let owned = SharedStr::from_string("hello".to_string());
    assert!(matches!(owned, SharedStr::Arc(_)));
    assert_eq!(fixed.as_str(), "hello");
    assert_eq!(owned.as_str(), "hello");
    assert!(fixed.same(&owned));
    assert!(owned.same(&fixed));
    assert!(owned.clone().same(&owned));
    assert!(!fixed.same(&empty));
    assert!(!owned.same(&SharedStr::from_static("hellp")));
    assert!(empty.same(&SharedStr::from_string(String::new())));
}
