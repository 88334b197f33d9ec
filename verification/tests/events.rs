use ajam::images::ButtonImage;
use ajam::key_combo::{Key, KeyCombo, Modifiers};
use ajam::manifest::{Action, Button, DeviceKind, EncoderActions, Manifest, Page};
use ajam::profile::Profile;
use ajam::state::events::{DeviceUpdate, SessionCommand, KEY_HOME, KEY_NEXT, KEY_PREVIOUS};
use ajam::state::State;

fn combo(keys: Vec<Key>) -> KeyCombo {
    KeyCombo { modifiers: Modifiers::empty(), keys }
}

fn session() -> State {
    let mut manifest = Manifest {
        device: DeviceKind::Akp03,
        pages_order: vec!["main".to_string(), "alt".to_string()],
        pages: Vec::new(),
        encoders: Vec::new(),
    };
    let mut main_page = Page { buttons: Vec::new() };
    main_page.buttons.push((
        0,
        Button {
            image: ButtonImage::Source { src: "a.png".to_string() },
            action: Action::Keys { keys: combo(vec![Key::Unicode('a')]) },
        },
    ));
    main_page.buttons.push((
        1,
        Button {
            image: ButtonImage::Source { src: "b.png".to_string() },
            action: Action::Command { command: "echo hi".to_string() },
        },
    ));
    main_page.buttons.push((
        2,
        Button {
            image: ButtonImage::Source { src: "c.png".to_string() },
            action: Action::Navigate { navigate: "alt".to_string() },
        },
    ));
    manifest.pages.push(("main".to_string(), main_page));
    manifest.pages.push(("alt".to_string(), Page { buttons: Vec::new() }));
    manifest.encoders.push((
        0,
        EncoderActions {
            plus: Action::Keys { keys: combo(vec![Key::IlluminationUp]) },
            minus: Action::Keys { keys: combo(vec![Key::IlluminationDown]) },
            click: Some(Action::Command { command: "toggle-mute".to_string() }),
        },
    ));
    manifest.encoders.push((
        1,
        EncoderActions {
            plus: Action::Keys { keys: combo(vec![Key::VolumeUp]) },
            minus: Action::Keys { keys: combo(vec![Key::VolumeDown]) },
            click: None,
        },
    ));
    State::with_profiles(vec![Profile {
        name: "common".to_string(),
        manifest,
        path: "/profiles/common".to_string(),
    }])
}

#[test]
fn test_next_key_cycles_pages() {
    let mut state = session();
    // the reserved "next" key flips between the two pages of the order;
    // images are never touched because the render stops at the missing deck
    state.handle_device_update(&DeviceUpdate::ButtonDown(KEY_NEXT));
    assert_eq!(
        state.get_current_profile_and_page(),
        ("common".to_string(), "alt".to_string())
    );
    state.handle_device_update(&DeviceUpdate::ButtonDown(KEY_NEXT));
    assert_eq!(
        state.get_current_profile_and_page(),
        ("common".to_string(), "main".to_string())
    );
}

#[test]
fn test_previous_key_cycles_pages() {
    let mut state = session();
    state.handle_device_update(&DeviceUpdate::ButtonDown(KEY_PREVIOUS));
    assert_eq!(
        state.get_current_profile_and_page(),
        ("common".to_string(), "alt".to_string())
    );
}

#[test]
fn test_home_key_on_default_changes_nothing() {
    let mut state = session();
    let cmds = state.handle_device_update(&DeviceUpdate::ButtonDown(KEY_HOME));
    assert!(cmds.is_empty());
    assert_eq!(
        state.get_current_profile_and_page(),
        ("common".to_string(), "main".to_string())
    );
}

#[test]
fn test_button_down_presses_bound_combo() {
    let mut state = session();
    let cmds = state.handle_device_update(&DeviceUpdate::ButtonDown(0));
    assert_eq!(cmds.len(), 1);
    assert!(matches!(
        &cmds[0],
        SessionCommand::Press(c) if c.keys == vec![Key::Unicode('a')]
    ));
}

#[test]
fn test_button_up_releases_bound_combo() {
    let mut state = session();
    let cmds = state.handle_device_update(&DeviceUpdate::ButtonUp(0));
    assert_eq!(cmds.len(), 1);
    assert!(matches!(
        &cmds[0],
        SessionCommand::Release(c) if c.keys == vec![Key::Unicode('a')]
    ));
}

#[test]
fn test_button_up_without_combo_does_nothing() {
    let mut state = session();
    assert!(state.handle_device_update(&DeviceUpdate::ButtonUp(1)).is_empty());
    assert!(state.handle_device_update(&DeviceUpdate::ButtonUp(5)).is_empty());
}

#[test]
fn test_button_down_runs_bound_command() {
    let mut state = session();
    let cmds = state.handle_device_update(&DeviceUpdate::ButtonDown(1));
    assert_eq!(cmds.len(), 1);
    assert!(matches!(
        &cmds[0],
        SessionCommand::RunShell(c) if c == "echo hi"
    ));
}

#[test]
fn test_button_down_navigates() {
    let mut state = session();
    state.handle_device_update(&DeviceUpdate::ButtonDown(2));
    assert_eq!(
        state.get_current_profile_and_page(),
        ("common".to_string(), "alt".to_string())
    );
}

#[test]
fn test_unbound_button_does_nothing() {
    let mut state = session();
    let cmds = state.handle_device_update(&DeviceUpdate::ButtonDown(5));
    assert!(cmds.is_empty());
}

#[test]
fn test_illumination_twist_steps_brightness() {
    let mut state = session();
    assert_eq!(state.get_brightness(), 100);
    // without a deck the value still moves, but nothing is pushed
    let cmds = state.handle_device_update(&DeviceUpdate::EncoderTwist(0, 1));
    assert_eq!(state.get_brightness(), 105);
    assert!(cmds.is_empty());
    let cmds = state.handle_device_update(&DeviceUpdate::EncoderTwist(0, -1));
    assert_eq!(state.get_brightness(), 100);
    assert!(cmds.is_empty());
    // with a deck each tick asks for exactly one brightness push and
    // never for key injection
    state.attach_device(DeviceKind::Akp03);
    let cmds = state.handle_device_update(&DeviceUpdate::EncoderTwist(0, 3));
    assert_eq!(state.get_brightness(), 105);
    assert_eq!(cmds.len(), 1);
    assert!(matches!(cmds[0], SessionCommand::PushBrightness(105)));
    let cmds = state.handle_device_update(&DeviceUpdate::EncoderTwist(0, -2));
    assert_eq!(state.get_brightness(), 100);
    assert!(matches!(cmds[0], SessionCommand::PushBrightness(100)));
}

#[test]
fn test_brightness_wraps_at_bounds() {
    let mut state = session();
    for _ in 0..20 {
        state.handle_device_update(&DeviceUpdate::EncoderTwist(0, 1));
    }
    // 100 + 20 * 5 wraps past 255 back to small values
    assert_eq!(state.get_brightness(), 200);
    for _ in 0..12 {
        state.handle_device_update(&DeviceUpdate::EncoderTwist(0, 1));
    }
    assert_eq!(state.get_brightness(), 4);
}

#[test]
fn test_plain_twist_performs_combo() {
    let mut state = session();
    let cmds = state.handle_device_update(&DeviceUpdate::EncoderTwist(1, 1));
    assert_eq!(cmds.len(), 1);
    assert!(matches!(
        &cmds[0],
        SessionCommand::Perform(c) if c.keys == vec![Key::VolumeUp]
    ));
    let cmds = state.handle_device_update(&DeviceUpdate::EncoderTwist(1, -1));
    assert!(matches!(
        &cmds[0],
        SessionCommand::Perform(c) if c.keys == vec![Key::VolumeDown]
    ));
}

#[test]
fn test_encoder_click_runs_bound_action() {
    let mut state = session();
    let cmds = state.handle_device_update(&DeviceUpdate::EncoderDown(0));
    assert_eq!(cmds.len(), 1);
    assert!(matches!(
        &cmds[0],
        SessionCommand::RunShell(c) if c == "toggle-mute"
    ));
}

#[test]
fn test_encoder_click_without_binding() {
    let mut state = session();
    assert!(state.handle_device_update(&DeviceUpdate::EncoderDown(1)).is_empty());
    assert!(state.handle_device_update(&DeviceUpdate::EncoderDown(2)).is_empty());
}

#[test]
fn test_encoder_release_does_nothing() {
    let mut state = session();
    assert!(state.handle_device_update(&DeviceUpdate::EncoderUp(0)).is_empty());
}
