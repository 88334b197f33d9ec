use ajam::activity::{ActivityEvent, ActivityMonitor, Event, Monitor};
use ajam::agent::LaunchAgent;
use ajam::images::ButtonImage;
use ajam::manifest::{Action, Button, DeviceKind, Manifest, Page};
use ajam::materialized_page::MaterializedPage;
use ajam::profile::Profile;
use ajam::state::navigation::NavigationError;
use ajam::state::render::RenderError;
use ajam::state::State;

fn empty_page() -> Page {
    Page { buttons: Vec::new() }
}

fn profile_for(name: &str, kind: DeviceKind) -> Profile {
    let mut manifest = Manifest {
        device: kind,
        pages_order: vec!["main".to_string()],
        pages: Vec::new(),
        encoders: Vec::new(),
    };
    manifest.pages.push(("main".to_string(), empty_page()));
    Profile {
        name: name.to_string(),
        manifest,
        path: format!("/profiles/{}", name),
    }
}

#[test]
fn test_render_without_device_fails() {
    let mut state = State::with_profiles(vec![profile_for("common", DeviceKind::Akp03)]);
    let r = state.render_active_page();
    assert!(matches!(r, Err(RenderError::NoDevice)));
}

#[test]
fn test_render_empty_page_succeeds() {
    let mut state = State::with_profiles(vec![profile_for("common", DeviceKind::Akp03)]);
    state.attach_device(DeviceKind::Akp03);
    let mp = state.render_active_page().unwrap();
    assert_eq!(mp.0.len(), 6);
    assert!(mp.0.iter().all(|slot| slot.is_none()));
}

#[test]
fn test_render_page_wider_than_deck_fails() {
    // a fifteen-key profile cannot be written to a six-display deck
    let mut state = State::with_profiles(vec![profile_for("common", DeviceKind::Akp153)]);
    state.attach_device(DeviceKind::Akp03);
    let r = state.render_active_page();
    assert!(matches!(r, Err(RenderError::ButtonIndexOutOfBounds(9))));
}

#[test]
fn test_render_without_active_page_fails() {
    let mut state = State::with_profiles(Vec::new());
    state.attach_device(DeviceKind::Akp03);
    let r = state.render_active_page();
    assert!(matches!(r, Err(RenderError::NoActivePage)));
}

#[test]
fn test_materialize_fails_on_missing_image() {
    let mut state = State::with_profiles(Vec::new());
    let profile = {
        let mut p = profile_for("common", DeviceKind::Akp03);
        let mut page = empty_page();
        page.buttons.push((
            0,
            Button {
                image: ButtonImage::Source { src: "missing.png".to_string() },
                action: Action::Command { command: "true".to_string() },
            },
        ));
        p.manifest.pages.clear();
        p.manifest.pages.push(("main".to_string(), page));
        p
    };
    let page = profile.manifest.get_page("main").unwrap().clone();
    let r = state.materialize_page(&profile, &page);
    assert!(matches!(r, Err(RenderError::ImageSourceError(_))));
}

#[test]
fn test_materialize_reports_missing_default_under_device_name() {
    let mut state = State::with_profiles(Vec::new());
    state.handle_activity_event(&Event::AudioInputChange("Podcast Mic".to_string())).ok();
    let profile = {
        let mut p = profile_for("common", DeviceKind::Akp03);
        let mut page = empty_page();
        page.buttons.push((
            0,
            Button {
                image: ButtonImage::AudioInput { audio_input: Vec::new() },
                action: Action::Command { command: "true".to_string() },
            },
        ));
        p.manifest.pages.clear();
        p.manifest.pages.push(("main".to_string(), page));
        p
    };
    let page = profile.manifest.get_page("main").unwrap().clone();
    let r = state.materialize_page(&profile, &page);
    assert!(matches!(
        r,
        Err(RenderError::ImageSourceError(ajam::images::ImageError::DefaultImageNotFound(k)))
            if k == "Podcast Mic"
    ));
}

#[test]
fn test_agent_path_layout() {
    let agent = LaunchAgent::new("co.myrt.ajam");
    assert_eq!(
        agent.path("/Users/somebody"),
        "/Users/somebody/Library/LaunchAgents/co.myrt.ajam.plist"
    );
    assert_eq!(
        LaunchAgent::path_for("/root", "a.b"),
        "/root/Library/LaunchAgents/a.b.plist"
    );
}

#[test]
fn test_apply_brightness_needs_device() {
    let mut state = State::with_profiles(vec![profile_for("common", DeviceKind::Akp03)]);
    assert!(matches!(state.apply_brightness(), Err(RenderError::NoDevice)));
    state.attach_device(DeviceKind::Akp03);
    assert_eq!(state.apply_brightness().unwrap(), 100);
    state.detach_device();
    assert!(matches!(state.apply_brightness(), Err(RenderError::NoDevice)));
}

#[test]
fn test_set_brightness_wraps_below_zero() {
    let mut state = State::with_profiles(vec![profile_for("common", DeviceKind::Akp03)]);
    state.attach_device(DeviceKind::Akp03);
    for _ in 0..20 {
        state.set_brightness(-5).unwrap();
    }
    assert_eq!(state.get_brightness(), 0);
    assert_eq!(state.set_brightness(-5).unwrap(), 251);
}

#[test]
fn test_app_change_to_unknown_app_falls_back() {
    let mut state = State::with_profiles(vec![
        profile_for("common", DeviceKind::Akp03),
        profile_for("org.editor", DeviceKind::Akp03),
    ]);
    state.attach_device(DeviceKind::Akp03);
    state.navigate_to("org.editor", "main").unwrap();
    let r = state.handle_activity_event(&Event::AppChange("org.unknown".to_string()));
    assert!(matches!(r, Ok(Some(_))));
    assert_eq!(
        state.get_current_profile_and_page(),
        ("common".to_string(), "main".to_string())
    );
}

#[test]
fn test_app_change_to_known_app_switches_profile() {
    let mut state = State::with_profiles(vec![
        profile_for("common", DeviceKind::Akp03),
        profile_for("org.editor", DeviceKind::Akp03),
    ]);
    state.attach_device(DeviceKind::Akp03);
    let r = state.handle_activity_event(&Event::AppChange("org.editor".to_string()));
    assert!(matches!(r, Ok(Some(_))));
    assert_eq!(
        state.get_current_profile_and_page(),
        ("org.editor".to_string(), "main".to_string())
    );
}

#[test]
fn test_app_change_to_active_profile_is_a_noop() {
    let mut state = State::with_profiles(vec![profile_for("common", DeviceKind::Akp03)]);
    let r = state.handle_activity_event(&Event::AppChange("common".to_string()));
    assert!(matches!(r, Ok(None)));
}

#[test]
fn test_audio_change_records_name_and_rerenders() {
    let mut state = State::with_profiles(vec![profile_for("common", DeviceKind::Akp03)]);
    state.attach_device(DeviceKind::Akp03);
    let r = state.handle_activity_event(&Event::AudioOutputChange("USB Speakers".to_string()));
    assert!(matches!(r, Ok(Some(_))));
    let r = state.handle_activity_event(&Event::AudioInputChange("Mic".to_string()));
    assert!(matches!(r, Ok(Some(_))));
}

#[test]
fn test_audio_change_without_device_reports_render_failure() {
    let mut state = State::with_profiles(vec![profile_for("common", DeviceKind::Akp03)]);
    let r = state.handle_activity_event(&Event::AudioOutputChange("USB Speakers".to_string()));
    assert!(matches!(
        r,
        Err(NavigationError::RenderError(RenderError::NoDevice))
    ));
}

#[test]
fn test_monitor_delivers_events() {
    let (monitor, rx) = Monitor::new();
    assert!(monitor.send(Event::AppChange("org.editor".to_string())));
    assert!(monitor.send(Event::AudioInputChange("Mic".to_string())));
    match rx.recv().unwrap() {
        Event::AppChange(id) => assert_eq!(id, "org.editor"),
        _ => panic!("wrong event"),
    }
    match rx.recv().unwrap() {
        Event::AudioInputChange(name) => assert_eq!(name, "Mic"),
        _ => panic!("wrong event"),
    }
}

#[test]
fn test_activity_monitor_delivers_events() {
    let (monitor, rx) = ActivityMonitor::new();
    assert!(monitor.send(ActivityEvent::AppChange("org.editor".to_string())));
    let ActivityEvent::AppChange(id) = rx.recv().unwrap();
    assert_eq!(id, "org.editor");
}

#[test]
fn test_materialized_page_new_is_blank() {
    let mp = MaterializedPage::new(6);
    assert_eq!(mp.0.len(), 6);
    assert!(mp.0.iter().all(|slot| slot.is_none()));
}

#[test]
fn test_launch_agent_new_defaults() {
    let agent = LaunchAgent::new("co.myrt.ajam");
    assert_eq!(agent.label, "co.myrt.ajam");
    assert!(agent.program_arguments.is_empty());
    assert_eq!(agent.standard_out_path, "/dev/null");
    assert_eq!(agent.standard_error_path, "/dev/null");
    assert!(!agent.keep_alive);
    assert!(!agent.run_at_load);
}
