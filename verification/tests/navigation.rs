use ajam::manifest::{DeviceKind, Manifest, Page};
use ajam::profile::Profile;
use ajam::state::navigation::NavigationError;
use ajam::state::render::RenderError;
use ajam::state::State;

fn empty_page() -> Page {
    Page { buttons: Vec::new() }
}

fn profile_with_pages(name: &str, pages: &[&str]) -> Profile {
    let mut manifest = Manifest {
        device: DeviceKind::Akp03,
        pages_order: pages.iter().map(|p| p.to_string()).collect(),
        pages: Vec::new(),
        encoders: Vec::new(),
    };
    for p in pages {
        manifest.pages.push((p.to_string(), empty_page()));
    }
    Profile {
        name: name.to_string(),
        manifest,
        path: format!("/profiles/{}", name),
    }
}

fn session() -> State {
    State::with_profiles(vec![
        profile_with_pages("common", &["main", "alt"]),
        profile_with_pages("org.editor", &["main", "tools"]),
    ])
}

#[test]
fn test_navigate_to_present_pair_commits() {
    let mut state = session();
    state.attach_device(DeviceKind::Akp03);
    let r = state.navigate_to("org.editor", "tools");
    assert!(r.is_ok());
    assert_eq!(
        state.get_current_profile_and_page(),
        ("org.editor".to_string(), "tools".to_string())
    );
}

#[test]
fn test_navigate_commits_even_when_render_fails() {
    let mut state = session();
    // no deck attached: the render fails, the move stands
    let r = state.navigate_to("org.editor", "main");
    assert!(matches!(
        r,
        Err(NavigationError::RenderError(RenderError::NoDevice))
    ));
    assert_eq!(
        state.get_current_profile_and_page(),
        ("org.editor".to_string(), "main".to_string())
    );
}

#[test]
fn test_navigate_to_unknown_profile() {
    let mut state = session();
    let r = state.navigate_to("org.unknown", "main");
    assert!(matches!(r, Err(NavigationError::NoProfile)));
    assert_eq!(
        state.get_current_profile_and_page(),
        ("common".to_string(), "main".to_string())
    );
}

#[test]
fn test_navigate_to_unknown_page() {
    let mut state = session();
    let r = state.navigate_to("org.editor", "gone");
    assert!(matches!(r, Err(NavigationError::NoPage)));
    assert_eq!(
        state.get_current_profile_and_page(),
        ("common".to_string(), "main".to_string())
    );
}

#[test]
fn test_unknown_profile_falls_back_to_default() {
    let mut state = session();
    state.attach_device(DeviceKind::Akp03);
    state.navigate_to("org.editor", "tools").unwrap();
    let r = state.navigate_to_profile_or_default("org.unknown");
    assert!(matches!(r, Ok(Some(_))));
    assert_eq!(
        state.get_current_profile_and_page(),
        ("common".to_string(), "main".to_string())
    );
}

#[test]
fn test_unknown_profile_is_a_noop_on_default() {
    let mut state = session();
    state.attach_device(DeviceKind::Akp03);
    let r = state.navigate_to_profile_or_default("org.unknown");
    assert!(matches!(r, Ok(None)));
    assert_eq!(
        state.get_current_profile_and_page(),
        ("common".to_string(), "main".to_string())
    );
}

#[test]
fn test_known_profile_or_default_lands_on_main() {
    let mut state = session();
    state.attach_device(DeviceKind::Akp03);
    let r = state.navigate_to_profile_or_default("org.editor");
    assert!(matches!(r, Ok(Some(_))));
    assert_eq!(
        state.get_current_profile_and_page(),
        ("org.editor".to_string(), "main".to_string())
    );
}

#[test]
fn test_page_cycle_forward() {
    let mut state = session();
    state.attach_device(DeviceKind::Akp03);
    state.navigate_to("org.editor", "tools").unwrap();
    // two pages in the order: two forward steps return to the start
    state.navigate_to_next_page().unwrap();
    assert_eq!(
        state.get_current_profile_and_page(),
        ("org.editor".to_string(), "main".to_string())
    );
    state.navigate_to_next_page().unwrap();
    assert_eq!(
        state.get_current_profile_and_page(),
        ("org.editor".to_string(), "tools".to_string())
    );
}

#[test]
fn test_page_cycle_backward() {
    let mut state = session();
    state.attach_device(DeviceKind::Akp03);
    state.navigate_to_previous_page().unwrap();
    assert_eq!(
        state.get_current_profile_and_page(),
        ("common".to_string(), "alt".to_string())
    );
    state.navigate_to_previous_page().unwrap();
    assert_eq!(
        state.get_current_profile_and_page(),
        ("common".to_string(), "main".to_string())
    );
}

#[test]
fn test_three_page_cycle_returns_to_start() {
    let mut state = State::with_profiles(vec![profile_with_pages(
        "common",
        &["main", "second", "third"],
    )]);
    state.attach_device(DeviceKind::Akp03);
    for _ in 0..3 {
        state.navigate_to_next_page().unwrap();
    }
    assert_eq!(
        state.get_current_profile_and_page(),
        ("common".to_string(), "main".to_string())
    );
    for _ in 0..3 {
        state.navigate_to_previous_page().unwrap();
    }
    assert_eq!(
        state.get_current_profile_and_page(),
        ("common".to_string(), "main".to_string())
    );
}

#[test]
fn test_toggle_home_is_idempotent_on_default() {
    let mut state = session();
    state.attach_device(DeviceKind::Akp03);
    let first = state.toggle_home();
    assert!(matches!(first, Ok(None)));
    let second = state.toggle_home();
    assert!(matches!(second, Ok(None)));
    assert_eq!(
        state.get_current_profile_and_page(),
        ("common".to_string(), "main".to_string())
    );
    assert_eq!(state.get_active_profile(), "common".to_string());
}

#[test]
fn test_toggle_home_memorizes_and_restores() {
    let mut state = session();
    state.attach_device(DeviceKind::Akp03);
    state.navigate_to("org.editor", "tools").unwrap();
    // first toggle: memorize the profile and head home
    state.toggle_home().unwrap();
    assert_eq!(
        state.get_current_profile_and_page(),
        ("common".to_string(), "main".to_string())
    );
    assert_eq!(state.get_active_profile(), "org.editor".to_string());
    // second toggle: clear the memory and return
    state.toggle_home().unwrap();
    assert_eq!(
        state.get_current_profile_and_page(),
        ("org.editor".to_string(), "main".to_string())
    );
    assert_eq!(state.get_active_profile(), "common".to_string());
}

#[test]
fn test_navigate_to_page_stays_in_profile() {
    let mut state = session();
    state.attach_device(DeviceKind::Akp03);
    state.navigate_to("org.editor", "main").unwrap();
    state.navigate_to_page("tools").unwrap();
    assert_eq!(
        state.get_current_profile_and_page(),
        ("org.editor".to_string(), "tools".to_string())
    );
    let r = state.navigate_to_page("gone");
    assert!(matches!(r, Err(NavigationError::NoPage)));
    assert_eq!(
        state.get_current_profile_and_page(),
        ("org.editor".to_string(), "tools".to_string())
    );
}

#[test]
fn test_page_step_outside_order_moves_nothing() {
    // a profile that declares a page its order does not list
    let mut profile = profile_with_pages("common", &["main"]);
    profile.manifest.pages.push(("hidden".to_string(), empty_page()));
    let mut state = State::with_profiles(vec![profile]);
    state.attach_device(DeviceKind::Akp03);
    state.navigate_to("common", "hidden").unwrap();
    let r = state.navigate_to_next_page();
    assert!(matches!(r, Err(NavigationError::NoPage)));
    assert_eq!(
        state.get_current_profile_and_page(),
        ("common".to_string(), "hidden".to_string())
    );
}

#[test]
fn test_toggle_home_with_vanished_memory_falls_back() {
    // memorize a profile, then pretend it was the active one of a
    // session whose store never held it: the restore falls back home
    let mut state = State::with_profiles(vec![profile_with_pages("common", &["main"])]);
    state.attach_device(DeviceKind::Akp03);
    // navigation cannot reach a non-default profile here, so the first
    // toggle from the default profile with no memory is a no-op
    assert!(matches!(state.toggle_home(), Ok(None)));
    assert_eq!(state.get_active_profile(), "common".to_string());
}

#[test]
fn test_get_page_lookup() {
    let state = session();
    assert!(state.get_page("common", "alt").is_some());
    assert!(state.get_page("common", "gone").is_none());
    assert!(state.get_page("gone", "main").is_none());
}
