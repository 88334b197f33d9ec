use ajam::images::ButtonImage;
use ajam::manifest::{Action, Button, DeviceKind, EncoderActions, Manifest, Page};

fn command_button(src: &str, command: &str) -> Button {
    Button {
        image: ButtonImage::Source { src: src.to_string() },
        action: Action::Command { command: command.to_string() },
    }
}

#[test]
fn test_get_button() {
    let mut manifest = Manifest {
        device: DeviceKind::Akp03,
        pages_order: vec!["test".to_string()],
        pages: Vec::new(),
        encoders: Vec::new(),
    };

    let mut page = Page { buttons: Vec::new() };

    page.buttons.push((0, command_button("test.png", "echo 'test'")));

    manifest.pages.push(("test".to_string(), page));

    let page = manifest.get_page("test").unwrap();
    assert_eq!(page.buttons.len(), 1);
}

#[test]
fn test_kind() {
    let manifest = Manifest {
        device: DeviceKind::Akp03,
        pages_order: vec!["test".to_string()],
        pages: Vec::new(),
        encoders: Vec::new(),
    };

    assert_eq!(manifest.kind(), DeviceKind::Akp03);
}

#[test]
fn test_device_kind_names() {
    assert_eq!(DeviceKind::from_device_name("akp03"), Some(DeviceKind::Akp03));
    assert_eq!(DeviceKind::from_device_name("akp03e"), Some(DeviceKind::Akp03E));
    assert_eq!(DeviceKind::from_device_name("akp03r"), Some(DeviceKind::Akp03R));
    assert_eq!(
        DeviceKind::from_device_name("akp03r_rev2"),
        Some(DeviceKind::Akp03RRev2)
    );
    assert_eq!(DeviceKind::from_device_name("akp153"), Some(DeviceKind::Akp153));
    assert_eq!(DeviceKind::from_device_name("akp153e"), Some(DeviceKind::Akp153E));
    assert_eq!(DeviceKind::from_device_name("akp153r"), Some(DeviceKind::Akp153R));
    assert_eq!(DeviceKind::from_device_name("akp999"), None);
    assert_eq!(DeviceKind::from_device_name(""), None);
}

#[test]
fn test_key_counts() {
    assert_eq!(DeviceKind::Akp03.key_count(), 9);
    assert_eq!(DeviceKind::Akp03.display_key_count(), 6);
    assert_eq!(DeviceKind::Akp153.key_count(), 18);
    assert_eq!(DeviceKind::Akp153.display_key_count(), 18);
}

#[test]
fn test_get_button_unbound_index() {
    let mut page = Page { buttons: Vec::new() };
    page.buttons.push((2, command_button("a.png", "true")));
    assert!(page.get_button(0).is_none());
    assert!(page.get_button(2).is_some());
    assert!(page.get_button(9).is_none());
}

#[test]
fn test_iter_buttons_layout() {
    let mut page = Page { buttons: Vec::new() };
    page.buttons.push((1, command_button("a.png", "true")));
    page.buttons.push((4, command_button("b.png", "false")));
    let slots = page.iter_buttons(6);
    assert_eq!(slots.len(), 6);
    for (i, slot) in slots.iter().enumerate() {
        assert_eq!(slot.is_some(), i == 1 || i == 4);
    }
}

#[test]
fn test_page_index() {
    let manifest = Manifest {
        device: DeviceKind::Akp03,
        pages_order: vec!["main".to_string(), "alt".to_string()],
        pages: Vec::new(),
        encoders: Vec::new(),
    };
    assert_eq!(manifest.page_index("main"), Some(0));
    assert_eq!(manifest.page_index("alt"), Some(1));
    assert_eq!(manifest.page_index("gone"), None);
}

#[test]
fn test_get_encoder_actions() {
    let mut manifest = Manifest {
        device: DeviceKind::Akp03,
        pages_order: Vec::new(),
        pages: Vec::new(),
        encoders: Vec::new(),
    };
    manifest.encoders.push((
        1,
        EncoderActions {
            plus: Action::Command { command: "up".to_string() },
            minus: Action::Command { command: "down".to_string() },
            click: None,
        },
    ));
    assert!(manifest.get_encoder_actions(0).is_none());
    let ea = manifest.get_encoder_actions(1).unwrap();
    assert!(matches!(&ea.plus, Action::Command { command } if command == "up"));
    assert!(matches!(&ea.minus, Action::Command { command } if command == "down"));
    assert!(ea.click.is_none());
}
