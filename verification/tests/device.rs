use devnotify::device::{accept, DeviceInfo, DeviceTransition, EventAction, RawEvent, TransitionKind};

fn described() -> DeviceInfo {
    DeviceInfo {
        subsystem: Some("usb".to_string()),
        device_type: Some("usb_device".to_string()),
        vendor_id: Some("0781".to_string()),
        product_id: Some("5567".to_string()),
        manufacturer: Some("SanDisk Corp.".to_string()),
        product: Some("Cruzer Blade".to_string()),
        serial: Some("4C530001".to_string()),
    }
}

fn event(initialized: bool, action: EventAction, device_node: Option<&str>) -> RawEvent {
    RawEvent {
        initialized,
        action,
        device_node: device_node.map(|node| node.to_string()),
        info: described(),
    }
}

#[test]
fn unknown_identification_has_no_field() {
    let info = DeviceInfo::unknown();
    assert_eq!(info.subsystem, None);
    assert_eq!(info.device_type, None);
    assert_eq!(info.vendor_id, None);
    assert_eq!(info.product_id, None);
    assert_eq!(info.manufacturer, None);
    assert_eq!(info.product, None);
    assert_eq!(info.serial, None);
}

#[test]
fn uninitialized_event_yields_no_transition() {
    let actions = [
        EventAction::Add,
        EventAction::Change,
        EventAction::Remove,
        EventAction::Bind,
        EventAction::Unbind,
        EventAction::Unknown,
    ];
    for action in actions {
        assert_eq!(accept(event(false, action, Some("/dev/bus/usb/001/004"))), None);
        assert_eq!(accept(event(false, action, Some(""))), None);
        assert_eq!(accept(event(false, action, None)), None);
    }
}

#[test]
fn changed_event_yields_no_transition() {
    assert_eq!(accept(event(true, EventAction::Change, Some("/dev/bus/usb/001/004"))), None);
}

#[test]
fn bind_unbind_and_unknown_events_yield_no_transition() {
    assert_eq!(accept(event(true, EventAction::Bind, Some("/dev/bus/usb/001/004"))), None);
    assert_eq!(accept(event(true, EventAction::Unbind, Some("/dev/bus/usb/001/004"))), None);
    assert_eq!(accept(event(true, EventAction::Unknown, Some("/dev/bus/usb/001/004"))), None);
}

#[test]
fn event_without_node_yields_no_transition() {
    assert_eq!(accept(event(true, EventAction::Add, None)), None);
    assert_eq!(accept(event(true, EventAction::Remove, None)), None);
}

#[test]
fn event_with_empty_node_yields_no_transition() {
    assert_eq!(accept(event(true, EventAction::Add, Some(""))), None);
    assert_eq!(accept(event(true, EventAction::Remove, Some(""))), None);
}

#[test]
fn added_event_yields_an_added_transition() {
    let transition = accept(event(true, EventAction::Add, Some("/dev/bus/usb/001/004")));
    assert_eq!(
        transition,
        Some(DeviceTransition {
            kind: TransitionKind::Added,
            device_node: "/dev/bus/usb/001/004".to_string(),
            info: described(),
        })
    );
}

#[test]
fn removed_event_yields_a_removed_transition() {
    let transition = accept(event(true, EventAction::Remove, Some("/dev/bus/usb/001/004")));
    assert_eq!(
        transition,
        Some(DeviceTransition {
            kind: TransitionKind::Removed,
            device_node: "/dev/bus/usb/001/004".to_string(),
            info: described(),
        })
    );
}

#[test]
fn absent_identification_stays_absent_in_the_transition() {
    let mut info = DeviceInfo::unknown();
    info.product = Some("Cruzer Blade".to_string());
    let raw = RawEvent {
        initialized: true,
        action: EventAction::Add,
        device_node: Some("/dev/sdb1".to_string()),
        info: info.clone(),
    };
    let transition = accept(raw).unwrap();
    assert_eq!(transition.kind, TransitionKind::Added);
    assert_eq!(transition.device_node, "/dev/sdb1");
    assert_eq!(transition.info, info);
}
