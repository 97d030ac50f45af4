use devnotify::device::{DeviceInfo, DeviceTransition, TransitionKind};
use devnotify::report::report;

const RULE: &str = "===============================";

#[test]
fn report_lists_every_known_field() {
    let transition = DeviceTransition {
        kind: TransitionKind::Added,
        device_node: "/dev/bus/usb/001/004".to_string(),
        info: DeviceInfo {
            subsystem: Some("usb".to_string()),
            device_type: Some("usb_device".to_string()),
            vendor_id: Some("0781".to_string()),
            product_id: Some("5567".to_string()),
            manufacturer: Some("SanDisk Corp.".to_string()),
            product: Some("Cruzer Blade".to_string()),
            serial: Some("4C530001".to_string()),
        },
    };
    assert_eq!(
        report(&transition),
        vec![
            RULE,
            "Device Node: \"/dev/bus/usb/001/004\"",
            "Subsystem: \"usb\"",
            "Device Type: \"usb_device\"",
            "Action: \"add\"",
            "Vendor ID: 0781",
            "Product ID: 5567",
            "Manufacturer: SanDisk Corp.",
            "Product Name: Cruzer Blade",
            "Serial Number: 4C530001",
            RULE,
            "",
        ]
    );
}

#[test]
fn report_leaves_out_what_is_not_known() {
    let transition = DeviceTransition {
        kind: TransitionKind::Removed,
        device_node: "/dev/sdb1".to_string(),
        info: DeviceInfo::unknown(),
    };
    assert_eq!(
        report(&transition),
        vec![RULE, "Device Node: \"/dev/sdb1\"", "Action: \"remove\"", RULE, ""]
    );
}

#[test]
fn report_keeps_the_order_of_the_fields_that_are_known() {
    let mut info = DeviceInfo::unknown();
    info.serial = Some("0001".to_string());
    info.device_type = Some("usb_interface".to_string());
    info.vendor_id = Some("1d6b".to_string());
    let transition =
        DeviceTransition { kind: TransitionKind::Added, device_node: "/dev/sdb1".to_string(), info };
    assert_eq!(
        report(&transition),
        vec![
            RULE,
            "Device Node: \"/dev/sdb1\"",
            "Device Type: \"usb_interface\"",
            "Action: \"add\"",
            "Vendor ID: 1d6b",
            "Serial Number: 0001",
            RULE,
            "",
        ]
    );
}

#[test]
fn quoted_fields_are_escaped_and_plain_fields_are_not() {
    let mut info = DeviceInfo::unknown();
    info.subsystem = Some("u\"s\\b".to_string());
    info.manufacturer = Some("Ac\"me\\".to_string());
    let transition = DeviceTransition {
        kind: TransitionKind::Added,
        device_node: "/dev/a\tb\n".to_string(),
        info,
    };
    assert_eq!(
        report(&transition),
        vec![
            RULE,
            "Device Node: \"/dev/a\\tb\\n\"",
            "Subsystem: \"u\\\"s\\\\b\"",
            "Action: \"add\"",
            "Manufacturer: Ac\"me\\",
            RULE,
            "",
        ]
    );
}

#[test]
fn empty_values_still_give_a_line() {
    let mut info = DeviceInfo::unknown();
    info.subsystem = Some(String::new());
    info.product = Some(String::new());
    let transition =
        DeviceTransition { kind: TransitionKind::Removed, device_node: "n".to_string(), info };
    assert_eq!(
        report(&transition),
        vec![RULE, "Device Node: \"n\"", "Subsystem: \"\"", "Action: \"remove\"", "Product Name: ", RULE, ""]
    );
}
