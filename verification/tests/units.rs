use eis_bridge::capability::{advertised_capabilities, capabilities_from_mask, DeviceCapability};
use eis_bridge::geometry::{saturating_add, Point, Rect};
use eis_bridge::resolve::{find_containing_output, resolve_output, resolve_touch_target, Snapshot};
use eis_bridge::request::Request;
use eis_bridge::validate::{Limits, Rejection};

#[test]
fn limits_defaults_match_stock_bounds() {
    let limits = Limits::defaults();
    assert_eq!(limits.max_keycode, 0x2FF);
    assert_eq!(limits.max_button, 0x2FF);
    assert_eq!(limits.max_touch_id, 256);
}

#[test]
fn keycode_range_boundaries() {
    let limits = Limits::defaults();
    assert!(limits.keycode_in_range(0));
    assert!(limits.keycode_in_range(0x2FF));
    assert!(!limits.keycode_in_range(0x300));
    assert!(limits.button_in_range(0x2FF));
    assert!(!limits.button_in_range(0x300));
    assert!(limits.touch_id_in_range(256));
    assert!(!limits.touch_id_in_range(257));
}

#[test]
fn mask_with_pointer_and_keyboard_decodes_exactly_those() {
    let caps = capabilities_from_mask(0b101);
    assert_eq!(caps, vec![DeviceCapability::Pointer, DeviceCapability::Keyboard]);
}

#[test]
fn empty_and_full_masks_decode_accordingly() {
    assert!(capabilities_from_mask(0).is_empty());
    assert_eq!(
        capabilities_from_mask(0x3F),
        vec![
            DeviceCapability::Pointer,
            DeviceCapability::PointerAbsolute,
            DeviceCapability::Keyboard,
            DeviceCapability::Touch,
            DeviceCapability::Scroll,
            DeviceCapability::Button,
        ]
    );
}

#[test]
fn unknown_mask_bits_are_ignored() {
    assert!(capabilities_from_mask(0xFFFF_FFFF_FFFF_FFC0).is_empty());
    assert_eq!(
        capabilities_from_mask(0x40 | 0b10),
        vec![DeviceCapability::PointerAbsolute]
    );
}

#[test]
fn advertised_set_is_all_six() {
    let caps = advertised_capabilities();
    assert_eq!(caps.len(), 6);
    assert_eq!(caps, capabilities_from_mask(0x3F));
}

#[test]
fn saturating_add_behaves_at_extremes() {
    assert_eq!(saturating_add(2, 3), 5);
    assert_eq!(saturating_add(i64::MAX, 1), i64::MAX);
    assert_eq!(saturating_add(i64::MIN, -1), i64::MIN);
    assert_eq!(saturating_add(-2, 5), 3);
}

#[test]
fn rect_contains_and_clamp() {
    let r = Rect { x: 10, y: 20, w: 100, h: 50 };
    assert!(r.contains(&Point { x: 10, y: 20 }));
    assert!(r.contains(&Point { x: 109, y: 69 }));
    assert!(!r.contains(&Point { x: 110, y: 69 }));
    assert!(!r.contains(&Point { x: 9, y: 20 }));
    assert_eq!(r.clamp(&Point { x: 0, y: 0 }), Point { x: 10, y: 20 });
    assert_eq!(r.clamp(&Point { x: 500, y: 500 }), Point { x: 109, y: 69 });
    assert_eq!(r.clamp(&Point { x: 50, y: 30 }), Point { x: 50, y: 30 });
}

#[test]
fn first_containing_output_wins() {
    let outputs = vec![
        Rect { x: 0, y: 0, w: 1000, h: 1000 },
        Rect { x: 500, y: 0, w: 1000, h: 1000 },
    ];
    assert_eq!(find_containing_output(&outputs, &Point { x: 700, y: 10 }), Some(0));
    assert_eq!(find_containing_output(&outputs, &Point { x: 1200, y: 10 }), Some(1));
    assert_eq!(find_containing_output(&outputs, &Point { x: 2000, y: 10 }), None);
}

#[test]
fn resolve_output_falls_back_to_active() {
    let snap = Snapshot {
        outputs: vec![
            Rect { x: 0, y: 0, w: 100, h: 100 },
            Rect { x: 100, y: 0, w: 100, h: 100 },
        ],
        active_output: 1,
        pointer_position: Point { x: 0, y: 0 },
        has_keyboard: true,
        has_pointer: true,
        has_touch: true,
    };
    assert_eq!(resolve_output(&snap, &Point { x: 50, y: 50 }), 0);
    assert_eq!(resolve_output(&snap, &Point { x: 150, y: 50 }), 1);
    assert_eq!(resolve_output(&snap, &Point { x: 500, y: 500 }), 1);
    assert_eq!(resolve_touch_target(&snap, &Point { x: 500, y: 500 }), 1);
    assert_eq!(resolve_touch_target(&snap, &Point { x: 150, y: 50 }), 1);
    assert_eq!(resolve_touch_target(&snap, &Point { x: 50, y: 50 }), 0);
}

#[test]
fn rejections_carry_the_offending_value() {
    let limits = Limits::defaults();
    assert_eq!(
        limits.rejection_of(&Request::KeyboardKey { key: 900, pressed: true }),
        Some(Rejection::KeycodeOutOfRange { key: 900 })
    );
    assert_eq!(
        limits.rejection_of(&Request::Button { button: 0x300, pressed: false }),
        Some(Rejection::ButtonOutOfRange { button: 0x300 })
    );
    assert_eq!(
        limits.rejection_of(&Request::TouchDown { touch_id: 300, x: 0, y: 0 }),
        Some(Rejection::TouchIdOutOfRange { touch_id: 300 })
    );
    assert_eq!(
        limits.rejection_of(&Request::TouchMotion { touch_id: 257, x: 0, y: 0 }),
        Some(Rejection::TouchIdOutOfRange { touch_id: 257 })
    );
    assert_eq!(
        limits.rejection_of(&Request::KeyboardKey { key: 30, pressed: true }),
        None
    );
    assert_eq!(limits.rejection_of(&Request::TouchUp { touch_id: 300 }), None);
    assert_eq!(limits.rejection_of(&Request::Bind { mask: u64::MAX }), None);
}
