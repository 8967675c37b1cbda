use eis_bridge::capability::DeviceCapability;
use eis_bridge::geometry::{Point, Rect};
use eis_bridge::request::Request;
use eis_bridge::resolve::Snapshot;
use eis_bridge::state::{AdmitError, EisState};
use eis_bridge::translate::process_eis_request;
use eis_bridge::validate::Limits;

fn snapshot() -> Snapshot {
    Snapshot {
        outputs: vec![Rect { x: 0, y: 0, w: 800, h: 600 }],
        active_output: 0,
        pointer_position: Point { x: 0, y: 0 },
        has_keyboard: true,
        has_pointer: true,
        has_touch: true,
    }
}

#[test]
fn nine_admissions_with_ceiling_eight() {
    let mut state = EisState::new(8);
    for n in 0..8u64 {
        let r = state.try_admit();
        assert_eq!(r, Ok(n));
        assert_eq!(state.active_connections(), (n + 1) as usize);
    }
    let r = state.try_admit();
    assert_eq!(r, Err(AdmitError::LimitReached));
    assert_eq!(state.active_connections(), 8);
}

#[test]
fn disconnect_releases_slot_for_readmission() {
    let mut state = EisState::new(2);
    let a = state.try_admit().unwrap();
    let b = state.try_admit().unwrap();
    assert!(state.try_admit().is_err());
    state.disconnect(a);
    assert_eq!(state.active_connections(), 1);
    let c = state.try_admit().unwrap();
    assert_ne!(c, b);
    assert_eq!(state.active_connections(), 2);
}

#[test]
fn disconnect_of_unknown_identity_changes_nothing() {
    let mut state = EisState::new(4);
    let a = state.try_admit().unwrap();
    state.disconnect(a + 17);
    assert_eq!(state.active_connections(), 1);
}

#[test]
fn zero_ceiling_rejects_everything() {
    let mut state = EisState::new(0);
    assert_eq!(state.try_admit(), Err(AdmitError::LimitReached));
    assert_eq!(state.active_connections(), 0);
}

#[test]
fn bind_records_decoded_capability_set() {
    let mut state = EisState::new(8);
    let conn = state.try_admit().unwrap();
    let snap = snapshot();
    // Bits 0 (pointer) and 2 (keyboard) set.
    let (plan, announced) = process_eis_request(
        &mut state,
        conn,
        &Limits::defaults(),
        &snap,
        &Request::Bind { mask: 0b101 },
    );
    assert!(plan.is_empty());
    assert_eq!(
        announced,
        Some(vec![DeviceCapability::Pointer, DeviceCapability::Keyboard])
    );
    assert_eq!(state.connections.len(), 1);
    assert_eq!(state.connections[0].devices.len(), 1);
    assert_eq!(
        state.connections[0].devices[0].capabilities,
        vec![DeviceCapability::Pointer, DeviceCapability::Keyboard]
    );
}

#[test]
fn bind_from_unknown_connection_records_nothing() {
    let mut state = EisState::new(8);
    let conn = state.try_admit().unwrap();
    let snap = snapshot();
    let (plan, announced) = process_eis_request(
        &mut state,
        conn + 5,
        &Limits::defaults(),
        &snap,
        &Request::Bind { mask: 0b101 },
    );
    assert!(plan.is_empty());
    assert!(announced.is_none());
    assert_eq!(state.connections[0].devices.len(), 0);
}

#[test]
fn bind_then_disconnect_leaves_no_residue() {
    let mut state = EisState::new(8);
    let conn = state.try_admit().unwrap();
    let snap = snapshot();
    let limits = Limits::defaults();
    let _ = process_eis_request(&mut state, conn, &limits, &snap, &Request::Bind { mask: 0b1 });
    assert_eq!(state.connections[0].devices.len(), 1);
    let _ = process_eis_request(&mut state, conn, &limits, &snap, &Request::Disconnect);
    assert_eq!(state.active_connections(), 0);
    assert!(state.connections.is_empty());
}

#[test]
fn disconnect_keeps_other_connections_and_devices() {
    let mut state = EisState::new(8);
    let a = state.try_admit().unwrap();
    let b = state.try_admit().unwrap();
    let snap = snapshot();
    let limits = Limits::defaults();
    let _ = process_eis_request(&mut state, a, &limits, &snap, &Request::Bind { mask: 0b100 });
    let _ = process_eis_request(&mut state, b, &limits, &snap, &Request::Bind { mask: 0b1000 });
    let _ = process_eis_request(&mut state, a, &limits, &snap, &Request::Disconnect);
    assert_eq!(state.active_connections(), 1);
    assert_eq!(state.connections[0].id, b);
    assert_eq!(
        state.connections[0].devices[0].capabilities,
        vec![DeviceCapability::Touch]
    );
}
