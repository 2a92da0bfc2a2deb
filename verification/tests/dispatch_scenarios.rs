use fwdispatch::device::{DeviceKind, Discovery, FirmwareInfo};
use fwdispatch::dispatcher::Dispatcher;
use fwdispatch::protocol::{ActivateEvent, Command, Emit, ModalResponse, Signal, ViewState};
use fwdispatch::scheduler::ActivationSet;
use fwdispatch::slots::key_value;

fn info(name: &str, current: &str, latest: &str) -> FirmwareInfo {
    FirmwareInfo {
        name: name.to_string(),
        current: current.to_string(),
        latest: latest.to_string(),
    }
}

fn standalone(name: &str, current: &str, latest: &str, upgradeable: bool) -> Signal {
    Signal::DeviceFound {
        discovery: Discovery {
            info: info(name, current, latest),
            kind: DeviceKind::Standalone { upgradeable, needs_reboot: false },
        },
    }
}

fn group_unit(name: &str, current: &str, latest: &str, digest: Option<&str>) -> Signal {
    Signal::DeviceFound {
        discovery: Discovery {
            info: info(name, current, latest),
            kind: DeviceKind::GroupUnit { digest: digest.map(|d| d.to_string()) },
        },
    }
}

#[test]
fn one_upgradeable_device_then_complete_stays_populated() {
    let mut d = Dispatcher::new();
    d.apply_signal(Signal::Scanning);
    let out = d.apply_signal(standalone("dock", "1.0", "1.1", true));
    let k = out.new_entity.expect("a discovery allocates an entity");
    assert!(matches!(d.state, ViewState::Populated));
    assert_eq!(d.registry.len(), 1);
    let rec = d.registry.get(k.clone()).expect("the new device is registered");
    assert!(rec.revealed);
    assert!(rec.upgradeable);
    assert_eq!(rec.info.current, "1.0");
    assert_eq!(rec.info.latest, "1.1");
    d.apply_signal(Signal::ScanningComplete);
    assert!(matches!(d.state, ViewState::Populated));
}

#[test]
fn empty_scan_ends_idle() {
    let mut d = Dispatcher::new();
    d.apply_signal(Signal::Scanning);
    assert!(matches!(d.state, ViewState::Scanning));
    d.apply_signal(Signal::ScanningComplete);
    assert!(matches!(d.state, ViewState::Idle));
    assert_eq!(d.registry.len(), 0);
}

#[test]
fn scanning_empties_registry_and_activation_set() {
    let mut d = Dispatcher::new();
    let mut sched = ActivationSet::new();
    sched.activate(42);
    d.apply_signal(Signal::Scanning);
    d.apply_signal(standalone("cam", "2.0", "2.1", true));
    assert_eq!(d.registry.len(), 1);
    let out = d.apply_signal(Signal::Scanning);
    assert_eq!(d.registry.len(), 0);
    assert!(!d.devices_found);
    // Its one emitted event clears the scheduler within the tick.
    let mut queue: Vec<ActivateEvent> = Vec::new();
    for e in out.emits {
        match e {
            Emit::Act { event } => queue.push(event),
            _ => panic!("scanning emits only an activation event"),
        }
    }
    let (consumed, pulses) = sched.tick(&queue);
    assert_eq!(consumed, queue.len());
    assert!(pulses.is_empty());
    assert!(!sched.contains(42));
}

#[test]
fn stale_entity_signals_are_dropped_silently() {
    let mut d = Dispatcher::new();
    d.apply_signal(Signal::Scanning);
    let out = d.apply_signal(standalone("ssd", "3.0", "3.1", true));
    let stale = out.new_entity.unwrap();
    // A new scan invalidates every entity.
    d.apply_signal(Signal::Scanning);
    d.apply_signal(standalone("ssd", "3.0", "3.1", true));
    assert!(matches!(d.state, ViewState::Populated));

    let upd = d.apply_signal(Signal::DeviceUpdated {
        entity: stale.clone(),
        message: "3.1".to_string(),
    });
    assert!(upd.emits.is_empty());
    assert!(matches!(d.state, ViewState::Populated));
    assert_eq!(d.registry.len(), 1);

    let err = d.apply_signal(Signal::Error {
        entity: Some(stale),
        chain: vec!["update failed".to_string()],
    });
    assert!(err.emits.is_empty());
    assert!(matches!(d.state, ViewState::Populated));
    assert_eq!(d.banner.as_deref(), Some("update failed"));
}

#[test]
fn group_of_three_has_one_interactive_control() {
    let mut d = Dispatcher::new();
    d.apply_signal(Signal::Scanning);
    let a = d.apply_signal(group_unit("unit", "0.9", "1.0", Some("abc"))).new_entity.unwrap();
    let b = d.apply_signal(group_unit("unit", "0.9", "1.0", None)).new_entity.unwrap();
    let c = d.apply_signal(group_unit("unit", "0.9", "1.0", None)).new_entity.unwrap();
    assert!(d.registry.group_upgradeable);
    assert_eq!(d.registry.group_digest.as_deref(), Some("abc"));
    let revealed: Vec<bool> = [a.clone(), b.clone(), c.clone()]
        .iter()
        .map(|k| d.registry.get(k.clone()).unwrap().revealed)
        .collect();
    assert_eq!(revealed.iter().filter(|r| **r).count(), 1);
    assert!(revealed[0], "the first member is the interactive one");

    // An update naming any one member is broadcast to the whole group.
    let out = d.apply_signal(Signal::DeviceUpdated {
        entity: b.clone(),
        message: "1.0".to_string(),
    });
    assert_eq!(out.emits.len(), 3);
    for (e, k) in out.emits.iter().zip([a.clone(), b.clone(), c.clone()].iter()) {
        match e {
            Emit::Act { event: ActivateEvent::Deactivate { token } } => {
                assert_eq!(*token, key_value(k.clone()));
            }
            _ => panic!("a group update only deactivates progress tokens"),
        }
    }
    for k in [a, b, c] {
        let rec = d.registry.get(k).unwrap();
        assert_eq!(rec.label, "1.0");
        assert!(!rec.revealed);
    }
}

#[test]
fn accepting_a_confirmation_emits_command_then_activate() {
    let mut d = Dispatcher::new();
    d.apply_signal(Signal::Scanning);
    let k = d.apply_signal(standalone("dock", "1.0", "1.1", true)).new_entity.unwrap();
    let payload = d.update_payload_for(k.clone()).expect("a live standalone device has a payload");
    let emits = d.resolve_confirmation(k.clone(), payload, ModalResponse::Accept);
    assert_eq!(emits.len(), 2);
    match &emits[0] {
        Emit::Cmd { command: Command::RequestUpdate { entity, .. } } => {
            assert_eq!(key_value(entity.clone()), key_value(k.clone()));
        }
        _ => panic!("the command comes first"),
    }
    match &emits[1] {
        Emit::Act { event: ActivateEvent::Activate { token } } => {
            assert_eq!(*token, key_value(k.clone()));
        }
        _ => panic!("the activation comes second"),
    }
    assert!(d.registry.get(k).unwrap().showing_progress);
}

#[test]
fn cancelling_a_confirmation_emits_nothing() {
    let mut d = Dispatcher::new();
    d.apply_signal(Signal::Scanning);
    let k = d.apply_signal(standalone("dock", "1.0", "1.1", true)).new_entity.unwrap();
    let payload = d.update_payload_for(k.clone()).unwrap();
    let emits = d.resolve_confirmation(k.clone(), payload, ModalResponse::Cancel);
    assert!(emits.is_empty());
    assert!(!d.registry.get(k).unwrap().showing_progress);
}

#[test]
fn stop_is_terminal() {
    let mut d = Dispatcher::new();
    d.apply_signal(Signal::Scanning);
    let out = d.apply_signal(Signal::Stop);
    assert!(!out.keep_going);
    assert!(d.stopped);
    // Signals enqueued after Stop are not processed.
    let later = d.apply_signal(standalone("dock", "1.0", "1.1", true));
    assert!(!later.keep_going);
    assert!(later.new_entity.is_none());
    assert!(later.emits.is_empty());
    assert_eq!(d.registry.len(), 0);
    assert!(matches!(d.state, ViewState::Scanning));
}

#[test]
fn system_update_scheduled_triggers_reboot() {
    let mut d = Dispatcher::new();
    let out = d.apply_signal(Signal::SystemUpdateScheduled);
    assert_eq!(out.emits.len(), 1);
    assert!(matches!(out.emits[0], Emit::Reboot));
}

#[test]
fn updated_system_device_requests_reboot() {
    let mut d = Dispatcher::new();
    d.apply_signal(Signal::Scanning);
    let k = d
        .apply_signal(Signal::DeviceFound {
            discovery: Discovery {
                info: info("board", "6.0", "6.1"),
                kind: DeviceKind::System,
            },
        })
        .new_entity
        .unwrap();
    let rec = d.registry.get(k.clone()).unwrap();
    assert!(rec.is_system);
    assert!(rec.upgradeable, "current differs from latest");
    let out = d.apply_signal(Signal::DeviceUpdated { entity: k.clone(), message: "6.1".to_string() });
    assert_eq!(out.emits.len(), 2);
    assert!(matches!(
        out.emits[0],
        Emit::Act { event: ActivateEvent::Deactivate { .. } }
    ));
    assert!(matches!(out.emits[1], Emit::Reboot));
    let rec = d.registry.get(k).unwrap();
    assert_eq!(rec.label, "6.1");
    assert!(!rec.upgradeable);
}

#[test]
fn system_device_without_newer_version_is_not_upgradeable() {
    let mut d = Dispatcher::new();
    d.apply_signal(Signal::Scanning);
    let k = d
        .apply_signal(Signal::DeviceFound {
            discovery: Discovery {
                info: info("board", "6.1", "6.1"),
                kind: DeviceKind::System,
            },
        })
        .new_entity
        .unwrap();
    let rec = d.registry.get(k).unwrap();
    assert!(!rec.upgradeable);
    assert!(!rec.revealed);
}

#[test]
fn group_payload_uses_shared_digest() {
    let mut d = Dispatcher::new();
    d.apply_signal(Signal::Scanning);
    let a = d.apply_signal(group_unit("unit", "0.9", "1.0", Some("abc"))).new_entity.unwrap();
    let b = d.apply_signal(group_unit("unit", "0.9", "1.0", None)).new_entity.unwrap();
    match d.update_payload_for(b) {
        Some(fwdispatch::protocol::UpdatePayload::GroupDigest { digest, version }) => {
            assert_eq!(digest, "abc");
            assert_eq!(version, "1.0");
        }
        _ => panic!("a grouped device updates through the shared digest"),
    }
    drop(a);
}

#[test]
fn group_without_digest_has_no_payload() {
    let mut d = Dispatcher::new();
    d.apply_signal(Signal::Scanning);
    let a = d.apply_signal(group_unit("unit", "0.9", "1.0", None)).new_entity.unwrap();
    assert!(d.update_payload_for(a).is_none());
}

#[test]
fn error_banner_flattens_cause_chain() {
    let mut d = Dispatcher::new();
    d.apply_signal(Signal::Error {
        entity: None,
        chain: vec![
            "failed to update".to_string(),
            "daemon call failed".to_string(),
            "device busy".to_string(),
        ],
    });
    assert_eq!(
        d.banner.as_deref(),
        Some("failed to update: daemon call failed: device busy")
    );
}

#[test]
fn error_reverts_live_device_to_actionable() {
    let mut d = Dispatcher::new();
    d.apply_signal(Signal::Scanning);
    let k = d.apply_signal(standalone("dock", "1.0", "1.1", true)).new_entity.unwrap();
    let payload = d.update_payload_for(k.clone()).unwrap();
    d.resolve_confirmation(k.clone(), payload, ModalResponse::Accept);
    assert!(d.registry.get(k.clone()).unwrap().showing_progress);
    d.apply_signal(Signal::Error {
        entity: Some(k.clone()),
        chain: vec!["update failed".to_string()],
    });
    assert!(!d.registry.get(k).unwrap().showing_progress);
    assert!(matches!(d.state, ViewState::Populated));
}

#[test]
fn confirmation_modal_policy() {
    // Only the upgrade-button path of a no-reboot device skips the modal.
    assert!(!fwdispatch::confirm::confirmation_shows_modal(true, false));
    assert!(fwdispatch::confirm::confirmation_shows_modal(true, true));
    assert!(fwdispatch::confirm::confirmation_shows_modal(false, false));
    assert!(fwdispatch::confirm::confirmation_shows_modal(false, true));
}

#[test]
fn every_scanning_signal_resets_everything() {
    let mut d = Dispatcher::new();
    for _ in 0..3 {
        d.apply_signal(Signal::Scanning);
        let g = d.apply_signal(group_unit("unit", "0.9", "1.0", Some("abc"))).new_entity.unwrap();
        d.apply_signal(standalone("dock", "1.0", "1.1", true));
        assert_eq!(d.registry.len(), 2);
        assert!(d.registry.group_upgradeable);
        let out = d.apply_signal(Signal::Scanning);
        assert_eq!(d.registry.len(), 0);
        assert!(d.registry.group_members().is_empty());
        assert!(!d.registry.group_upgradeable);
        assert!(d.registry.group_digest.is_none());
        assert!(d.registry.get(g).is_none());
        assert!(matches!(d.state, ViewState::Scanning));
        assert_eq!(out.emits.len(), 1);
        assert!(matches!(out.emits[0], Emit::Act { event: ActivateEvent::Clear }));
    }
}

#[test]
fn non_upgradeable_device_is_not_interactive() {
    let mut d = Dispatcher::new();
    d.apply_signal(Signal::Scanning);
    let k = d.apply_signal(standalone("dock", "1.1", "1.1", false)).new_entity.unwrap();
    let rec = d.registry.get(k).unwrap();
    assert!(!rec.revealed);
    assert!(!rec.upgradeable);
    assert!(matches!(d.state, ViewState::Populated));
}

#[test]
fn group_update_does_not_reboot() {
    let mut d = Dispatcher::new();
    d.apply_signal(Signal::Scanning);
    let a = d.apply_signal(group_unit("unit", "0.9", "1.0", Some("abc"))).new_entity.unwrap();
    let out = d.apply_signal(Signal::DeviceUpdated { entity: a, message: "1.0".to_string() });
    assert!(out.emits.iter().all(|e| !matches!(e, Emit::Reboot)));
}
