use switchboard::error::BridgeError;
use switchboard::gateway::{finish_send, frame};
use switchboard::registry::{BridgeManager, BridgeProcess};
use switchboard::status::BridgeStatus;
use switchboard::supervisor::Phase;

fn registry_with(service: &str, status: BridgeStatus) -> BridgeManager<Vec<u8>> {
    let mut registry = BridgeManager::new();
    registry.insert(
        service.to_string(),
        BridgeProcess {
            child: Vec::new(),
            status,
        },
    );
    registry
}

#[test]
fn status_of_an_unknown_service_is_disconnected() {
    let registry: BridgeManager<Vec<u8>> = BridgeManager::new();
    assert_eq!(registry.get_status("x"), "disconnected");
    let other = registry_with("y", BridgeStatus::Connected);
    assert_eq!(other.get_status("x"), "disconnected");
}

#[test]
fn status_of_a_live_service_is_its_canonical_name() {
    assert_eq!(
        registry_with("x", BridgeStatus::Connected).get_status("x"),
        "connected"
    );
    assert_eq!(
        registry_with("x", BridgeStatus::AuthNeeded).get_status("x"),
        "auth_needed"
    );
    assert_eq!(
        registry_with("x", BridgeStatus::Disconnected).get_status("x"),
        "disconnected"
    );
}

#[test]
fn send_to_an_unknown_service_is_not_running() {
    let mut registry = registry_with("y", BridgeStatus::Connected);
    let error = registry.send_to_bridge("x", "ping").unwrap_err();
    assert_eq!(
        error,
        BridgeError::NotRunning {
            service: "x".to_string()
        }
    );
    assert_eq!(error.message(), "No bridge running for service 'x'");
    assert_eq!(registry.child_mut("y"), Some(&mut Vec::new()));
    assert_eq!(registry.get_status("y"), "connected");
}

#[test]
fn send_appends_the_line_terminator() {
    let mut registry = registry_with("x", BridgeStatus::Connected);
    {
        let (child, payload) = registry.send_to_bridge("x", "ping").unwrap();
        assert_eq!(payload, "ping\n");
        child.extend_from_slice(payload.as_bytes());
    }
    assert_eq!(registry.child_mut("x").unwrap().as_slice(), &b"ping\n"[..]);
}

#[test]
fn send_keeps_a_line_terminator_that_is_there() {
    let mut registry = registry_with("x", BridgeStatus::Connected);
    {
        let (child, payload) = registry.send_to_bridge("x", "ping\n").unwrap();
        assert_eq!(payload, "ping\n");
        child.extend_from_slice(payload.as_bytes());
    }
    assert_eq!(registry.child_mut("x").unwrap().as_slice(), &b"ping\n"[..]);
}

#[test]
fn send_does_not_depend_on_the_status() {
    let mut registry = registry_with("x", BridgeStatus::AuthNeeded);
    let (_, payload) = registry.send_to_bridge("x", "{\"type\":\"auth.code\"}").unwrap();
    assert_eq!(payload, "{\"type\":\"auth.code\"}\n");
    assert_eq!(registry.get_status("x"), "auth_needed");
}

#[test]
fn framing_normalises_the_end_of_a_message() {
    assert_eq!(frame("ping"), "ping\n");
    assert_eq!(frame("ping\n"), "ping\n");
    assert_eq!(frame(""), "\n");
    assert_eq!(frame("\n"), "\n");
    assert_eq!(frame("a\nb"), "a\nb\n");
    assert_eq!(frame("ping\n\n"), "ping\n\n");
    assert_eq!(frame("ping\r"), "ping\r\n");
    assert_eq!(frame("ping\r\n"), "ping\r\n");
    assert_eq!(frame("h\u{e9}"), "h\u{e9}\n");
    assert_eq!(frame("\u{1f600}"), "\u{1f600}\n");
}

#[test]
fn framing_twice_is_framing_once() {
    for message in ["", "ping", "ping\n", "a\nb", "\n\n", "h\u{e9}llo"] {
        let once = frame(message);
        assert_eq!(frame(&once), once);
        assert!(once.ends_with('\n'));
    }
}

#[test]
fn a_failed_write_is_reported_with_its_reason() {
    let error = finish_send("x", Err("Broken pipe (os error 32)".to_string())).unwrap_err();
    assert_eq!(
        error,
        BridgeError::WriteFailed {
            service: "x".to_string(),
            reason: "Broken pipe (os error 32)".to_string()
        }
    );
    assert_eq!(
        error.message(),
        "Failed to write to bridge 'x': Broken pipe (os error 32)"
    );
}

#[test]
fn a_completed_write_is_a_success() {
    assert_eq!(finish_send("x", Ok(())), Ok(()));
}

#[test]
fn start_launches_a_supervisor_for_an_unknown_service() {
    let registry: BridgeManager<Vec<u8>> = BridgeManager::new();
    let supervisor = registry.start_bridge("x").unwrap();
    assert_eq!(supervisor.service, "x");
    assert_eq!(supervisor.phase, Phase::Spawning);
    assert!(!registry.contains("x"));
}

#[test]
fn start_does_nothing_for_a_connected_service() {
    let registry = registry_with("x", BridgeStatus::Connected);
    assert!(registry.start_bridge("x").is_none());
    assert!(registry.start_bridge("x").is_none());
    assert!(registry.start_bridge("y").is_some());
}

#[test]
fn start_launches_for_a_service_that_is_not_connected() {
    assert!(registry_with("x", BridgeStatus::AuthNeeded)
        .start_bridge("x")
        .is_some());
    assert!(registry_with("x", BridgeStatus::Disconnected)
        .start_bridge("x")
        .is_some());
}

#[test]
fn spawn_bridge_gives_a_supervisor_that_is_about_to_spawn() {
    let supervisor = BridgeManager::<Vec<u8>>::spawn_bridge("telegram".to_string());
    assert_eq!(supervisor.service, "telegram");
    assert_eq!(supervisor.phase, Phase::Spawning);
}
