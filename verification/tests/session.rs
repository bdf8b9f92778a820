use observer::step;
use observer::CommandAction;
use observer::CommandHandler;
use observer::DeviceInfo;
use observer::DeviceType;
use observer::MockDevice;
use observer::ScriptKind;
use observer::SecurityManager;
use observer::SessionAction;
use observer::SessionEvent;
use observer::SessionState;
use observer::UsbKey;
use sha2::Digest;
use sha2::Sha256;

fn calculate_session_hash(data: &[u8]) -> String {
    let mut hasher = Sha256::new();
    hasher.update(data);
    format!("{:x}", hasher.finalize())
}

#[test]
fn test_session_happy_cycle() {
    let t = step(SessionState::Idle, SessionEvent::DeviceWaitFailed);
    assert_eq!(t.state, SessionState::WaitingForDevice);
    assert_eq!(t.action, SessionAction::WaitForDevice);

    let t = step(SessionState::WaitingForDevice, SessionEvent::DeviceFound(true));
    assert_eq!(t.state, SessionState::Initializing);
    assert_eq!(t.action, SessionAction::InitializeToken);

    let t = step(SessionState::Initializing, SessionEvent::InitSucceeded);
    assert_eq!(t.state, SessionState::Authenticating);
    assert_eq!(t.action, SessionAction::AuthenticateToken);

    let t = step(SessionState::Authenticating, SessionEvent::AuthSucceeded);
    assert_eq!(t.state, SessionState::CommandLoop);
    assert_eq!(t.action, SessionAction::WaitForCommand);

    let t = step(SessionState::CommandLoop, SessionEvent::CommandReceived);
    assert_eq!(t.state, SessionState::CommandLoop);
    assert_eq!(t.action, SessionAction::DispatchCommand);

    let t = step(SessionState::CommandLoop, SessionEvent::CommandHandled);
    assert_eq!(t.state, SessionState::CommandLoop);
    assert_eq!(t.action, SessionAction::WaitForCommand);
}

#[test]
fn test_command_timeout_disconnects_then_rearms() {
    let t = step(SessionState::CommandLoop, SessionEvent::CommandWaitFailed);
    assert_eq!(t.state, SessionState::Disconnecting);
    assert_eq!(t.action, SessionAction::Disconnect);

    let t = step(SessionState::Disconnecting, SessionEvent::Disconnected);
    assert_eq!(t.state, SessionState::WaitingForDevice);
    assert_eq!(t.action, SessionAction::WaitForDevice);
}

#[test]
fn test_non_token_device_is_ignored() {
    let t = step(SessionState::WaitingForDevice, SessionEvent::DeviceFound(false));
    assert_eq!(t.state, SessionState::WaitingForDevice);
    assert_eq!(t.action, SessionAction::WaitForDevice);
}

#[test]
fn test_discovery_failure_retries() {
    let t = step(SessionState::WaitingForDevice, SessionEvent::DeviceWaitFailed);
    assert_eq!(t.state, SessionState::WaitingForDevice);
    assert_eq!(t.action, SessionAction::WaitForDevice);
}

#[test]
fn test_init_and_auth_failures_rearm_discovery() {
    let t = step(SessionState::Initializing, SessionEvent::InitFailed);
    assert_eq!(t.state, SessionState::WaitingForDevice);
    assert_eq!(t.action, SessionAction::WaitForDevice);

    let t = step(SessionState::Authenticating, SessionEvent::AuthFailed);
    assert_eq!(t.state, SessionState::WaitingForDevice);
    assert_eq!(t.action, SessionAction::WaitForDevice);
}

#[test]
fn test_integration() {
    let key_data = b"test_key_data".to_vec();
    let info = DeviceInfo {
        name: "MockDevice".to_string(),
        id: "test_key_id".to_string(),
        device_type: DeviceType::USB,
    };
    let mut mock_device = MockDevice::new(info, key_data.clone());
    mock_device.add_command("ALLOW_NETWORK".to_string());

    let mut usb_key = UsbKey::new(mock_device, "test_key_id".to_string());
    let expected_hash = calculate_session_hash(&key_data);
    let security_manager = SecurityManager::new(expected_hash);

    usb_key.initialize().unwrap();
    security_manager.authenticate_key(&usb_key).unwrap();

    let command = usb_key.wait_for_command(5000).unwrap();
    assert_eq!(command, "ALLOW_NETWORK");

    let command_handler = CommandHandler::new("test_scripts".to_string());
    let action = command_handler.handle_command(&command).unwrap();
    assert_eq!(action, CommandAction::RunScript(ScriptKind::AllowNetwork));

    let result = command_handler
        .script_result(
            ScriptKind::AllowNetwork,
            observer::ProcessOutcome {
                success: true,
                stdout: "ALLOW_NETWORK script executed\n".to_string(),
                stderr: String::new(),
            },
        )
        .unwrap();
    assert!(
        result.contains("ALLOW_NETWORK script executed"),
        "Unexpected result: {}",
        result
    );
}

#[test]
fn test_unexpected_event_rearms_discovery() {
    let t = step(SessionState::Initializing, SessionEvent::AuthSucceeded);
    assert_eq!(t.state, SessionState::WaitingForDevice);
    assert_eq!(t.action, SessionAction::WaitForDevice);

    let t = step(SessionState::Disconnecting, SessionEvent::CommandReceived);
    assert_eq!(t.state, SessionState::WaitingForDevice);
    assert_eq!(t.action, SessionAction::WaitForDevice);
}
