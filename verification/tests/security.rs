use observer::AuthError;
use observer::DeviceError;
use observer::DeviceInfo;
use observer::DeviceType;
use observer::MockDevice;
use observer::SecurityManager;
use observer::UsbKey;
use sha2::Digest;
use sha2::Sha256;

fn calculate_hash(data: &[u8]) -> String {
    let mut hasher = Sha256::new();
    hasher.update(data);
    format!("{:x}", hasher.finalize())
}

fn token_with_content(key_data: Vec<u8>) -> UsbKey<MockDevice> {
    let info = DeviceInfo {
        name: "MockDevice".to_string(),
        id: "test_key_id".to_string(),
        device_type: DeviceType::USB,
    };
    UsbKey::new(MockDevice::new(info, key_data), "test_key_id".to_string())
}

#[test]
fn test_security_manager_authentication() {
    let key_data = b"test_key_data".to_vec();
    let usb_key = token_with_content(key_data.clone());
    let expected_hash = calculate_hash(&key_data);
    let security_manager = SecurityManager::new(expected_hash);

    assert!(security_manager.authenticate_key(&usb_key).is_ok());
}

#[test]
fn test_authentication_rejects_wrong_digest() {
    let usb_key = token_with_content(b"test_key_data".to_vec());
    let expected_hash = calculate_hash(b"other_data");
    let security_manager = SecurityManager::new(expected_hash);

    assert_eq!(
        security_manager.authenticate_key(&usb_key),
        Err(AuthError::AuthenticationFailed)
    );
}

#[test]
fn test_authentication_rejects_garbage_expectation() {
    let usb_key = token_with_content(b"test_key_data".to_vec());
    let security_manager = SecurityManager::new("your_expected_key_hash_here".to_string());

    assert_eq!(
        security_manager.authenticate_key(&usb_key),
        Err(AuthError::AuthenticationFailed)
    );
}

#[test]
fn test_hash_data_known_value() {
    let security_manager = SecurityManager::new(String::new());
    assert_eq!(
        security_manager.hash_data(b"test_key_data"),
        "f14880ac3b2546c8b5fff768a0444dd30a40f8bf6679e366cb0867b3ede56519"
    );
    assert_eq!(
        security_manager.hash_data(b""),
        "e3b0c44298fc1c149afbf4c8996fb92427ae41e4649b934ca495991b7852b855"
    );
}

#[test]
fn test_hash_data_agrees_with_reference_digest() {
    let security_manager = SecurityManager::new(String::new());
    let samples: Vec<Vec<u8>> = vec![
        b"".to_vec(),
        b"a".to_vec(),
        b"test_key_data".to_vec(),
        (0u8..=255).collect(),
    ];
    for data in samples {
        assert_eq!(security_manager.hash_data(&data), calculate_hash(&data));
    }
}

#[test]
fn test_key_data_matches_is_exact() {
    let expected = calculate_hash(b"test_key_data");
    let security_manager = SecurityManager::new(expected);

    assert!(security_manager.key_data_matches(b"test_key_data"));
    assert!(!security_manager.key_data_matches(b"test_key_datA"));
    assert!(!security_manager.key_data_matches(b""));
}

#[test]
fn test_authentication_reads_at_most_1024_bytes() {
    let mut key_data = Vec::new();
    for i in 0..2000usize {
        key_data.push((i % 241) as u8);
    }
    let usb_key = token_with_content(key_data.clone());

    let gate_on_prefix = SecurityManager::new(calculate_hash(&key_data[..1024]));
    assert!(gate_on_prefix.authenticate_key(&usb_key).is_ok());

    let gate_on_whole = SecurityManager::new(calculate_hash(&key_data));
    assert_eq!(
        gate_on_whole.authenticate_key(&usb_key),
        Err(AuthError::AuthenticationFailed)
    );
}

#[test]
fn test_authentication_of_empty_content() {
    let usb_key = token_with_content(vec![]);
    let security_manager = SecurityManager::new(calculate_hash(b""));

    assert!(security_manager.authenticate_key(&usb_key).is_ok());
}

#[test]
fn test_authentication_device_failure() {
    let info = DeviceInfo {
        name: "MockDevice".to_string(),
        id: "test_key_id".to_string(),
        device_type: DeviceType::USB,
    };
    let mut mock_device = MockDevice::new(info, b"test_key_data".to_vec());
    mock_device.fail_io();
    let usb_key = UsbKey::new(mock_device, "test_key_id".to_string());
    let security_manager = SecurityManager::new(calculate_hash(b"test_key_data"));

    assert_eq!(
        security_manager.authenticate_key(&usb_key),
        Err(AuthError::Device(DeviceError::Io))
    );
}

#[test]
fn test_verify_key_reports_mismatch_without_error() {
    let usb_key = token_with_content(b"test_key_data".to_vec());
    let security_manager = SecurityManager::new(calculate_hash(b"something_else"));

    assert_eq!(security_manager.verify_key(&usb_key), Ok(false));
}
