use observer::Device;
use observer::DeviceError;
use observer::DeviceManager;
use observer::DeviceType;
use observer::PlaceholderDevice;
use observer::PlaceholderDeviceManager;

#[test]
fn test_placeholder_manager_sees_no_devices() {
    let manager = PlaceholderDeviceManager;
    assert!(manager.list_devices().unwrap().is_empty());
}

#[test]
fn test_placeholder_manager_resolves_no_identifier() {
    let mut manager = PlaceholderDeviceManager;
    assert!(matches!(
        manager.get_device("placeholder_id"),
        Err(DeviceError::NotFound)
    ));
}

#[test]
fn test_placeholder_manager_synthesizes_a_device() {
    let mut manager = PlaceholderDeviceManager;
    let device = manager.wait_for_device(1000).unwrap();
    let info = device.get_info().unwrap();
    assert_eq!(info.name, "Placeholder");
    assert_eq!(info.id, "placeholder_id");
    assert_eq!(info.device_type, DeviceType::USB);
}

#[test]
fn test_placeholder_device_channel() {
    let mut device = PlaceholderDevice;
    assert!(device.connect().is_ok());
    assert!(device.read(1024).unwrap().is_empty());
    assert!(device.write(b"ping").is_ok());
    assert_eq!(device.wait_for_command(1000).unwrap(), "PLACEHOLDER_COMMAND");
    assert!(device.disconnect().is_ok());
}
