use vstd::prelude::*;
use crate::device::Device;
use crate::device::DeviceError;
use crate::device::DeviceInfo;
use crate::device::DeviceInfoView;
use crate::device::DeviceManager;
use crate::device::DeviceType;

verus! {

/// Stand-in hardware backend. The real enumeration protocol for the
/// physical token class is supplied during integration; until then this
/// no-op device reports a fixed descriptor, yields no content, and hands
/// out a fixed command. None of its operations ever fails.
pub struct PlaceholderDevice;

impl Device for PlaceholderDevice {
    closed spec fn descriptor(&self) -> DeviceInfoView {
        DeviceInfoView {
            name: "Placeholder"@,
            id: "placeholder_id"@,
            device_type: DeviceType::USB,
        }
    }

    closed spec fn content(&self) -> Seq<u8> {
        Seq::empty()
    }

    fn connect(&mut self) -> (r: Result<(), DeviceError>)
        ensures
            r == Ok::<(), DeviceError>(()),
    {
        Ok(())
    }

    fn disconnect(&mut self) -> (r: Result<(), DeviceError>)
        ensures
            r == Ok::<(), DeviceError>(()),
    {
        Ok(())
    }

    fn read(&self, size: usize) -> (r: Result<Vec<u8>, DeviceError>)
        ensures
            r matches Ok(data) && data@ == Seq::<u8>::empty(),
    {
        let data: Vec<u8> = Vec::new();
        proof {
            assert(data@ =~= Seq::<u8>::empty());
        }
        Ok(data)
    }

    fn write(&self, data: &[u8]) -> (r: Result<(), DeviceError>)
        ensures
            r == Ok::<(), DeviceError>(()),
    {
        Ok(())
    }

    fn get_info(&self) -> (r: Result<DeviceInfo, DeviceError>)
        ensures
            r matches Ok(info) && info@.name == "Placeholder"@ && info@.id == "placeholder_id"@
                && info@.device_type == DeviceType::USB,
    {
        Ok(
            DeviceInfo {
                name: "Placeholder".to_owned(),
                id: "placeholder_id".to_owned(),
                device_type: DeviceType::USB,
            },
        )
    }

    fn wait_for_command(&mut self, timeout_ms: u64) -> (r: Result<String, DeviceError>)
        ensures
            r matches Ok(command) && command@ == "PLACEHOLDER_COMMAND"@,
    {
        Ok("PLACEHOLDER_COMMAND".to_owned())
    }
}

/// Stand-in device directory: it sees no devices, resolves no identifier,
/// and synthesizes a placeholder device for every bounded wait, whatever
/// the timeout was.
pub struct PlaceholderDeviceManager;

impl DeviceManager for PlaceholderDeviceManager {
    type Dev = PlaceholderDevice;

    fn list_devices(&self) -> (r: Result<Vec<DeviceInfo>, DeviceError>)
        ensures
            r matches Ok(devices) && devices@.len() == 0,
    {
        Ok(Vec::new())
    }

    fn get_device(&mut self, id: &str) -> (r: Result<PlaceholderDevice, DeviceError>)
        ensures
            r matches Err(e) && e == DeviceError::NotFound,
    {
        Err(DeviceError::NotFound)
    }

    fn wait_for_device(&mut self, timeout_ms: u64) -> (r: Result<PlaceholderDevice, DeviceError>)
        ensures
            r is Ok,
    {
        Ok(PlaceholderDevice)
    }
}

} // verus!
