use vstd::prelude::*;

verus! {

/// Classification of a discovered device, taken from its descriptor.
/// Only `USB` devices are accepted as authentication tokens.
#[derive(Clone, Copy, Debug, PartialEq, Eq, Structural)]
pub enum DeviceType {
    USB,
    Disk,
    Other,
}

/// Immutable descriptor snapshot returned by a device channel.
/// It is used for classification only, never for authentication.
#[derive(Clone, Debug)]
pub struct DeviceInfo {
    pub name: String,
    pub id: String,
    pub device_type: DeviceType,
}

/// Mathematical view of a descriptor.
pub struct DeviceInfoView {
    pub name: Seq<char>,
    pub id: Seq<char>,
    pub device_type: DeviceType,
}

impl View for DeviceInfo {
    type V = DeviceInfoView;

    open spec fn view(&self) -> DeviceInfoView {
        DeviceInfoView { name: self.name@, id: self.id@, device_type: self.device_type }
    }
}

/// Failures of the device layer. They are recovered locally by the control
/// loop and are never fatal.
#[derive(Clone, Copy, Debug, PartialEq, Eq, Structural)]
pub enum DeviceError {
    /// A connect, disconnect, read or write operation failed.
    Io,
    /// A bounded wait elapsed without a device or a command appearing.
    Timeout,
    /// No device with the requested identifier exists.
    NotFound,
}

/// The prefix of `content` that a read of `n` bytes yields: the whole
/// content when it is shorter than `n`, its first `n` bytes otherwise.
pub open spec fn read_prefix(content: Seq<u8>, n: int) -> Seq<u8> {
    if content.len() <= n {
        content
    } else {
        content.take(n)
    }
}

/// Capability interface for a single physical device. Implementations are
/// polymorphic over this set: a hardware backend and a test backend at
/// minimum, and new physical classes can be added without changing callers.
///
/// Every device carries a ghost descriptor and ghost token content; the
/// operations may fail, but whatever they return is tied to those models.
pub trait Device: Sized {
    /// The descriptor this device reports.
    spec fn descriptor(&self) -> DeviceInfoView;

    /// The token content this device yields to reads.
    spec fn content(&self) -> Seq<u8>;

    /// Open the channel. Connecting does not change what the device is.
    fn connect(&mut self) -> (r: Result<(), DeviceError>)
        ensures
            final(self).descriptor() == old(self).descriptor(),
            final(self).content() == old(self).content(),
    ;

    /// Close the channel. Disconnecting does not change what the device is.
    fn disconnect(&mut self) -> (r: Result<(), DeviceError>)
        ensures
            final(self).descriptor() == old(self).descriptor(),
            final(self).content() == old(self).content(),
    ;

    /// Read up to `size` bytes: a successful read yields exactly the first
    /// `size` bytes of the content, or all of it when there is less.
    fn read(&self, size: usize) -> (r: Result<Vec<u8>, DeviceError>)
        ensures
            r matches Ok(data) ==> data@ == read_prefix(self.content(), size as int),
    ;

    /// Send bytes to the device.
    fn write(&self, data: &[u8]) -> (r: Result<(), DeviceError>);

    /// Fetch the descriptor: a successful fetch reports the device as it is.
    fn get_info(&self) -> (r: Result<DeviceInfo, DeviceError>)
        ensures
            r matches Ok(info) ==> info@ == self.descriptor(),
    ;

    /// Wait up to `timeout_ms` milliseconds for an incoming command string.
    /// Waiting consumes at most a queued command; it does not change what
    /// the device is.
    fn wait_for_command(&mut self, timeout_ms: u64) -> (r: Result<String, DeviceError>)
        ensures
            final(self).descriptor() == old(self).descriptor(),
            final(self).content() == old(self).content(),
    ;
}

/// The sole device-discovery boundary: it enumerates devices and hands
/// ownership of a freshly discovered channel to the caller. What appears,
/// and when, is the environment's choice, so nothing is promised of it.
pub trait DeviceManager: Sized {
    /// The class of devices this directory hands out.
    type Dev: Device;

    /// Enumerate the descriptors of the devices currently visible.
    fn list_devices(&self) -> (r: Result<Vec<DeviceInfo>, DeviceError>);

    /// Hand out the device with the given identifier, or `NotFound`.
    fn get_device(&mut self, id: &str) -> (r: Result<Self::Dev, DeviceError>);

    /// Suspend until a device is observed or `timeout_ms` milliseconds
    /// elapse; expiry surfaces as `Timeout`.
    fn wait_for_device(&mut self, timeout_ms: u64) -> (r: Result<Self::Dev, DeviceError>);
}

} // verus!
