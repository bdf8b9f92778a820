use vstd::prelude::*;
use crate::device::Device;
use crate::device::DeviceError;
use crate::device::DeviceInfo;
use crate::device::DeviceInfoView;
use crate::device::DeviceType;
use crate::device::read_prefix;

verus! {

/// Why a token could not be taken into service.
#[derive(Clone, Copy, Debug, PartialEq, Eq, Structural)]
pub enum TokenError {
    /// The underlying channel failed.
    Device(DeviceError),
    /// The descriptor does not classify the device as a USB token.
    WrongDeviceType,
    /// The descriptor's identifier differs from the configured key
    /// identifier.
    IdentityMismatch,
}

/// An authentication token: exclusive owner of one device channel for the
/// lifetime of a session, plus the key identifier it is expected to carry.
/// The token adds identity, not transport behavior: data operations
/// delegate directly to the channel.
pub struct UsbKey<D: Device> {
    device: D,
    key_id: String,
}

impl<D: Device> UsbKey<D> {
    /// The key identifier this token was configured with.
    pub closed spec fn key_id_view(&self) -> Seq<char> {
        self.key_id@
    }

    /// Whether the descriptor classifies this device as a USB token whose
    /// identifier equals the configured key identifier.
    pub open spec fn identity_accepted(&self) -> bool {
        &&& self.descriptor().device_type == DeviceType::USB
        &&& self.descriptor().id == self.key_id_view()
    }

    /// What the identity check decides from the descriptor: the type is
    /// judged before the identifier, and a token that passes both is
    /// accepted.
    pub open spec fn identity_verdict(&self) -> Result<(), TokenError> {
        if self.descriptor().device_type != DeviceType::USB {
            Err(TokenError::WrongDeviceType)
        } else if self.descriptor().id != self.key_id_view() {
            Err(TokenError::IdentityMismatch)
        } else {
            Ok(())
        }
    }

    pub fn new(device: D, key_id: String) -> (r: Self)
        ensures
            r.key_id_view() == key_id@,
            r.descriptor() == device.descriptor(),
            r.content() == device.content(),
    {
        Self { device, key_id }
    }

    /// Connect the channel and verify the token's identity: fail with
    /// `WrongDeviceType` when the descriptor is not a USB token, with
    /// `IdentityMismatch` when its identifier is not the configured one,
    /// and succeed otherwise. No token data is read here. Short of the
    /// channel itself failing, the result is exactly the identity verdict
    /// over the descriptor.
    pub fn initialize(&mut self) -> (r: Result<(), TokenError>)
        ensures
            final(self).key_id_view() == old(self).key_id_view(),
            final(self).descriptor() == old(self).descriptor(),
            final(self).content() == old(self).content(),
            r matches Err(TokenError::Device(_)) || r == old(self).identity_verdict(),
            r matches Ok(()) ==> old(self).identity_accepted(),
    {
        match self.device.connect() {
            Ok(()) => (),
            Err(e) => {
                return Err(TokenError::Device(e));
            },
        }
        let info = match self.device.get_info() {
            Ok(info) => info,
            Err(e) => {
                return Err(TokenError::Device(e));
            },
        };
        if info.device_type != DeviceType::USB {
            return Err(TokenError::WrongDeviceType);
        }
        if !(info.id == self.key_id) {
            return Err(TokenError::IdentityMismatch);
        }
        Ok(())
    }

    /// Read up to `size` bytes of token content through the channel.
    pub fn read_data(&self, size: usize) -> (r: Result<Vec<u8>, DeviceError>)
        ensures
            r matches Ok(data) ==> data@ == read_prefix(self.content(), size as int),
    {
        self.device.read(size)
    }

    /// Send bytes through the channel.
    pub fn write_data(&self, data: &[u8]) -> (r: Result<(), DeviceError>) {
        self.device.write(data)
    }

    /// Wait up to `timeout_ms` milliseconds for an incoming command.
    pub fn wait_for_command(&mut self, timeout_ms: u64) -> (r: Result<String, DeviceError>)
        ensures
            final(self).key_id_view() == old(self).key_id_view(),
            final(self).descriptor() == old(self).descriptor(),
            final(self).content() == old(self).content(),
    {
        self.device.wait_for_command(timeout_ms)
    }

    /// Close the channel; the token then has to be initialized anew.
    pub fn disconnect(&mut self) -> (r: Result<(), DeviceError>)
        ensures
            final(self).key_id_view() == old(self).key_id_view(),
            final(self).descriptor() == old(self).descriptor(),
            final(self).content() == old(self).content(),
    {
        self.device.disconnect()
    }
}

impl<D: Device> Device for UsbKey<D> {
    closed spec fn descriptor(&self) -> DeviceInfoView {
        self.device.descriptor()
    }

    closed spec fn content(&self) -> Seq<u8> {
        self.device.content()
    }

    fn connect(&mut self) -> (r: Result<(), DeviceError>) {
        self.device.connect()
    }

    fn disconnect(&mut self) -> (r: Result<(), DeviceError>) {
        self.device.disconnect()
    }

    fn read(&self, size: usize) -> (r: Result<Vec<u8>, DeviceError>) {
        self.device.read(size)
    }

    fn write(&self, data: &[u8]) -> (r: Result<(), DeviceError>) {
        self.device.write(data)
    }

    fn get_info(&self) -> (r: Result<DeviceInfo, DeviceError>) {
        self.device.get_info()
    }

    fn wait_for_command(&mut self, timeout_ms: u64) -> (r: Result<String, DeviceError>) {
        self.device.wait_for_command(timeout_ms)
    }
}

} // verus!
