use vstd::prelude::*;
use crate::device::Device;
use crate::device::DeviceError;
use crate::device::read_prefix;
use crate::digest::digest_hex;
use crate::digest::digest_hex_of;
use crate::usb_key::UsbKey;

verus! {

/// How many bytes of token content are read for verification.
pub const KEY_READ_SIZE: usize = 1024;

/// Why authentication did not succeed.
#[derive(Clone, Copy, Debug, PartialEq, Eq, Structural)]
pub enum AuthError {
    /// The token's channel failed before any comparison was made.
    Device(DeviceError),
    /// The token's content does not carry the expected digest. Deliberately
    /// uninformative: authentication fails closed and leaks no partial-match
    /// detail.
    AuthenticationFailed,
}

/// The authentication gate: it holds one configured expected digest,
/// hex-encoded, and re-reads fresh token data on every verification.
/// There is no session caching of trust.
pub struct SecurityManager {
    expected_key_hash: String,
}

impl SecurityManager {
    /// The configured expected digest, as a hex character sequence.
    pub closed spec fn expected(&self) -> Seq<char> {
        self.expected_key_hash@
    }

    /// Whether the digest of `data` is the expected one.
    pub open spec fn key_matches(&self, data: Seq<u8>) -> bool {
        digest_hex_of(data) == self.expected()
    }

    /// The token content prefix that is judged: at most `KEY_READ_SIZE`
    /// bytes of it.
    pub open spec fn judged_prefix(content: Seq<u8>) -> Seq<u8> {
        read_prefix(content, KEY_READ_SIZE as int)
    }

    pub fn new(expected_key_hash: String) -> (r: Self)
        ensures
            r.expected() == expected_key_hash@,
    {
        Self { expected_key_hash }
    }

    /// The hex-encoded digest of the given bytes, in the exact form that is
    /// compared against the configured value: always 64 characters.
    pub fn hash_data(&self, data: &[u8]) -> (r: String)
        ensures
            r@ == digest_hex_of(data@),
            r@.len() == 64,
    {
        digest_hex(data)
    }

    /// Judge a byte sequence directly: true exactly when its digest is the
    /// configured one.
    pub fn key_data_matches(&self, data: &[u8]) -> (r: bool)
        ensures
            r == self.key_matches(data@),
    {
        let key_hash = self.hash_data(data);
        key_hash == self.expected_key_hash
    }

    /// Read up to `KEY_READ_SIZE` bytes from the token and report whether
    /// their digest is the expected one. Verification reads fresh data on
    /// every call.
    pub fn verify_key<D: Device>(&self, usb_key: &UsbKey<D>) -> (r: Result<bool, DeviceError>)
        ensures
            r matches Ok(b) ==> b == self.key_matches(Self::judged_prefix(usb_key.content())),
    {
        let key_data = match usb_key.read_data(KEY_READ_SIZE) {
            Ok(data) => data,
            Err(e) => {
                return Err(e);
            },
        };
        Ok(self.key_data_matches(key_data.as_slice()))
    }

    /// The authentication gate proper: succeed only on a true digest match
    /// and fail closed otherwise. A channel failure surfaces as
    /// `AuthError::Device` without any comparison having been made; short
    /// of that, the result is success exactly when the judged prefix
    /// carries the expected digest.
    pub fn authenticate_key<D: Device>(&self, usb_key: &UsbKey<D>) -> (r: Result<(), AuthError>)
        ensures
            r matches Err(AuthError::Device(_)) || ((r is Ok) <==> self.key_matches(
                Self::judged_prefix(usb_key.content()),
            )),
            r matches Ok(()) ==> self.key_matches(Self::judged_prefix(usb_key.content())),
            r matches Err(AuthError::AuthenticationFailed) ==> !self.key_matches(
                Self::judged_prefix(usb_key.content()),
            ),
    {
        match self.verify_key(usb_key) {
            Ok(true) => Ok(()),
            Ok(false) => Err(AuthError::AuthenticationFailed),
            Err(e) => Err(AuthError::Device(e)),
        }
    }
}

} // verus!
