pub mod device;
pub mod digest;
pub mod handler;
pub mod mock_device;
pub mod placeholder;
pub mod security;
pub mod session;
pub mod usb_key;

pub use device::Device;
pub use device::DeviceError;
pub use device::DeviceInfo;
pub use device::DeviceInfoView;
pub use device::DeviceManager;
pub use device::DeviceType;
pub use handler::CommandAction;
pub use handler::CommandHandler;
pub use handler::DispatchError;
pub use handler::Platform;
pub use handler::ProcessOutcome;
pub use handler::ScriptInvocation;
pub use handler::ScriptKind;
pub use handler::StatusInvocation;
pub use mock_device::MockDevice;
pub use placeholder::PlaceholderDevice;
pub use placeholder::PlaceholderDeviceManager;
pub use security::AuthError;
pub use security::SecurityManager;
pub use session::step;
pub use session::SessionAction;
pub use session::SessionEvent;
pub use session::SessionState;
pub use session::Transition;
pub use usb_key::TokenError;
pub use usb_key::UsbKey;
