//! Platform devices and the system bus that maps them into the address space.
pub mod bus_device;
pub mod error;
pub mod ram;

pub use bus_device::BusDevice;
pub use error::SystemBusError;
pub use ram::Ram;
pub mod clock;

pub use clock::Clock;
pub mod timer;

pub use timer::Timer;
pub mod serial;

pub use serial::{Serial, SerialSink, SerialSource, VecSerialSink, VecSerialSource};
pub mod device;

pub use device::Device;
pub mod mapped_device;

pub use mapped_device::MappedDevice;
pub mod system_bus;

pub use system_bus::{DeviceId, PendingInterrupt, SystemBus};
pub mod laws;
