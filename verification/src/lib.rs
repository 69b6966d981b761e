//! A framework for writing macOS AudioServerPlugins, with the
//! plug-in's object model, property protocol, lifecycle state
//! machine, and byte-level marshalling verified.

pub mod text;
pub mod fourcc;
pub mod error;
pub mod object;
pub mod float_bits;
pub mod format;
pub mod property;
pub mod stream;
pub mod device;
pub mod objects;
pub mod realtime;
pub mod io;
pub mod driver;
pub mod dispatch;
pub mod le_bytes;
pub mod raw;
pub mod bundle;

pub use bundle::BundleConfig;
pub use device::{Device, DeviceId, DeviceSpec};
pub use dispatch::DeviceState;
pub use driver::{AnyDriver, Driver, DriverInfo};
pub use error::OsStatus;
pub use format::{FormatNegotiation, SampleFormat, StreamFormat};
pub use fourcc::FourCharCode;
pub use io::{IoBuffer, IoOperation, Sample, Timestamp};
pub use object::{AudioObjectId, ObjectKind};
pub use objects::{Object, ObjectMap};
pub use property::{PropertyAddress, PropertyElement, PropertyScope, PropertySelector, PropertyValue, ValueRange};
pub use realtime::RealtimeContext;
pub use stream::{StreamDirection, StreamSpec};
