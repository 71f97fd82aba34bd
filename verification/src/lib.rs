//! Decoding and discovery logic for Aranet4 environmental sensors.
//!
//! The crate holds the wire-format decoders, the value types they produce and
//! the decision logic of the device and discovery protocols. Transport I/O is
//! left to the caller, which feeds plain values in and acts on what comes out.

pub mod cgi;
pub mod characteristics;
pub mod device;
pub mod discovery;
pub mod error;
pub mod manufacturer;
pub mod reading;
pub mod status;
pub mod units;
pub mod uuids;
pub mod version;
pub mod wire;

pub use device::Aranet4;
pub use discovery::{discover_aranet4, CentralEvent, DiscoveredAranet};
pub use error::Error;
pub use manufacturer::ManufacturerData;
pub use reading::{CurrentReading, CurrentReadingDetailed};
pub use status::{CalibrationState, DisplayStatus};
pub use units::{pressure_hpa_to_atm, temperature_c_to_f};
pub use version::Version;
