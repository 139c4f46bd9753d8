//! An abstraction over a security module's volatile object slots.
//!
//! The module (simulated by [`driver::Driver`]) exposes a severely limited
//! table of volatile slots; raw use would force every caller to load, use and
//! flush objects by hand.  [`transient::TransientObjectContext`] hides that
//! bookkeeping: objects are handed to clients as opaque context blobs, and the
//! module's slots are occupied only for the duration of a single operation.
//! Every public operation is verified to leave the slot table exactly as it
//! found it, on every path, error paths included.

pub mod driver;
pub mod errors;
pub mod laws;
pub mod transient;

pub use driver::ContextBlob;
pub use driver::FaultCommand;
pub use driver::Signature;
pub use driver::TpmtTkVerified;
pub use driver::TransportConfig;
pub use errors::DriverError;
pub use errors::Error;
pub use transient::TransientObjectContext;
