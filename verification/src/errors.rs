//! The error taxonomy of the library.
//!
//! A caller can tell apart a fault of its own input (`WrongParamSize`), a
//! failure reported by the module or its transport (`Driver`), a failed
//! translation between the caller-facing and the wire representation
//! (`Conversion`), and a module response using an algorithm variant this
//! library does not handle (`UnsupportedParam`).

use vstd::prelude::*;

verus! {

/// A failure reported by the simulated module driver.
#[derive(Clone, Copy, Debug, PartialEq, Eq, Structural)]
pub enum DriverError {
    /// The configured fault of the transport was hit.
    InjectedFault,
    /// A sensitive command ran without the encrypt/decrypt session attributes
    /// set; the module does not retain them across commands.
    SessionAttrsNotSet,
    /// No free volatile slot was left in the module's object table.
    ObjectMemory,
    /// The handle does not name an occupied slot, or names an object of the
    /// wrong kind for the command.
    BadHandle,
    /// The authorization value bound to the handle does not match the
    /// object's.
    AuthFail,
    /// The signature is not valid for the object and digest.
    BadSignature,
}

/// An error of a public operation.
#[derive(Clone, Copy, Debug, PartialEq, Eq, Structural)]
pub enum Error {
    /// A caller-supplied size or length is outside the accepted domain;
    /// detected before any module command is issued.
    WrongParamSize,
    /// A module response used an algorithm variant other than RSA.
    UnsupportedParam,
    /// Translation between the caller-facing representation and the module's
    /// wire structure failed.
    Conversion,
    /// The module or its transport reported a failure.
    Driver(DriverError),
}

} // verus!
