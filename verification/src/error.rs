//! The error kinds a clipboard operation can surface.

use vstd::prelude::*;

verus! {

/// Every failure a clipboard operation reports. Each native-call failure is
/// converted into one of these at the boundary; none is swallowed.
#[derive(Debug, Clone, Copy, PartialEq, Eq, Structural)]
pub enum Error {
    /// The platform could not produce a clipboard handle at all.
    Unavailable,
    /// A read asked for newer content only, and the clipboard has not
    /// changed since this handle last observed it. Expected during polling.
    NoNewerContent,
    /// The clipboard currently holds no payload of the requested type.
    NoDataForType,
    /// The operation asked for `Type::Other`, which has no native
    /// identifier to request.
    UnsupportedType,
    /// A write's payload shape does not match the declared type: bytes for
    /// a textual type, or text for a binary one.
    TypeContentMismatch,
    /// The platform refused to store the written payload.
    WriteRejected,
}

} // verus!
