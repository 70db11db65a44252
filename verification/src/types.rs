//! The closed enumeration of clipboard content types and the shape of the
//! payload each one carries.

use vstd::prelude::*;

verus! {

/// A well-known clipboard content type, plus `Other` for any native
/// identifier outside the recognized set.
///
/// `Other` is only ever produced when classifying a foreign identifier; it
/// never resolves to a native identifier of its own, so reads and writes of
/// `Other` are rejected rather than dispatched.
#[derive(Debug, Clone, Copy, PartialEq, Eq, PartialOrd, Ord, Structural)]
pub enum Type {
    /// Lossless raster image data.
    ImageLossless,
    /// Compressed raster image data.
    ImageCompressed,
    /// Fixed-layout document data.
    DocumentFixedLayout,
    /// Markup text.
    Markup,
    /// Rich (styled) text.
    RichText,
    /// Tab-separated tabular text.
    TabularText,
    /// Plain UTF-8 text.
    PlainText,
    /// A file reference, expressed as a path or URL string.
    FileReference,
    /// An unrecognized native type.
    Other,
}

/// The payload shape a content type carries: raw bytes or UTF-8 text.
#[derive(Debug, Clone, Copy, PartialEq, Eq, Structural)]
pub enum PayloadKind {
    Binary,
    Textual,
}

/// The payload shape of each recognized type; `None` for `Other`, which
/// carries no payload contract at all.
pub open spec fn spec_payload_kind(ty: Type) -> Option<PayloadKind> {
    match ty {
        Type::ImageLossless => Some(PayloadKind::Binary),
        Type::ImageCompressed => Some(PayloadKind::Binary),
        Type::DocumentFixedLayout => Some(PayloadKind::Binary),
        Type::Markup => Some(PayloadKind::Textual),
        Type::RichText => Some(PayloadKind::Textual),
        Type::TabularText => Some(PayloadKind::Textual),
        Type::PlainText => Some(PayloadKind::Textual),
        Type::FileReference => Some(PayloadKind::Textual),
        Type::Other => None,
    }
}

impl Type {
    /// Whether this type's payload is raw bytes.
    pub open spec fn is_binary(self) -> bool {
        spec_payload_kind(self) == Some(PayloadKind::Binary)
    }

    /// Whether this type's payload is UTF-8 text.
    pub open spec fn is_textual(self) -> bool {
        spec_payload_kind(self) == Some(PayloadKind::Textual)
    }

    /// The payload shape of this type, or `None` for `Other`.
    pub fn payload_kind(&self) -> (r: Option<PayloadKind>)
        ensures
            r == spec_payload_kind(*self),
    {
        match self {
            Type::ImageLossless | Type::ImageCompressed | Type::DocumentFixedLayout => {
                Some(PayloadKind::Binary)
            },
            Type::Markup | Type::RichText | Type::TabularText | Type::PlainText
            | Type::FileReference => Some(PayloadKind::Textual),
            Type::Other => None,
        }
    }
}

} // verus!
