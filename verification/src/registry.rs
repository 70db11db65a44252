//! The bidirectional mapping between content types and the platform's
//! native type identifiers.
//!
//! Identifiers are plain strings compared by value, so no identity
//! semantics of a foreign runtime leaks into the contracts.

use vstd::prelude::*;

use crate::types::Type;

verus! {

/// The native identifier each recognized type resolves to. `Other` has no
/// identifier; it is mapped to the empty string, which is outside the
/// recognized set, so no lookup can ever produce it.
pub open spec fn native_id(ty: Type) -> Seq<char> {
    match ty {
        Type::ImageLossless => "public.tiff"@,
        Type::ImageCompressed => "public.png"@,
        Type::DocumentFixedLayout => "com.adobe.pdf"@,
        Type::Markup => "public.html"@,
        Type::RichText => "public.rtf"@,
        Type::TabularText => "public.utf8-tab-separated-values-text"@,
        Type::PlainText => "public.utf8-plain-text"@,
        Type::FileReference => "public.file-url"@,
        Type::Other => Seq::<char>::empty(),
    }
}

/// The type a native identifier denotes: any identifier outside the
/// recognized set maps to `Other`.
pub open spec fn type_of_native(id: Seq<char>) -> Type {
    if id == native_id(Type::ImageLossless) {
        Type::ImageLossless
    } else if id == native_id(Type::ImageCompressed) {
        Type::ImageCompressed
    } else if id == native_id(Type::DocumentFixedLayout) {
        Type::DocumentFixedLayout
    } else if id == native_id(Type::Markup) {
        Type::Markup
    } else if id == native_id(Type::RichText) {
        Type::RichText
    } else if id == native_id(Type::TabularText) {
        Type::TabularText
    } else if id == native_id(Type::PlainText) {
        Type::PlainText
    } else if id == native_id(Type::FileReference) {
        Type::FileReference
    } else {
        Type::Other
    }
}

/// Value equality of two strings, stated over their character sequences.
pub(crate) fn str_eq(a: &str, b: &str) -> (r: bool)
    ensures
        r == (a@ == b@),
{
    let ao: String = a.to_owned();
    let bo: String = b.to_owned();
    ao == bo
}

impl Type {
    /// Resolve this type to its native identifier; `Other` has none.
    pub fn to_native(&self) -> (r: Option<&'static str>)
        ensures
            match r {
                Some(s) => *self != Type::Other && s@ == native_id(*self),
                None => *self == Type::Other,
            },
    {
        match self {
            Type::ImageLossless => Some("public.tiff"),
            Type::ImageCompressed => Some("public.png"),
            Type::DocumentFixedLayout => Some("com.adobe.pdf"),
            Type::Markup => Some("public.html"),
            Type::RichText => Some("public.rtf"),
            Type::TabularText => Some("public.utf8-tab-separated-values-text"),
            Type::PlainText => Some("public.utf8-plain-text"),
            Type::FileReference => Some("public.file-url"),
            Type::Other => None,
        }
    }

    /// Classify a native identifier; unrecognized ones map to `Other`.
    pub fn from_native(id: &str) -> (r: Type)
        ensures
            r == type_of_native(id@),
    {
        if str_eq(id, "public.tiff") {
            Type::ImageLossless
        } else if str_eq(id, "public.png") {
            Type::ImageCompressed
        } else if str_eq(id, "com.adobe.pdf") {
            Type::DocumentFixedLayout
        } else if str_eq(id, "public.html") {
            Type::Markup
        } else if str_eq(id, "public.rtf") {
            Type::RichText
        } else if str_eq(id, "public.utf8-tab-separated-values-text") {
            Type::TabularText
        } else if str_eq(id, "public.utf8-plain-text") {
            Type::PlainText
        } else if str_eq(id, "public.file-url") {
            Type::FileReference
        } else {
            Type::Other
        }
    }
}

/// The registry round-trips: a recognized type's own identifier classifies
/// back to that type, so the eight identifiers are pairwise distinct.
pub proof fn lemma_registry_roundtrip(ty: Type)
    requires
        ty != Type::Other,
    ensures
        type_of_native(native_id(ty)) == ty,
{
    reveal_strlit("public.tiff");
    reveal_strlit("public.png");
    reveal_strlit("com.adobe.pdf");
    reveal_strlit("public.html");
    reveal_strlit("public.rtf");
    reveal_strlit("public.utf8-tab-separated-values-text");
    reveal_strlit("public.utf8-plain-text");
    reveal_strlit("public.file-url");
    assert("public.tiff"@.len() == 11);
    assert("public.png"@.len() == 10);
    assert("com.adobe.pdf"@.len() == 13);
    assert("public.html"@.len() == 11);
    assert("public.rtf"@.len() == 10);
    assert("public.utf8-tab-separated-values-text"@.len() == 37);
    assert("public.utf8-plain-text"@.len() == 22);
    assert("public.file-url"@.len() == 15);
    assert("public.tiff"@[7] == 't');
    assert("public.html"@[7] == 'h');
    assert("public.png"@[7] == 'p');
    assert("public.rtf"@[7] == 'r');
    assert(type_of_native(native_id(Type::ImageLossless)) == Type::ImageLossless);
    assert(type_of_native(native_id(Type::ImageCompressed)) == Type::ImageCompressed);
    assert(type_of_native(native_id(Type::DocumentFixedLayout)) == Type::DocumentFixedLayout);
    assert(type_of_native(native_id(Type::Markup)) == Type::Markup);
    assert(type_of_native(native_id(Type::RichText)) == Type::RichText);
    assert(type_of_native(native_id(Type::TabularText)) == Type::TabularText);
    assert(type_of_native(native_id(Type::PlainText)) == Type::PlainText);
    assert(type_of_native(native_id(Type::FileReference)) == Type::FileReference);
}

} // verus!
