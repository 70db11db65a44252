//! Clipboard payloads: raw bytes or UTF-8 text, independent of the specific
//! type they are read or written as.

use vstd::prelude::*;

use crate::types::PayloadKind;

verus! {

/// A self-contained clipboard payload. Each value owns its buffer outright:
/// nothing aliases platform or caller memory once a call returns.
#[derive(Debug, Clone)]
pub enum Content {
    /// A binary payload.
    Data(Vec<u8>),
    /// A textual payload.
    Text(String),
}

/// The mathematical value of a payload: the byte or character sequence it
/// carries.
pub enum ContentModel {
    Data(Seq<u8>),
    Text(Seq<char>),
}

impl View for Content {
    type V = ContentModel;

    open spec fn view(&self) -> ContentModel {
        match self {
            Content::Data(bytes) => ContentModel::Data(bytes@),
            Content::Text(text) => ContentModel::Text(text@),
        }
    }
}

impl ContentModel {
    /// The payload shape of this content value.
    pub open spec fn kind(self) -> PayloadKind {
        match self {
            ContentModel::Data(_) => PayloadKind::Binary,
            ContentModel::Text(_) => PayloadKind::Textual,
        }
    }
}

impl Content {
    /// The payload shape of this content value.
    pub fn kind(&self) -> (r: PayloadKind)
        ensures
            r == self@.kind(),
    {
        match self {
            Content::Data(_) => PayloadKind::Binary,
            Content::Text(_) => PayloadKind::Textual,
        }
    }
}

} // verus!
