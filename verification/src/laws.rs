//! The guarantees the clipboard protocol gives across calls, proved over
//! the same model the handle's contracts are stated in.

use vstd::prelude::*;

use crate::board::after_write;
use crate::board::skip_read;
use crate::board::slot_ids;
use crate::board::spec_read;
use crate::board::spec_types;
use crate::board::spec_write_plan;
use crate::content::ContentModel;
use crate::error::Error;
use crate::model::ClipboardModel;
use crate::registry::lemma_registry_roundtrip;
use crate::registry::native_id;
use crate::registry::type_of_native;
use crate::types::Type;

verus! {

/// Round trip, textual: writing text as any textual type and reading that
/// type back returns the text unchanged, whatever was on the clipboard
/// before.
pub proof fn lemma_round_trip_text(m: ClipboardModel, ty: Type, text: Seq<char>)
    requires
        ty.is_textual(),
        m.count < u64::MAX,
    ensures
        spec_read(after_write(m, ContentModel::Text(text), ty), ty) == Ok::<
            ContentModel,
            Error,
        >(ContentModel::Text(text)),
{
    let written = after_write(m, ContentModel::Text(text), ty);
    assert(written.slots[0].id == native_id(ty));
}

/// Round trip, binary: writing bytes as any binary type and reading that
/// type back returns the bytes unchanged, whatever was on the clipboard
/// before.
pub proof fn lemma_round_trip_data(m: ClipboardModel, ty: Type, bytes: Seq<u8>)
    requires
        ty.is_binary(),
        m.count < u64::MAX,
    ensures
        spec_read(after_write(m, ContentModel::Data(bytes), ty), ty) == Ok::<
            ContentModel,
            Error,
        >(ContentModel::Data(bytes)),
{
    let written = after_write(m, ContentModel::Data(bytes), ty);
    assert(written.slots[0].id == native_id(ty));
}

/// Change detection, first read: a write advances the clipboard's counter
/// past every watermark at or below the old counter, so the next
/// newer-only read through such a handle is not skipped as
/// `NoNewerContent`.
pub proof fn lemma_write_then_newer_read_proceeds(
    watermark: u64,
    m: ClipboardModel,
    c: ContentModel,
    ty: Type,
)
    requires
        watermark <= m.count,
        m.count < u64::MAX,
    ensures
        !skip_read(watermark, after_write(m, c, ty).count, true),
{
}

/// Change detection, second read: a read that proceeded leaves the
/// watermark at the clipboard's counter, so with no intervening change a
/// second newer-only read is skipped as `NoNewerContent`.
pub proof fn lemma_second_newer_read_skips(m: ClipboardModel)
    ensures
        skip_read(m.count, m.count, true),
{
}

/// Enumeration completeness: after a successful write of type `ty`, the
/// enumeration includes `ty`.
pub proof fn lemma_written_type_enumerated(m: ClipboardModel, c: ContentModel, ty: Type)
    requires
        spec_write_plan(c, ty) is Ok,
        m.count < u64::MAX,
    ensures
        spec_types(slot_ids(after_write(m, c, ty).slots)).contains(ty),
{
    let written = after_write(m, c, ty);
    let ids = slot_ids(written.slots);
    lemma_registry_roundtrip(ty);
    assert(ids[0] == native_id(ty));
    assert(ids.subrange(1, 1) =~= Seq::<Seq<char>>::empty());
    assert(spec_types(ids)[0] == ty);
}

/// Enumeration exclusion: an identifier with no mapping never appears in
/// the enumeration; no entry of it is ever `Other`.
pub proof fn lemma_enumeration_excludes_other(ids: Seq<Seq<char>>, i: int)
    requires
        0 <= i < spec_types(ids).len(),
    ensures
        spec_types(ids)[i] != Type::Other,
    decreases ids.len(),
{
    let rest_ids = ids.subrange(1, ids.len() as int);
    let rest = spec_types(rest_ids);
    let ty = type_of_native(ids[0]);
    if ty == Type::Other {
        lemma_enumeration_excludes_other(rest_ids, i);
    } else {
        if i > 0 {
            lemma_enumeration_excludes_other(rest_ids, i - 1);
            assert(spec_types(ids)[i] == rest[i - 1]);
        }
    }
}

/// Rejection: once the staleness check has passed, a read of `Other`
/// always fails as unsupported, before any native identifier is resolved
/// or any fetch attempted.
pub proof fn lemma_other_read_rejected(m: ClipboardModel)
    ensures
        spec_read(m, Type::Other) == Err::<ContentModel, Error>(Error::UnsupportedType),
{
}

} // verus!
