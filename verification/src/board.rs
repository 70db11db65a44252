//! The pasteboard handle: typed reads and writes against the system
//! clipboard, layered on a change-counter watermark that detects whether
//! the clipboard holds anything newer than this handle last observed.

use vstd::prelude::*;

use crate::content::Content;
use crate::content::ContentModel;
use crate::error::Error;
use crate::model::after_clear;
use crate::model::after_set;
use crate::model::lookup;
use crate::model::ClipboardModel;
use crate::model::SlotModel;
use crate::model::SystemClipboard;
use crate::registry::native_id;
use crate::registry::type_of_native;
use crate::types::spec_payload_kind;
use crate::types::PayloadKind;
use crate::types::Type;

verus! {

broadcast use vstd::seq_lib::group_filter_ensures;

/// Whether a read that asks for newer content only is skipped: the
/// clipboard's counter still equals the handle's watermark, so nothing has
/// changed since the handle last looked.
pub open spec fn skip_read(watermark: u64, current: u64, only_if_newer: bool) -> bool {
    only_if_newer && current == watermark
}

/// What a read of `ty` yields from clipboard state `m`, once the staleness
/// check has passed: `Other` is rejected outright, a recognized type
/// resolves to its identifier and fetches the payload stored there, and a
/// missing or wrongly-shaped payload reports no data.
pub open spec fn spec_read(m: ClipboardModel, ty: Type) -> Result<ContentModel, Error> {
    match spec_payload_kind(ty) {
        None => Err(Error::UnsupportedType),
        Some(PayloadKind::Binary) => match lookup(m.slots, native_id(ty)) {
            Some(ContentModel::Data(bytes)) => Ok(ContentModel::Data(bytes)),
            _ => Err(Error::NoDataForType),
        },
        Some(PayloadKind::Textual) => match lookup(m.slots, native_id(ty)) {
            Some(ContentModel::Text(text)) => Ok(ContentModel::Text(text)),
            _ => Err(Error::NoDataForType),
        },
    }
}

/// The identifier a write resolves to, or the error that rejects it:
/// `Other` is unsupported, and the payload shape must match the declared
/// type.
pub open spec fn spec_write_plan(c: ContentModel, ty: Type) -> Result<Seq<char>, Error> {
    match spec_payload_kind(ty) {
        None => Err(Error::UnsupportedType),
        Some(kind) => if kind != c.kind() {
            Err(Error::TypeContentMismatch)
        } else {
            Ok(native_id(ty))
        },
    }
}

/// The clipboard state a successful write leaves behind: everything
/// cleared, then the payload stored under the type's identifier.
pub open spec fn after_write(m: ClipboardModel, c: ContentModel, ty: Type) -> ClipboardModel {
    after_set(after_clear(m), native_id(ty), c)
}

/// The character sequences of a list of identifier strings.
pub open spec fn string_views(ids: Seq<String>) -> Seq<Seq<char>> {
    Seq::new(ids.len(), |i: int| ids[i]@)
}

/// The identifiers a clipboard state holds, in enumeration order.
pub open spec fn slot_ids(slots: Seq<SlotModel>) -> Seq<Seq<char>> {
    Seq::new(slots.len(), |i: int| slots[i].id)
}

/// The enumeration a list of native identifiers yields: each one is
/// classified in order, and unrecognized ones are dropped rather than
/// surfaced.
pub open spec fn spec_types(ids: Seq<Seq<char>>) -> Seq<Type>
    decreases ids.len(),
{
    if ids.len() == 0 {
        Seq::empty()
    } else {
        let rest = spec_types(ids.subrange(1, ids.len() as int));
        let ty = type_of_native(ids[0]);
        if ty == Type::Other {
            rest
        } else {
            seq![ty] + rest
        }
    }
}

/// Classify a list of native identifiers, dropping the unrecognized ones:
/// exactly the enumeration a clipboard holding these identifiers yields.
pub fn classify_native_types(ids: &Vec<String>) -> (r: Vec<Type>)
    ensures
        r@ == spec_types(string_views(ids@)),
{
    let ghost cids: Seq<Seq<char>> = string_views(ids@);
    let n = ids.len();
    let mut out: Vec<Type> = Vec::new();
    let mut i: usize = 0;
    proof {
        assert(cids.subrange(0, n as int) =~= cids);
    }
    while i < n
        invariant
            i <= n,
            n == ids@.len(),
            cids == string_views(ids@),
            out@ + spec_types(cids.subrange(i as int, n as int)) == spec_types(cids),
        decreases n - i,
    {
        let ty = Type::from_native(ids[i].as_str());
        proof {
            let suffix = cids.subrange(i as int, n as int);
            assert(suffix[0] == cids[i as int]);
            assert(suffix.subrange(1, suffix.len() as int) =~= cids.subrange(
                i as int + 1,
                n as int,
            ));
        }
        let ghost prev: Seq<Type> = out@;
        match ty {
            Type::Other => {},
            _ => {
                out.push(ty);
                proof {
                    let rest = spec_types(cids.subrange(i as int + 1, n as int));
                    assert(out@ + rest =~= prev + (seq![ty] + rest));
                }
            },
        }
        i = i + 1;
    }
    proof {
        assert(cids.subrange(n as int, n as int) =~= Seq::<Seq<char>>::empty());
        assert(out@ + Seq::<Type>::empty() =~= out@);
    }
    out
}

/// Relates an executable read result to its model-level value.
pub open spec fn result_models(r: Result<Content, Error>, s: Result<ContentModel, Error>) -> bool {
    match (r, s) {
        (Ok(c), Ok(m)) => c@ == m,
        (Err(a), Err(b)) => a == b,
        _ => false,
    }
}

/// Map the platform's answer to a set operation onto the write's result.
pub fn write_outcome(accepted: bool) -> (r: Result<(), Error>)
    ensures
        r == if accepted {
            Ok::<(), Error>(())
        } else {
            Err::<(), Error>(Error::WriteRejected)
        },
{
    if accepted {
        Ok(())
    } else {
        Err(Error::WriteRejected)
    }
}

/// A handle on the system clipboard: the process-local state of the
/// clipboard-access protocol, namely the last change-counter value this
/// handle observed.
#[derive(Debug)]
pub struct PasteBoard {
    change_count: u64,
}

impl PasteBoard {
    /// The last change-counter value this handle observed. It starts at
    /// the out-of-band sentinel `0` and never exceeds the counter the
    /// clipboard last reported to this handle.
    pub closed spec fn watermark(self) -> u64 {
        self.change_count
    }

    /// A fresh handle. The watermark starts at the sentinel `0`, so the
    /// first newer-only read conservatively treats current content as new.
    pub fn new() -> (r: PasteBoard)
        ensures
            r.watermark() == 0,
    {
        PasteBoard { change_count: 0 }
    }

    /// Observe the clipboard's current counter and decide whether a read
    /// proceeds: a newer-only read is skipped while the counter equals the
    /// watermark; otherwise the watermark advances to the counter, whether
    /// or not the type-specific fetch that follows succeeds.
    pub fn note_change_count(&mut self, current: u64, only_if_newer: bool) -> (proceed: bool)
        ensures
            proceed == !skip_read(old(self).watermark(), current, only_if_newer),
            proceed ==> final(self).watermark() == current,
            !proceed ==> *final(self) == *old(self),
    {
        if only_if_newer && current == self.change_count {
            false
        } else {
            self.change_count = current;
            true
        }
    }

    /// Read the payload of `ty` from the clipboard.
    ///
    /// With `only_if_newer` set, the read is skipped as `NoNewerContent`
    /// while the clipboard still has the counter this handle last saw.
    /// Otherwise the watermark advances to the current counter even when
    /// the fetch itself finds nothing, and the result is exactly what
    /// [`spec_read`] says: the stored payload for a recognized type,
    /// `UnsupportedType` for `Other`, `NoDataForType` when nothing of that
    /// shape is stored under the type's identifier.
    pub fn get_contents(&mut self, board: &SystemClipboard, ty: Type, only_if_newer: bool) -> (r:
        Result<Content, Error>)
        ensures
            skip_read(old(self).watermark(), board@.count, only_if_newer) ==> (r == Err::<
                Content,
                Error,
            >(Error::NoNewerContent) && *final(self) == *old(self)),
            !skip_read(old(self).watermark(), board@.count, only_if_newer) ==> (final(self).watermark()
                == board@.count && result_models(r, spec_read(board@, ty))),
    {
        let current = board.change_count();
        if !self.note_change_count(current, only_if_newer) {
            return Err(Error::NoNewerContent);
        }
        match ty.payload_kind() {
            None => Err(Error::UnsupportedType),
            Some(PayloadKind::Binary) => {
                let id = ty.to_native().unwrap();
                match board.data_for_type(id) {
                    Some(bytes) => Ok(Content::Data(bytes)),
                    None => Err(Error::NoDataForType),
                }
            },
            Some(PayloadKind::Textual) => {
                let id = ty.to_native().unwrap();
                match board.string_for_type(id) {
                    Some(text) => Ok(Content::Text(text)),
                    None => Err(Error::NoDataForType),
                }
            },
        }
    }

    /// Write a payload to the clipboard as `ty`.
    ///
    /// A write owns the whole clipboard: on success everything previously
    /// stored is cleared, the counter advances, and the payload stands
    /// alone under the type's identifier. `Other` is rejected as
    /// unsupported and a payload whose shape does not match the type as a
    /// mismatch, both before the clipboard is touched. The watermark is
    /// not advanced, so the handle's next newer-only read sees this write.
    pub fn write_contents(&self, board: &mut SystemClipboard, content: Content, ty: Type) -> (r:
        Result<(), Error>)
        requires
            old(board)@.count < u64::MAX,
        ensures
            match spec_write_plan(content@, ty) {
                Err(e) => r == Err::<(), Error>(e) && *final(board) == *old(board),
                Ok(id) => r == Ok::<(), Error>(()) && final(board)@ == after_write(
                    old(board)@,
                    content@,
                    ty,
                ),
            },
    {
        let kind = match ty.payload_kind() {
            None => { return Err(Error::UnsupportedType) },
            Some(kind) => kind,
        };
        let id = ty.to_native().unwrap();
        match content {
            Content::Data(bytes) => {
                match kind {
                    PayloadKind::Textual => Err(Error::TypeContentMismatch),
                    PayloadKind::Binary => {
                        board.clear_contents();
                        write_outcome(board.set_data(id, bytes))
                    },
                }
            },
            Content::Text(text) => {
                match kind {
                    PayloadKind::Binary => Err(Error::TypeContentMismatch),
                    PayloadKind::Textual => {
                        board.clear_contents();
                        write_outcome(board.set_string(id, text))
                    },
                }
            },
        }
    }

    /// Enumerate the recognized types currently on the clipboard, in the
    /// platform's order: every identifier present is classified and the
    /// unrecognized ones are silently dropped, so `Other` never appears.
    pub fn types(&self, board: &SystemClipboard) -> (r: Result<Vec<Type>, Error>)
        ensures
            r matches Ok(v) && v@ == spec_types(slot_ids(board@.slots)),
    {
        let ids: Vec<String> = board.native_types();
        proof {
            assert(string_views(ids@) =~= slot_ids(board@.slots));
        }
        Ok(classify_native_types(&ids))
    }
}

} // verus!
