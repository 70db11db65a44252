//! A model of the OS clipboard service: the single system-wide store the
//! platform exposes, reduced to the boundary operations the platform
//! documents — a monotonically non-decreasing change counter, type-tagged
//! get and set, clearing, and enumeration of the identifiers present.
//!
//! Every handle operation is verified against this model; the thin platform
//! bridge outside the library performs the same boundary operations against
//! the real service.

use vstd::prelude::*;

use crate::content::Content;
use crate::content::ContentModel;
use crate::registry::str_eq;

verus! {

/// One representation currently on the clipboard: a native type identifier
/// and the payload stored under it.
#[derive(Debug)]
pub struct Slot {
    pub id: String,
    pub payload: Content,
}

/// The mathematical value of a slot.
pub struct SlotModel {
    pub id: Seq<char>,
    pub payload: ContentModel,
}

impl View for Slot {
    type V = SlotModel;

    open spec fn view(&self) -> SlotModel {
        SlotModel { id: self.id@, payload: self.payload@ }
    }
}

/// The mathematical value of the clipboard store: its change counter and
/// the representations present, in the platform's enumeration order.
#[verifier::ext_equal]
pub struct ClipboardModel {
    pub count: u64,
    pub slots: Seq<SlotModel>,
}

/// The store after its contents are cleared: everything is dropped and the
/// change counter advances.
pub open spec fn after_clear(m: ClipboardModel) -> ClipboardModel
    recommends
        m.count < u64::MAX,
{
    ClipboardModel { count: (m.count + 1) as u64, slots: Seq::empty() }
}

/// The store after a payload is set under an identifier: the new
/// representation is appended and the change counter stays put.
pub open spec fn after_set(m: ClipboardModel, id: Seq<char>, payload: ContentModel) -> ClipboardModel {
    ClipboardModel { count: m.count, slots: m.slots.push(SlotModel { id, payload }) }
}

/// The payload stored under an identifier: the first slot whose identifier
/// matches, if any.
pub open spec fn lookup(slots: Seq<SlotModel>, id: Seq<char>) -> Option<ContentModel>
    decreases slots.len(),
{
    if slots.len() == 0 {
        None
    } else if slots[0].id == id {
        Some(slots[0].payload)
    } else {
        lookup(slots.subrange(1, slots.len() as int), id)
    }
}

/// The system clipboard store. The real store pre-exists at the OS level
/// and is shared by every process; this value stands for it in verified
/// code, holding exactly the state the boundary operations touch.
#[derive(Debug)]
pub struct SystemClipboard {
    count: u64,
    slots: Vec<Slot>,
}

impl View for SystemClipboard {
    type V = ClipboardModel;

    closed spec fn view(&self) -> ClipboardModel {
        ClipboardModel { count: self.count, slots: self.slots@.map_values(|s: Slot| s@) }
    }
}

impl SystemClipboard {
    /// A store with nothing on it and the counter at its starting value.
    pub fn new() -> (r: Self)
        ensures
            r@.count == 0,
            r@.slots == Seq::<SlotModel>::empty(),
    {
        let r = SystemClipboard { count: 0, slots: Vec::new() };
        proof {
            assert(r@.slots =~= Seq::<SlotModel>::empty());
        }
        r
    }

    /// The platform's current change counter.
    pub fn change_count(&self) -> (r: u64)
        ensures
            r == self@.count,
    {
        self.count
    }

    /// Drop every representation and advance the change counter; the new
    /// counter value is returned.
    pub fn clear_contents(&mut self) -> (r: u64)
        requires
            old(self)@.count < u64::MAX,
        ensures
            final(self)@ == after_clear(old(self)@),
            r == final(self)@.count,
    {
        self.count = self.count + 1;
        self.slots = Vec::new();
        proof {
            assert(self@ =~= after_clear(old(self)@));
        }
        self.count
    }

    /// Store a binary payload under an identifier. The platform may refuse
    /// a write; this store never does, so the result is always `true`.
    pub fn set_data(&mut self, id: &str, data: Vec<u8>) -> (r: bool)
        ensures
            r,
            final(self)@ == after_set(old(self)@, id@, ContentModel::Data(data@)),
    {
        let ghost bytes: Seq<u8> = data@;
        self.slots.push(Slot { id: id.to_owned(), payload: Content::Data(data) });
        proof {
            assert(self@.slots =~= old(self)@.slots.push(
                (SlotModel { id: id@, payload: ContentModel::Data(bytes) }),
            ));
            assert(self@ =~= after_set(old(self)@, id@, ContentModel::Data(bytes)));
        }
        true
    }

    /// Store a textual payload under an identifier; always accepted here.
    pub fn set_string(&mut self, id: &str, text: String) -> (r: bool)
        ensures
            r,
            final(self)@ == after_set(old(self)@, id@, ContentModel::Text(text@)),
    {
        let ghost chars: Seq<char> = text@;
        self.slots.push(Slot { id: id.to_owned(), payload: Content::Text(text) });
        proof {
            assert(self@.slots =~= old(self)@.slots.push(
                (SlotModel { id: id@, payload: ContentModel::Text(chars) }),
            ));
            assert(self@ =~= after_set(old(self)@, id@, ContentModel::Text(chars)));
        }
        true
    }

    /// The index of the first slot stored under an identifier, if any.
    fn find_slot(&self, id: &str) -> (r: Option<usize>)
        ensures
            match r {
                Some(i) => {
                    &&& i < self.slots@.len()
                    &&& self@.slots[i as int].id == id@
                    &&& lookup(self@.slots, id@) == Some(self@.slots[i as int].payload)
                },
                None => lookup(self@.slots, id@) is None,
            },
    {
        let n = self.slots.len();
        let mut i: usize = 0;
        proof {
            assert(self@.slots.subrange(0, n as int) =~= self@.slots);
        }
        while i < n
            invariant
                i <= n,
                n == self.slots@.len(),
                lookup(self@.slots, id@) == lookup(
                    self@.slots.subrange(i as int, n as int),
                    id@,
                ),
            decreases n - i,
        {
            if str_eq(self.slots[i].id.as_str(), id) {
                return Some(i);
            }
            proof {
                assert(self@.slots.subrange(i as int, n as int).subrange(
                    1,
                    (n - i) as int,
                ) =~= self@.slots.subrange(i as int + 1, n as int));
            }
            i = i + 1;
        }
        None
    }

    /// The bytes stored under an identifier, when what is stored there is a
    /// binary payload; `None` when nothing is, or a textual payload is.
    pub fn data_for_type(&self, id: &str) -> (r: Option<Vec<u8>>)
        ensures
            match lookup(self@.slots, id@) {
                Some(ContentModel::Data(bytes)) => r is Some && r.unwrap()@ == bytes,
                _ => r is None,
            },
    {
        match self.find_slot(id) {
            Some(i) => match &self.slots[i].payload {
                Content::Data(bytes) => Some(bytes.clone()),
                Content::Text(_) => None,
            },
            None => None,
        }
    }

    /// The text stored under an identifier, when what is stored there is a
    /// textual payload; `None` when nothing is, or a binary payload is.
    pub fn string_for_type(&self, id: &str) -> (r: Option<String>)
        ensures
            match lookup(self@.slots, id@) {
                Some(ContentModel::Text(text)) => r is Some && r.unwrap()@ == text,
                _ => r is None,
            },
    {
        match self.find_slot(id) {
            Some(i) => match &self.slots[i].payload {
                Content::Text(text) => Some(text.clone()),
                Content::Data(_) => None,
            },
            None => None,
        }
    }

    /// The native identifiers currently present, in enumeration order.
    pub fn native_types(&self) -> (r: Vec<String>)
        ensures
            r@.len() == self@.slots.len(),
            forall|i: int| 0 <= i < r@.len() ==> r@[i]@ == self@.slots[i].id,
    {
        let n = self.slots.len();
        let mut out: Vec<String> = Vec::new();
        let mut i: usize = 0;
        while i < n
            invariant
                i <= n,
                n == self.slots@.len(),
                out@.len() == i,
                forall|j: int| 0 <= j < i ==> out@[j]@ == self@.slots[j].id,
            decreases n - i,
        {
            out.push(self.slots[i].id.clone());
            i = i + 1;
        }
        out
    }
}

} // verus!
