//! The cache as a mathematical value, and what each operation makes of it.
//!
//! An operation that needs the store is cut in two at the round trip: the
//! first half looks at the cache and names the request, the second half takes
//! the store's answer. Concurrent callers are then nothing but halves of
//! different operations following one another in some order, and what holds
//! after every single half holds under every interleaving.

use crate::address::SocketAddress;
use crate::record::MacControlView;
use crate::store::BindingView;
use crate::store::StoreModel;
use crate::store::ReadRequestView;
use crate::store::WriteRequestView;
use vstd::prelude::*;

verus! {

/// The cache: an arena of records that only grows, and for each device in
/// memory the slot of its record. A handle is a slot of the arena.
pub struct CacheView {
    pub index: Map<Seq<char>, nat>,
    pub records: Seq<MacControlView>,
}

/// How a lookup stands after the cache was consulted.
pub enum LookupView {
    /// The device is in memory, in this slot.
    Cached { slot: nat },
    /// The device is not in memory: the store has to be asked.
    Ask { request: ReadRequestView },
}

/// One change of the cache: a half of an operation that writes.
pub enum Transition {
    FinishGet { mac_id: Seq<char>, row: Option<BindingView> },
    FinishGetOr { mac_id: Seq<char>, row: Option<BindingView> },
    UpdatePk { mac_id: Seq<char>, allowed_id: Seq<char>, slot: nat, addr: SocketAddress },
    FinishUpdatePk { slot: nat, request: WriteRequestView, stored: bool },
}

impl Transition {
    /// The change puts a record made from a row under `mac_id`.
    pub open spec fn loads(self, mac_id: Seq<char>) -> bool {
        match self {
            Transition::FinishGet { mac_id: m, row } => m == mac_id && row is Some,
            Transition::FinishGetOr { mac_id: m, row } => m == mac_id && row is Some,
            _ => false,
        }
    }

    /// The change is the second half of a lookup of `mac_id`.
    pub open spec fn looks_up(self, mac_id: Seq<char>) -> bool {
        match self {
            Transition::FinishGet { mac_id: m, .. } => m == mac_id,
            Transition::FinishGetOr { mac_id: m, .. } => m == mac_id,
            _ => false,
        }
    }

    /// The change is a half of a registration through the handle `slot`.
    pub open spec fn registers_through(self, slot: nat) -> bool {
        match self {
            Transition::UpdatePk { slot: s, .. } => s == slot,
            Transition::FinishUpdatePk { slot: s, .. } => s == slot,
            _ => false,
        }
    }
}

impl CacheView {
    /// The cache that holds nothing.
    pub open spec fn empty() -> CacheView {
        CacheView { index: Map::empty(), records: Seq::empty() }
    }

    /// Every device in memory names a slot of the arena, and no two devices
    /// share a record.
    pub open spec fn wf(self) -> bool {
        &&& forall|m: Seq<char>| #[trigger]
            self.index.contains_key(m) ==> self.index[m] < self.records.len()
        &&& forall|m1: Seq<char>, m2: Seq<char>|
            #![trigger self.index[m1], self.index[m2]]
            self.index.contains_key(m1) && self.index.contains_key(m2) && m1 != m2
                ==> self.index[m1] != self.index[m2]
    }

    /// `slot` is a slot of the arena.
    pub open spec fn holds(self, slot: nat) -> bool {
        slot < self.records.len()
    }

    /// The device is in memory.
    pub open spec fn is_in_memory(self, mac_id: Seq<char>) -> bool {
        self.index.contains_key(mac_id)
    }

    /// The slot of the device's record, if the device is in memory.
    pub open spec fn get_in_memory(self, mac_id: Seq<char>) -> Option<nat> {
        if self.index.contains_key(mac_id) {
            Some(self.index[mac_id])
        } else {
            None
        }
    }

    /// The cache after `record` was put into a new slot under `mac_id`. A
    /// record that the device named before stays in the arena, where the
    /// handles to it still find it.
    pub open spec fn with_record(self, mac_id: Seq<char>, record: MacControlView) -> CacheView {
        CacheView {
            index: self.index.insert(mac_id, self.records.len()),
            records: self.records.push(record),
        }
    }

    /// The cache after the record in `slot` was overwritten with `record`.
    pub open spec fn with_slot(self, slot: nat, record: MacControlView) -> CacheView {
        CacheView { index: self.index, records: self.records.update(slot as int, record) }
    }

    /// First half of a lookup: a device in memory is answered from memory,
    /// for any other the store is asked for its row.
    pub open spec fn get(self, mac_id: Seq<char>) -> LookupView {
        if self.index.contains_key(mac_id) {
            LookupView::Cached { slot: self.index[mac_id] }
        } else {
            LookupView::Ask { request: ReadRequestView::FindByMacId { mac_id } }
        }
    }

    /// Second half of a lookup. A row becomes a new record under `mac_id`,
    /// whatever the cache held for the device; without a row nothing changes
    /// and nothing is found.
    pub open spec fn finish_get(self, mac_id: Seq<char>, row: Option<BindingView>) -> (
        CacheView,
        Option<nat>,
    ) {
        match row {
            Some(r) => (
                self.with_record(mac_id, MacControlView::loaded(r)),
                Some(self.records.len()),
            ),
            None => (self, None),
        }
    }

    /// Second half of a lookup that creates what it does not find. A row is
    /// taken as in `finish_get`. Without a row the cache is looked at again:
    /// a record that another caller has put there meanwhile is the answer,
    /// and only if there is still none a blank one is made.
    pub open spec fn finish_get_or(self, mac_id: Seq<char>, row: Option<BindingView>) -> (
        CacheView,
        nat,
    ) {
        match row {
            Some(r) => (self.with_record(mac_id, MacControlView::loaded(r)), self.records.len()),
            None => if self.index.contains_key(mac_id) {
                (self, self.index[mac_id])
            } else {
                (self.with_record(mac_id, MacControlView::blank()), self.records.len())
            },
        }
    }

    /// First half of a registration: the record in `slot` takes the address
    /// and the peer at once, before the store is asked, and the request is
    /// an insert for a blank record and an update for any other.
    pub open spec fn update_pk(
        self,
        mac_id: Seq<char>,
        allowed_id: Seq<char>,
        slot: nat,
        addr: SocketAddress,
    ) -> (CacheView, WriteRequestView) {
        let before = self.records[slot as int];
        (
            self.with_slot(slot, before.registered(allowed_id, addr)),
            if before.is_blank() {
                WriteRequestView::InsertBinding { mac_id, allowed_id }
            } else {
                WriteRequestView::UpdateBinding { mac_id, allowed_id }
            },
        )
    }

    /// Second half of a registration. Once the store has inserted the row, a
    /// record that is still blank takes the device of the row, so that the
    /// next registration through it is an update. Nothing else is changed:
    /// not after an update, and not when the store failed, in which case
    /// the record keeps what the first half wrote and stays blank if it was.
    pub open spec fn finish_update_pk(
        self,
        slot: nat,
        request: WriteRequestView,
        stored: bool,
    ) -> CacheView {
        match request {
            WriteRequestView::InsertBinding { mac_id, .. } => if stored && self.holds(slot)
                && self.records[slot as int].is_blank() {
                self.with_slot(slot, self.records[slot as int].backed_by(mac_id))
            } else {
                self
            },
            WriteRequestView::UpdateBinding { .. } => self,
        }
    }

    /// The cache after one change. A registration through a handle that
    /// names no record cannot be asked for and changes nothing.
    pub open spec fn step(self, t: Transition) -> CacheView {
        match t {
            Transition::FinishGet { mac_id, row } => self.finish_get(mac_id, row).0,
            Transition::FinishGetOr { mac_id, row } => self.finish_get_or(mac_id, row).0,
            Transition::UpdatePk { mac_id, allowed_id, slot, addr } => if self.holds(slot) {
                self.update_pk(mac_id, allowed_id, slot, addr).0
            } else {
                self
            },
            Transition::FinishUpdatePk { slot, request, stored } => self.finish_update_pk(
                slot,
                request,
                stored,
            ),
        }
    }

    /// The cache after the changes `ts`, in their order.
    pub open spec fn run(self, ts: Seq<Transition>) -> CacheView
        decreases ts.len(),
    {
        if ts.len() == 0 {
            self
        } else {
            self.step(ts.first()).run(ts.drop_first())
        }
    }

    /// What a whole lookup of `mac_id` comes to when the store works and
    /// holds `store`: the cache afterwards and the slot found.
    pub open spec fn get_through(self, store: StoreModel, mac_id: Seq<char>) -> (
        CacheView,
        Option<nat>,
    ) {
        match self.get(mac_id) {
            LookupView::Cached { slot } => (self, Some(slot)),
            LookupView::Ask { request } => self.finish_get(mac_id, store.answer(request)),
        }
    }

    /// What a whole registration comes to when the store holds `store` and
    /// carries the request out: the cache and the store afterwards, and the
    /// request that was made.
    pub open spec fn register_through(
        self,
        store: StoreModel,
        mac_id: Seq<char>,
        allowed_id: Seq<char>,
        slot: nat,
        addr: SocketAddress,
    ) -> (CacheView, StoreModel, WriteRequestView) {
        let (written, request) = self.update_pk(mac_id, allowed_id, slot, addr);
        (written.finish_update_pk(slot, request, true), store.after(request), request)
    }

    /// A new record under a device keeps the cache well formed.
    pub proof fn lemma_with_record_wf(self, mac_id: Seq<char>, record: MacControlView)
        requires
            self.wf(),
        ensures
            self.with_record(mac_id, record).wf(),
    {
    }

    /// Overwriting a record keeps the cache well formed.
    pub proof fn lemma_with_slot_wf(self, slot: nat, record: MacControlView)
        requires
            self.wf(),
            self.holds(slot),
        ensures
            self.with_slot(slot, record).wf(),
    {
    }
}

} // verus!
