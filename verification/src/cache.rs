//! The binding cache.

use crate::address::SocketAddress;
use crate::model::CacheView;
use crate::model::LookupView;
use crate::record::MacControl;
use crate::store::row_of;
use crate::store::LookupReply;
use crate::store::ReadRequest;
use crate::store::ReadRequestView;
use crate::store::WriteRequest;
use crate::store::WriteReply;
use vstd::hash_map::StringHashMap;
use vstd::prelude::*;

verus! {

/// Names one record of a cache. Handles are given out by the cache and stay
/// good for as long as the cache lives: a record is never removed.
#[derive(Clone, Copy, Debug, PartialEq, Eq)]
pub struct RecordHandle {
    slot: usize,
}

impl View for RecordHandle {
    type V = nat;

    closed spec fn view(&self) -> nat {
        self.slot as nat
    }
}

/// Two handles that name the same slot are the same handle.
pub proof fn lemma_handles_by_slot(a: RecordHandle, b: RecordHandle)
    requires
        a@ == b@,
    ensures
        a == b,
{
}

/// How a lookup stands after the cache was consulted.
#[derive(Debug, PartialEq, Eq)]
pub enum Lookup {
    /// The device is in memory: this is its record.
    Cached(RecordHandle),
    /// The device is not in memory: make this round trip to the store and
    /// hand the answer to the second half of the operation.
    Ask(ReadRequest),
}

impl View for Lookup {
    type V = LookupView;

    open spec fn view(&self) -> LookupView {
        match self {
            Lookup::Cached(handle) => LookupView::Cached { slot: handle@ },
            Lookup::Ask(request) => LookupView::Ask { request: request@ },
        }
    }
}

/// What a registration reports to the peer that asked for it.
#[allow(non_camel_case_types)]
#[derive(Clone, Copy, Debug, PartialEq, Eq, Structural)]
pub enum RegisterResult {
    OK,
    SERVER_ERROR,
}

/// The cache of bindings: for each device in memory one record.
pub struct MacControlMap {
    index: StringHashMap<usize>,
    records: Vec<MacControl>,
}

impl View for MacControlMap {
    type V = CacheView;

    closed spec fn view(&self) -> CacheView {
        cache_view(self.index@, self.records@)
    }
}

/// The cache that an index and an arena stand for.
spec fn cache_view(index: Map<Seq<char>, usize>, records: Seq<MacControl>) -> CacheView {
    CacheView {
        index: Map::new(|m: Seq<char>| index.contains_key(m), |m: Seq<char>| index[m] as nat),
        records: Seq::new(records.len(), |i: int| records[i]@),
    }
}

impl MacControlMap {
    #[verifier::type_invariant]
    spec fn inv(&self) -> bool {
        self@.wf()
    }

    /// A cache that holds nothing.
    pub fn new() -> (cache: Self)
        ensures
            cache@ == CacheView::empty(),
            cache@.wf(),
    {
        let cache = MacControlMap { index: StringHashMap::new(), records: Vec::new() };
        assert(cache@.index =~= CacheView::empty().index);
        assert(cache@.records =~= CacheView::empty().records);
        cache
    }

    /// Puts `record` into a new slot and lets `mac_id` name it.
    fn put(&mut self, mac_id: &String, record: MacControl) -> (handle: RecordHandle)
        ensures
            final(self)@ == old(self)@.with_record(mac_id@, record@),
            handle@ == old(self)@.records.len(),
            final(self)@.wf(),
    {
        proof {
            use_type_invariant(&*self);
        }
        let ghost before = self@;
        let mut index: StringHashMap<usize> = StringHashMap::new();
        std::mem::swap(&mut index, &mut self.index);
        let mut records: Vec<MacControl> = Vec::new();
        std::mem::swap(&mut records, &mut self.records);
        let slot: usize = records.len();
        records.push(record);
        index.insert(mac_id.clone(), slot);
        proof {
            let after = before.with_record(mac_id@, record@);
            let now = cache_view(index@, records@);
            assert(now.index =~= after.index);
            assert(now.records =~= after.records);
            before.lemma_with_record_wf(mac_id@, record@);
        }
        self.records = records;
        self.index = index;
        RecordHandle { slot }
    }

    /// Whether the device is in memory. The store is not asked.
    pub fn is_in_memory(&self, mac_id: &String) -> (known: bool)
        ensures
            known == self@.is_in_memory(mac_id@),
            self@.wf(),
    {
        proof {
            use_type_invariant(self);
        }
        self.index.contains_key(mac_id.as_str())
    }
    /// The record of the device, if the device is in memory. The store is not
    /// asked.
    pub fn get_in_memory(&self, mac_id: &String) -> (found: Option<RecordHandle>)
        ensures
            slot_of(found) == self@.get_in_memory(mac_id@),
            self@.wf(),
    {
        proof {
            use_type_invariant(self);
        }
        match self.index.get(mac_id.as_str()) {
            Some(slot) => Some(RecordHandle { slot: *slot }),
            None => None,
        }
    }

    /// Whether `handle` names a record of this cache.
    pub fn holds(&self, handle: RecordHandle) -> (held: bool)
        ensures
            held == self@.holds(handle@),
            self@.wf(),
    {
        proof {
            use_type_invariant(self);
        }
        handle.slot < self.records.len()
    }

    /// The record that `handle` names, if it names one of this cache.
    pub fn record(&self, handle: RecordHandle) -> (found: Option<&MacControl>)
        ensures
            match found {
                Some(record) => self@.holds(handle@) && record@ == self@.records[handle@ as int],
                None => !self@.holds(handle@),
            },
            self@.wf(),
    {
        proof {
            use_type_invariant(self);
        }
        if handle.slot < self.records.len() {
            Some(&self.records[handle.slot])
        } else {
            None
        }
    }

    /// First half of a lookup: the device's record if the device is in
    /// memory, and else the request for its row. The answer to that request
    /// goes to `finish_get`.
    pub fn get(&self, mac_id: &String) -> (step: Lookup)
        ensures
            step@ == self@.get(mac_id@),
            self@.wf(),
    {
        proof {
            use_type_invariant(self);
        }
        match self.index.get(mac_id.as_str()) {
            Some(slot) => Lookup::Cached(RecordHandle { slot: *slot }),
            None => Lookup::Ask(ReadRequest::FindByMacId { mac_id: mac_id.clone() }),
        }
    }

    /// First half of a lookup that trusts the store alone: memory is not
    /// consulted, and the request is for the row that has both `mac_id` and
    /// `allowed_id`. The answer to that request goes to `finish_get`.
    pub fn get_allowed_id_with_mac_id(
        &self,
        mac_id: &String,
        allowed_id: &String,
    ) -> (request: ReadRequest)
        ensures
            request@ == (ReadRequestView::FindByMacAndAllowedId {
                mac_id: mac_id@,
                allowed_id: allowed_id@,
            }),
    {
        ReadRequest::FindByMacAndAllowedId {
            mac_id: mac_id.clone(),
            allowed_id: allowed_id.clone(),
        }
    }

    /// Second half of a lookup: takes what the store answered. A row becomes
    /// the device's record, in place of any the cache held for it, and its
    /// handle is returned. No row, or a store that failed, leaves the cache
    /// as it was and returns nothing.
    pub fn finish_get(
        &mut self,
        mac_id: &String,
        reply: LookupReply,
    ) -> (found: Option<RecordHandle>)
        ensures
            (final(self)@, slot_of(found)) == old(self)@.finish_get(mac_id@, row_of(reply)),
            old(self)@.wf(),
            final(self)@.wf(),
    {
        proof {
            use_type_invariant(&*self);
        }
        match reply {
            Ok(Some(row)) => Some(self.put(mac_id, MacControl::from_stored(row))),
            _ => None,
        }
    }

    /// First half of a lookup that creates what it does not find. It is the
    /// first half of `get`; the answer of the store goes to `finish_get_or`.
    pub fn get_or(&self, mac_id: &String) -> (step: Lookup)
        ensures
            step@ == self@.get(mac_id@),
            self@.wf(),
    {
        self.get(mac_id)
    }

    /// Second half of a lookup that creates what it does not find. A row
    /// becomes the device's record as in `finish_get`. Without a row the
    /// cache is looked at once more: if another caller has put a record
    /// there since the first half, that record is returned, and only if
    /// there is still none a blank record is made for the device.
    pub fn finish_get_or(&mut self, mac_id: &String, reply: LookupReply) -> (handle: RecordHandle)
        ensures
            (final(self)@, handle@) == old(self)@.finish_get_or(mac_id@, row_of(reply)),
            old(self)@.wf(),
            final(self)@.wf(),
    {
        proof {
            use_type_invariant(&*self);
        }
        match reply {
            Ok(Some(row)) => self.put(mac_id, MacControl::from_stored(row)),
            _ => {
                match self.index.get(mac_id.as_str()) {
                    Some(slot) => RecordHandle { slot: *slot },
                    None => self.put(mac_id, MacControl::default()),
                }
            },
        }
    }

    /// Overwrites the record that `handle` names.
    fn overwrite(&mut self, handle: RecordHandle, record: MacControl)
        requires
            old(self)@.holds(handle@),
        ensures
            final(self)@ == old(self)@.with_slot(handle@, record@),
            final(self)@.wf(),
    {
        proof {
            use_type_invariant(&*self);
        }
        let ghost before = self@;
        let mut index: StringHashMap<usize> = StringHashMap::new();
        std::mem::swap(&mut index, &mut self.index);
        let mut records: Vec<MacControl> = Vec::new();
        std::mem::swap(&mut records, &mut self.records);
        records.set(handle.slot, record);
        proof {
            let after = before.with_slot(handle@, record@);
            let now = cache_view(index@, records@);
            assert(now.index =~= after.index);
            assert(now.records =~= after.records);
            before.lemma_with_slot_wf(handle@, record@);
        }
        self.records = records;
        self.index = index;
    }

    /// First half of a registration. The record that `handle` names takes
    /// `addr` and `allowed_id` at once, before the store is asked. The
    /// request that is returned is an insert of `(mac_id, allowed_id)` if
    /// the record is blank and an update if it is not; what the store
    /// answers to it goes to `finish_update_pk`. The record keeps what was
    /// written here whatever the store answers.
    pub fn update_pk(
        &mut self,
        mac_id: String,
        allowed_id: String,
        handle: RecordHandle,
        addr: SocketAddress,
    ) -> (request: WriteRequest)
        requires
            old(self)@.holds(handle@),
        ensures
            (final(self)@, request@) == old(self)@.update_pk(
                mac_id@,
                allowed_id@,
                handle@,
                addr,
            ),
            old(self)@.wf(),
            final(self)@.wf(),
    {
        proof {
            use_type_invariant(&*self);
        }
        let blank = self.records[handle.slot].is_blank();
        let record = MacControl {
            socket_addr: addr,
            mac_id: self.records[handle.slot].mac_id.clone(),
            allowed_id: allowed_id.clone(),
        };
        self.overwrite(handle, record);
        if blank {
            WriteRequest::InsertBinding { mac_id, allowed_id }
        } else {
            WriteRequest::UpdateBinding { mac_id, allowed_id }
        }
    }

    /// Second half of a registration: takes what the store answered to
    /// `request`, the request that the first half returned for `handle`. The
    /// result is `OK` if the store carried the request out and
    /// `SERVER_ERROR` if it failed. After an insert that the store carried
    /// out, a record that is still blank takes the device of the request;
    /// nothing is taken back after a failure.
    pub fn finish_update_pk(
        &mut self,
        handle: RecordHandle,
        request: &WriteRequest,
        reply: WriteReply,
    ) -> (result: RegisterResult)
        ensures
            result == register_result(reply),
            final(self)@ == old(self)@.finish_update_pk(handle@, request@, reply is Ok),
            old(self)@.wf(),
            final(self)@.wf(),
    {
        proof {
            use_type_invariant(&*self);
        }
        match reply {
            Ok(_) => {
                if let WriteRequest::InsertBinding { mac_id, .. } = request {
                    if handle.slot < self.records.len() && self.records[handle.slot].is_blank() {
                        let record = MacControl {
                            socket_addr: self.records[handle.slot].socket_addr,
                            mac_id: mac_id.clone(),
                            allowed_id: self.records[handle.slot].allowed_id.clone(),
                        };
                        self.overwrite(handle, record);
                    }
                }
                RegisterResult::OK
            },
            Err(_) => RegisterResult::SERVER_ERROR,
        }
    }
}

/// The slot that an optional handle names.
pub open spec fn slot_of(found: Option<RecordHandle>) -> Option<nat> {
    match found {
        Some(handle) => Some(handle@),
        None => None,
    }
}

/// What a registration reports for an answer of the store.
pub open spec fn register_result(reply: WriteReply) -> RegisterResult {
    match reply {
        Ok(_) => RegisterResult::OK,
        Err(_) => RegisterResult::SERVER_ERROR,
    }
}

} // verus!
