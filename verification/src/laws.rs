//! What holds of the cache in every state and under every interleaving of
//! its callers.

use crate::address::SocketAddress;
use crate::model::CacheView;
use crate::model::LookupView;
use crate::model::Transition;
use crate::record::MacControlView;
use crate::store::BindingView;
use crate::store::StoreModel;
use crate::store::WriteRequestView;
use vstd::prelude::*;

verus! {

/// Every change keeps the cache well formed.
pub proof fn lemma_step_wf(cache: CacheView, t: Transition)
    requires
        cache.wf(),
    ensures
        cache.step(t).wf(),
{
    match t {
        Transition::FinishGet { mac_id, row } => {
            if let Some(r) = row {
                cache.lemma_with_record_wf(mac_id, MacControlView::loaded(r));
            }
        },
        Transition::FinishGetOr { mac_id, row } => {
            if let Some(r) = row {
                cache.lemma_with_record_wf(mac_id, MacControlView::loaded(r));
            } else {
                cache.lemma_with_record_wf(mac_id, MacControlView::blank());
            }
        },
        Transition::UpdatePk { mac_id, allowed_id, slot, addr } => {
            if cache.holds(slot) {
                cache.lemma_with_slot_wf(
                    slot,
                    cache.records[slot as int].registered(allowed_id, addr),
                );
            }
        },
        Transition::FinishUpdatePk { slot, request, stored } => {
            if let WriteRequestView::InsertBinding { mac_id, .. } = request {
                if cache.holds(slot) {
                    cache.lemma_with_slot_wf(slot, cache.records[slot as int].backed_by(mac_id));
                }
            }
        },
    }
}

/// Every sequence of changes keeps the cache well formed.
pub proof fn lemma_run_wf(cache: CacheView, ts: Seq<Transition>)
    requires
        cache.wf(),
    ensures
        cache.run(ts).wf(),
    decreases ts.len(),
{
    if ts.len() > 0 {
        lemma_step_wf(cache, ts.first());
        lemma_run_wf(cache.step(ts.first()), ts.drop_first());
    }
}

/// Nothing is ever removed: whatever the callers do, a device that is in
/// memory stays in memory.
pub proof fn lemma_device_stays_in_memory(
    cache: CacheView,
    ts: Seq<Transition>,
    mac_id: Seq<char>,
)
    requires
        cache.is_in_memory(mac_id),
    ensures
        cache.run(ts).is_in_memory(mac_id),
    decreases ts.len(),
{
    if ts.len() > 0 {
        lemma_device_stays_in_memory(cache.step(ts.first()), ts.drop_first(), mac_id);
    }
}

/// Whatever the callers do, a handle keeps naming a record.
pub proof fn lemma_handle_stays_good(cache: CacheView, ts: Seq<Transition>, slot: nat)
    requires
        cache.holds(slot),
    ensures
        cache.run(ts).holds(slot),
    decreases ts.len(),
{
    if ts.len() > 0 {
        lemma_handle_stays_good(cache.step(ts.first()), ts.drop_first(), slot);
    }
}

/// A new cache has no device in memory.
pub proof fn lemma_empty_knows_nothing(mac_id: Seq<char>)
    ensures
        CacheView::empty().wf(),
        !CacheView::empty().is_in_memory(mac_id),
{
}

/// A device comes into memory only through a lookup of that device: while
/// none is finished for it, a device that is not in memory stays out.
pub proof fn lemma_untouched_stays_out(cache: CacheView, ts: Seq<Transition>, mac_id: Seq<char>)
    requires
        !cache.is_in_memory(mac_id),
        forall|i: int| 0 <= i < ts.len() ==> !(#[trigger] ts[i]).looks_up(mac_id),
    ensures
        !cache.run(ts).is_in_memory(mac_id),
    decreases ts.len(),
{
    if ts.len() > 0 {
        assert(!ts[0].looks_up(mac_id));
        assert forall|i: int| 0 <= i < ts.drop_first().len() implies !(
        #[trigger] ts.drop_first()[i]).looks_up(mac_id) by {
            assert(ts.drop_first()[i] == ts[i + 1]);
        }
        lemma_untouched_stays_out(cache.step(ts.first()), ts.drop_first(), mac_id);
    }
}

/// A lookup that brought a row, and a lookup that creates what it does not
/// find, leave the device in memory under the handle they return, and that
/// handle names a record. Both halves of a registration leave in memory
/// exactly the devices that were there, each under the handle it had.
pub proof fn lemma_access_brings_into_memory(
    cache: CacheView,
    mac_id: Seq<char>,
    row: Option<BindingView>,
    allowed_id: Seq<char>,
    slot: nat,
    addr: SocketAddress,
    request: WriteRequestView,
    stored: bool,
)
    requires
        cache.wf(),
    ensures
        row is Some ==> {
            let (after, found) = cache.finish_get(mac_id, row);
            after.get_in_memory(mac_id) == found && after.holds(found->0)
        },
        ({
            let (after, handle) = cache.finish_get_or(mac_id, row);
            after.get_in_memory(mac_id) == Some(handle) && after.holds(handle)
        }),
        cache.update_pk(mac_id, allowed_id, slot, addr).0.index == cache.index,
        cache.finish_update_pk(slot, request, stored).index == cache.index,
{
}

/// Once a device is in memory the store is never asked for it again:
/// whatever the callers do afterwards, a lookup of it is answered from
/// memory.
pub proof fn lemma_known_device_is_not_fetched(
    cache: CacheView,
    ts: Seq<Transition>,
    mac_id: Seq<char>,
)
    requires
        cache.is_in_memory(mac_id),
    ensures
        cache.run(ts).get(mac_id) is Cached,
{
    lemma_device_stays_in_memory(cache, ts, mac_id);
}

/// A device costs the store one lookup that finds its row: after it,
/// whatever the callers do, every lookup of the device is answered from
/// memory.
pub proof fn lemma_one_hit_per_device(
    cache: CacheView,
    mac_id: Seq<char>,
    row: BindingView,
    ts: Seq<Transition>,
)
    ensures
        cache.finish_get(mac_id, Some(row)).0.run(ts).get(mac_id) is Cached,
{
    lemma_known_device_is_not_fetched(cache.finish_get(mac_id, Some(row)).0, ts, mac_id);
}

/// While no row is loaded for a device, the device keeps the record it has:
/// what other callers do to other devices, and registrations, do not give it
/// another.
pub proof fn lemma_handle_is_stable(cache: CacheView, ts: Seq<Transition>, mac_id: Seq<char>)
    requires
        cache.is_in_memory(mac_id),
        forall|i: int| 0 <= i < ts.len() ==> !(#[trigger] ts[i]).loads(mac_id),
    ensures
        cache.run(ts).get_in_memory(mac_id) == cache.get_in_memory(mac_id),
    decreases ts.len(),
{
    if ts.len() > 0 {
        assert(!ts[0].loads(mac_id));
        assert forall|i: int| 0 <= i < ts.drop_first().len() implies !(
        #[trigger] ts.drop_first()[i]).loads(mac_id) by {
            assert(ts.drop_first()[i] == ts[i + 1]);
        }
        lemma_handle_is_stable(cache.step(ts.first()), ts.drop_first(), mac_id);
    }
}

/// A record changes only through registrations through its handle: lookups,
/// and registrations through other handles, leave it as it is.
pub proof fn lemma_record_is_stable(cache: CacheView, ts: Seq<Transition>, slot: nat)
    requires
        cache.holds(slot),
        forall|i: int| 0 <= i < ts.len() ==> !(#[trigger] ts[i]).registers_through(slot),
    ensures
        cache.run(ts).holds(slot),
        cache.run(ts).records[slot as int] == cache.records[slot as int],
    decreases ts.len(),
{
    if ts.len() > 0 {
        assert(!ts[0].registers_through(slot));
        assert forall|i: int| 0 <= i < ts.drop_first().len() implies !(
        #[trigger] ts.drop_first()[i]).registers_through(slot) by {
            assert(ts.drop_first()[i] == ts[i + 1]);
        }
        lemma_record_is_stable(cache.step(ts.first()), ts.drop_first(), slot);
    }
}

/// The device of a record is set once: whatever the callers do, a record
/// that is not blank keeps its device.
pub proof fn lemma_device_of_a_record_is_fixed(cache: CacheView, ts: Seq<Transition>, slot: nat)
    requires
        cache.holds(slot),
        !cache.records[slot as int].is_blank(),
    ensures
        cache.run(ts).holds(slot),
        cache.run(ts).records[slot as int].mac_id == cache.records[slot as int].mac_id,
    decreases ts.len(),
{
    if ts.len() > 0 {
        lemma_device_of_a_record_is_fixed(cache.step(ts.first()), ts.drop_first(), slot);
    }
}

/// Callers that race to create the record of a device the store does not
/// know all get one and the same record. The first to finish makes it;
/// whoever finishes later, after whatever the others did meanwhile, finds
/// that record, is handed it, and leaves the cache as it was.
pub proof fn lemma_racing_creations_share_one_record(
    cache: CacheView,
    ts: Seq<Transition>,
    mac_id: Seq<char>,
)
    requires
        forall|i: int| 0 <= i < ts.len() ==> !(#[trigger] ts[i]).loads(mac_id),
    ensures
        ({
            let (first, winner) = cache.finish_get_or(mac_id, None);
            let later = first.run(ts);
            later.finish_get_or(mac_id, None) == (later, winner)
        }),
{
    let (first, winner) = cache.finish_get_or(mac_id, None);
    assert(first.get_in_memory(mac_id) == Some(winner));
    lemma_handle_is_stable(first, ts, mac_id);
}

/// After a registration that the store carried out, a lookup of the device
/// finds a record with the registered peer.
///
/// The record registered through must be the one the device has in memory,
/// unless that one shows the same peer already. For a device that is not in
/// memory the lookup goes to the store, and the row is there with the peer
/// if the registration inserted it, or updated a row that existed.
pub proof fn lemma_registered_peer_is_read_back(
    cache: CacheView,
    store: StoreModel,
    mac_id: Seq<char>,
    allowed_id: Seq<char>,
    slot: nat,
    addr: SocketAddress,
)
    requires
        cache.wf(),
        cache.holds(slot),
        cache.is_in_memory(mac_id) ==> cache.index[mac_id] == slot
            || cache.records[cache.index[mac_id] as int].allowed_id == allowed_id,
        !cache.is_in_memory(mac_id) ==> cache.records[slot as int].is_blank()
            || store.rows.contains_key(mac_id),
    ensures
        ({
            let (registered, stored, _) = cache.register_through(
                store,
                mac_id,
                allowed_id,
                slot,
                addr,
            );
            let (after, found) = registered.get_through(stored, mac_id);
            &&& found is Some
            &&& after.holds(found->0)
            &&& after.records[found->0 as int].allowed_id == allowed_id
        }),
{
}

/// A lookup by device and peer finds a record exactly if the store has the
/// row with both, whatever the cache holds for the device. The record found
/// carries that pair and becomes the device's record; if nothing is found
/// the cache is unchanged.
pub proof fn lemma_pairing_is_confirmed_by_the_store(
    cache: CacheView,
    store: StoreModel,
    mac_id: Seq<char>,
    allowed_id: Seq<char>,
)
    requires
        cache.wf(),
    ensures
        ({
            let row = store.find_by_mac_and_allowed_id(mac_id, allowed_id);
            let (after, found) = cache.finish_get(mac_id, row);
            &&& found is Some <==> store.rows.contains_key(mac_id) && store.rows[mac_id]
                == allowed_id
            &&& found is Some ==> {
                &&& after.get_in_memory(mac_id) == found
                &&& after.records[found->0 as int] == MacControlView::loaded(
                    BindingView { mac_id, allowed_id },
                )
            }
            &&& found is None ==> after == cache
        }),
{
}

/// The first registration through a blank record asks for an insert. Once
/// the store has carried that out, every registration through the record
/// asks for an update, and the record shows the peer registered last.
pub proof fn lemma_second_registration_updates(
    cache: CacheView,
    store: StoreModel,
    mac_id: Seq<char>,
    first_peer: Seq<char>,
    second_peer: Seq<char>,
    slot: nat,
    first_addr: SocketAddress,
    second_addr: SocketAddress,
)
    requires
        cache.holds(slot),
        cache.records[slot as int].is_blank(),
        mac_id.len() > 0,
    ensures
        ({
            let (once, stored, first) = cache.register_through(
                store,
                mac_id,
                first_peer,
                slot,
                first_addr,
            );
            let (twice, _, second) = once.register_through(
                stored,
                mac_id,
                second_peer,
                slot,
                second_addr,
            );
            &&& first == (WriteRequestView::InsertBinding { mac_id, allowed_id: first_peer })
            &&& second == (WriteRequestView::UpdateBinding { mac_id, allowed_id: second_peer })
            &&& stored.rows.contains_key(mac_id)
            &&& twice.records[slot as int] == (MacControlView {
                socket_addr: second_addr,
                mac_id,
                allowed_id: second_peer,
            })
        }),
{
}

/// When the store fails, nothing is taken back: the record shows the peer
/// and the address of the failed registration, while the store holds what
/// it held. A blank record stays blank, so that the registration, when it
/// is repeated, asks for the insert again.
pub proof fn lemma_failure_is_not_rolled_back(
    cache: CacheView,
    mac_id: Seq<char>,
    allowed_id: Seq<char>,
    slot: nat,
    addr: SocketAddress,
)
    requires
        cache.holds(slot),
    ensures
        ({
            let (written, request) = cache.update_pk(mac_id, allowed_id, slot, addr);
            let failed = written.finish_update_pk(slot, request, false);
            &&& failed == written
            &&& failed.records[slot as int].allowed_id == allowed_id
            &&& failed.records[slot as int].socket_addr == addr
            &&& failed.records[slot as int].mac_id == cache.records[slot as int].mac_id
            &&& failed.update_pk(mac_id, allowed_id, slot, addr) == (failed, request)
        }),
{
    let (written, request) = cache.update_pk(mac_id, allowed_id, slot, addr);
    assert(written.update_pk(mac_id, allowed_id, slot, addr).0.records =~= written.records);
}

} // verus!
