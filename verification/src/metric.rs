//! In-process metric of NAR transfers.
//!
//! Write path: `begin`, then `record_bytes`, then `remove` when the transfer ends.
//! Read path: `active`.

use vstd::prelude::*;

use crate::credential::clone_opt_string;
use dashmap::DashMap;

use crate::sort::{is_stable_order, lex_before, stable_order};
use crate::url::Url;

verus! {

/// What is known of a transfer when it begins.
pub struct NarTransferAttrs {
    pub nar_file: String,
    pub store_path: Option<String>,
    pub substituter_url: Url,
    pub source_url: Url,
    pub content_length: Option<u64>,
}

/// One transfer in flight.
#[derive(Debug, Clone, PartialEq, Eq)]
pub struct NarTransferSample {
    pub id: u64,
    pub store_path: Option<String>,
    pub nar_file: String,
    pub substituter: String,
    pub source_url: String,
    pub content_length: Option<u64>,
    pub bytes_transferred: u64,
    pub started_at_unix_ms: u64,
}

/// An optional text, by value.
pub open spec fn opt_text(s: Option<String>) -> Option<Seq<char>> {
    match s {
        Some(v) => Some(v@),
        None => None,
    }
}

/// Two samples show the same transfer.
pub open spec fn same_sample(a: NarTransferSample, b: NarTransferSample) -> bool {
    &&& a.id == b.id
    &&& opt_text(a.store_path) == opt_text(b.store_path)
    &&& a.nar_file@ == b.nar_file@
    &&& a.substituter@ == b.substituter@
    &&& a.source_url@ == b.source_url@
    &&& a.content_length == b.content_length
    &&& a.bytes_transferred == b.bytes_transferred
    &&& a.started_at_unix_ms == b.started_at_unix_ms
}

fn copy_sample(d: &NarTransferSample) -> (r: NarTransferSample)
    ensures
        same_sample(r, *d),
{
    NarTransferSample {
        id: d.id,
        store_path: clone_opt_string(&d.store_path),
        nar_file: d.nar_file.clone(),
        substituter: d.substituter.clone(),
        source_url: d.source_url.clone(),
        content_length: d.content_length,
        bytes_transferred: d.bytes_transferred,
        started_at_unix_ms: d.started_at_unix_ms,
    }
}

/// The map of transfers in flight, keyed by transfer id.
pub type TransferMap = DashMap<u64, NarTransferSample>;

/// The transfers a map holds, each under its id.
pub uninterp spec fn transfer_entries(m: TransferMap) -> Map<u64, NarTransferSample>;

/// Calls `DashMap::new`. Claimed: the new map holds nothing.
#[verifier::external_body]
fn transfers_map_new() -> (r: TransferMap)
    ensures
        transfer_entries(r).dom() == Set::<u64>::empty(),
{
    DashMap::new()
}

/// Calls `DashMap::insert`. Claimed: afterwards `key` holds `value` and every other key
/// what it held before.
#[verifier::external_body]
fn transfers_map_insert(m: &mut TransferMap, key: u64, value: NarTransferSample)
    ensures
        transfer_entries(*final(m)) == transfer_entries(*old(m)).insert(key, value),
{
    m.insert(key, value);
}

/// Calls `DashMap::remove`. Claimed: afterwards `key` holds nothing and every other key
/// what it held before; the value `key` held is returned.
#[verifier::external_body]
fn transfers_map_remove(m: &mut TransferMap, key: u64) -> (r: Option<NarTransferSample>)
    ensures
        transfer_entries(*final(m)) == transfer_entries(*old(m)).remove(key),
        r == if transfer_entries(*old(m)).dom().contains(key) {
            Some(transfer_entries(*old(m))[key])
        } else {
            None::<NarTransferSample>
        },
{
    match m.remove(&key) {
        Some((_, value)) => Some(value),
        None => None,
    }
}

/// Calls `DashMap::len`. Claimed: the number of keys the map holds.
#[verifier::external_body]
fn transfers_map_len(m: &TransferMap) -> (r: usize)
    ensures
        r == transfer_entries(*m).len(),
{
    m.len()
}

/// Calls `DashMap::is_empty`. Claimed: whether the map holds no key.
#[verifier::external_body]
fn transfers_map_is_empty(m: &TransferMap) -> (r: bool)
    ensures
        r == (transfer_entries(*m).dom() == Set::<u64>::empty()),
{
    m.is_empty()
}

/// Calls `DashMap::iter` and copies each entry out. Claimed: every key of the map comes
/// out once, with a copy of its value, in an order the map does not specify.
#[verifier::external_body]
fn transfers_map_entries(m: &TransferMap) -> (r: Vec<(u64, NarTransferSample)>)
    ensures
        r@.len() == transfer_entries(*m).len(),
        forall|i: int|
            0 <= i < r@.len() ==> transfer_entries(*m).dom().contains(#[trigger] r@[i].0)
                && same_sample(r@[i].1, transfer_entries(*m)[r@[i].0]),
        forall|i: int, j: int| 0 <= i < j < r@.len() ==> #[trigger] r@[i].0 != #[trigger] r@[j].0,
{
    m.iter().map(|entry| (*entry.key(), entry.value().clone())).collect()
}

/// Stopping a transfer right after beginning it under a fresh id gives back the transfers
/// recorded before.
pub proof fn law_remove_undoes_begin(entries: Map<u64, NarTransferSample>, id: u64, e: NarTransferSample)
    requires
        !entries.dom().contains(id),
    ensures
        entries.insert(id, e).remove(id) == entries,
{
    assert(entries.insert(id, e).remove(id) =~= entries);
}

/// In-process metric of NAR transfers: the transfers in flight and their progress.
pub struct NarTransferMetric {
    next_id: u64,
    entries: TransferMap,
}

impl NarTransferMetric {
    /// The transfers in flight, by id.
    pub closed spec fn spec_entries(&self) -> Map<u64, NarTransferSample> {
        transfer_entries(self.entries)
    }

    /// The id the next transfer gets.
    pub closed spec fn spec_next_id(&self) -> u64 {
        self.next_id
    }

    /// Finitely many transfers, each under its own id, all ids below the next one.
    pub closed spec fn wf(&self) -> bool {
        &&& self.spec_entries().dom().finite()
        &&& forall|k: u64|
            #[trigger] self.spec_entries().dom().contains(k) ==> k < self.next_id
                && self.spec_entries()[k].id == k
    }

    /// The id the next transfer gets.
    pub fn next_id(&self) -> (r: u64)
        ensures
            r == self.spec_next_id(),
    {
        self.next_id
    }

    /// No transfer recorded yet.
    pub fn new() -> (r: Self)
        ensures
            r.wf(),
            r.spec_entries().dom().finite(),
            r.spec_entries() == Map::<u64, NarTransferSample>::empty(),
            r.spec_next_id() == 0,
    {
        NarTransferMetric { next_id: 0, entries: transfers_map_new() }
    }

    /// Starts recording the transfer described by `attrs`, begun at `started_at_unix_ms`;
    /// returns its id.
    pub fn begin(&mut self, attrs: NarTransferAttrs, started_at_unix_ms: u64) -> (id: u64)
        requires
            old(self).wf(),
            old(self).spec_next_id() < u64::MAX,
        ensures
            final(self).wf(),
            final(self).spec_entries().dom().finite(),
            final(self).spec_entries().len() == old(self).spec_entries().len() + 1,
            id == old(self).spec_next_id(),
            final(self).spec_next_id() == id + 1,
            !old(self).spec_entries().dom().contains(id),
            final(self).spec_entries().dom() == old(self).spec_entries().dom().insert(id),
            forall|k: u64|
                #[trigger] old(self).spec_entries().dom().contains(k) ==> final(self).spec_entries()[k]
                    == old(self).spec_entries()[k],
            ({
                let e = final(self).spec_entries()[id];
                &&& e.id == id
                &&& opt_text(e.store_path) == opt_text(attrs.store_path)
                &&& e.nar_file@ == attrs.nar_file@
                &&& e.substituter@ == attrs.substituter_url@
                &&& e.source_url@ == attrs.source_url@
                &&& e.content_length == attrs.content_length
                &&& e.bytes_transferred == 0
                &&& e.started_at_unix_ms == started_at_unix_ms
            }),
    {
        let id = self.next_id;
        let entry = NarTransferSample {
            id,
            store_path: attrs.store_path,
            nar_file: attrs.nar_file,
            substituter: String::from_str(attrs.substituter_url.value()),
            source_url: String::from_str(attrs.source_url.value()),
            content_length: attrs.content_length,
            bytes_transferred: 0,
            started_at_unix_ms,
        };
        transfers_map_insert(&mut self.entries, id, entry);
        self.next_id = id + 1;
        id
    }

    /// Adds `n` to the bytes counted for transfer `id` (wrapping, as an atomic counter
    /// does); unknown ids are ignored.
    pub fn record_bytes(&mut self, id: u64, n: u64)
        requires
            old(self).wf(),
        ensures
            final(self).wf(),
            final(self).spec_entries().dom().finite(),
            final(self).spec_next_id() == old(self).spec_next_id(),
            final(self).spec_entries() == if old(self).spec_entries().dom().contains(id) {
                old(self).spec_entries().insert(
                    id,
                    NarTransferSample {
                        bytes_transferred: old(self).spec_entries()[id].bytes_transferred.wrapping_add(n),
                        ..old(self).spec_entries()[id]
                    },
                )
            } else {
                old(self).spec_entries()
            },
    {
        let ghost before = self.spec_entries();
        match transfers_map_remove(&mut self.entries, id) {
            Some(mut e) => {
                e.bytes_transferred = e.bytes_transferred.wrapping_add(n);
                transfers_map_insert(&mut self.entries, id, e);
                assert(before.remove(id).insert(id, e) =~= before.insert(id, e));
            },
            None => {
                assert(before.remove(id) =~= before);
            },
        }
    }

    /// Stops recording transfer `id`; unknown ids are ignored.
    pub fn remove(&mut self, id: u64)
        requires
            old(self).wf(),
        ensures
            final(self).wf(),
            final(self).spec_entries().dom().finite(),
            final(self).spec_next_id() == old(self).spec_next_id(),
            final(self).spec_entries() == old(self).spec_entries().remove(id),
    {
        transfers_map_remove(&mut self.entries, id);
    }

    /// The transfers in flight, each once, by starting time (the order of transfers that
    /// started at the same time is not specified).
    pub fn active(&self) -> (r: Vec<NarTransferSample>)
        requires
            self.wf(),
        ensures
            r@.len() == self.spec_entries().len(),
            forall|i: int|
                0 <= i < r@.len() ==> self.spec_entries().dom().contains((#[trigger] r@[i]).id)
                    && same_sample(r@[i], self.spec_entries()[r@[i].id]),
            forall|i: int, j: int| 0 <= i < j < r@.len() ==> (#[trigger] r@[i]).id != (#[trigger] r@[j]).id,
            forall|i: int, j: int|
                0 <= i < j < r@.len() ==> (#[trigger] r@[i]).started_at_unix_ms
                    <= (#[trigger] r@[j]).started_at_unix_ms,
    {
        let pairs = transfers_map_entries(&self.entries);
        let ghost m = self.spec_entries();
        let n = pairs.len();
        let mut keys: Vec<u64> = Vec::new();
        let mut i: usize = 0;
        while i < n
            invariant
                n == pairs@.len(),
                i <= n,
                keys@.len() == i,
                forall|k: int| 0 <= k < i ==> keys@[k] == (#[trigger] pairs@[k]).1.started_at_unix_ms,
            decreases n - i,
        {
            keys.push(pairs[i].1.started_at_unix_ms);
            i = i + 1;
        }
        let order = stable_order(&keys);
        let mut items: Vec<NarTransferSample> = Vec::new();
        let mut k: usize = 0;
        while k < n
            invariant
                n == pairs@.len(),
                n == keys@.len(),
                forall|j: int| 0 <= j < n ==> keys@[j] == (#[trigger] pairs@[j]).1.started_at_unix_ms,
                is_stable_order(keys@, order@),
                k <= n,
                items@.len() == k,
                forall|j: int|
                    0 <= j < k ==> same_sample(#[trigger] items@[j], pairs@[order@[j] as int].1),
            decreases n - k,
        {
            let idx = order[k];
            assert(order@[k as int] < keys@.len());
            items.push(copy_sample(&pairs[idx].1));
            k = k + 1;
        }
        assert forall|i: int| 0 <= i < items@.len() implies m.dom().contains((#[trigger] items@[i]).id)
            && same_sample(items@[i], m[items@[i].id]) by {
            let p = order@[i] as int;
            assert(m.dom().contains(pairs@[p].0));
            assert(m[pairs@[p].0].id == pairs@[p].0);
        }
        assert forall|i: int, j: int| 0 <= i < j < items@.len() implies (#[trigger] items@[i]).id
            != (#[trigger] items@[j]).id by {
            let p = order@[i] as int;
            let q = order@[j] as int;
            assert(m[pairs@[p].0].id == pairs@[p].0);
            assert(m[pairs@[q].0].id == pairs@[q].0);
            assert(lex_before(keys@, p, q));
            if p < q {
                assert(pairs@[p].0 != pairs@[q].0);
            } else {
                assert(pairs@[q].0 != pairs@[p].0);
            }
        }
        assert forall|i: int, j: int| 0 <= i < j < items@.len() implies (#[trigger] items@[i]).started_at_unix_ms
            <= (#[trigger] items@[j]).started_at_unix_ms by {
            assert(lex_before(keys@, order@[i] as int, order@[j] as int));
        }
        items
    }

    /// The number of transfers in flight.
    pub fn active_count(&self) -> (r: usize)
        ensures
            r == self.spec_entries().len(),
    {
        transfers_map_len(&self.entries)
    }

    /// Whether no transfer is in flight.
    pub fn is_empty(&self) -> (r: bool)
        ensures
            r == (self.spec_entries().dom() == Set::<u64>::empty()),
    {
        transfers_map_is_empty(&self.entries)
    }
}

} // verus!
