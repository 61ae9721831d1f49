//! In-flight NAR downloads, listed on the status page.

use vstd::prelude::*;

use dashmap::DashMap;

use crate::sort::{is_stable_order, lex_before, stable_order};
use crate::store_path::{spec_store_path_name, store_path_name};
use crate::url::Url;

verus! {

/// One in-flight download as shown to the status page.
#[derive(Debug, Clone, PartialEq, Eq)]
pub struct ActiveDownloadSnapshot {
    pub id: u64,
    /// Package name from the store path when known (e.g. `codex-0.144.5`), else the file name.
    pub name: String,
    /// NAR file name (e.g. `….nar.xz`).
    pub file: String,
    pub substituter: String,
    pub source_url: String,
    pub content_length: Option<u64>,
    pub bytes_transferred: u64,
    pub started_at_unix_ms: u64,
}


/// Two snapshots show the same download.
pub open spec fn same_download(a: ActiveDownloadSnapshot, b: ActiveDownloadSnapshot) -> bool {
    &&& a.id == b.id
    &&& a.name@ == b.name@
    &&& a.file@ == b.file@
    &&& a.substituter@ == b.substituter@
    &&& a.source_url@ == b.source_url@
    &&& a.content_length == b.content_length
    &&& a.bytes_transferred == b.bytes_transferred
    &&& a.started_at_unix_ms == b.started_at_unix_ms
}

/// The label of a download: the package name of its store path when there is one, else
/// its file name.
pub open spec fn download_name(file: Seq<char>, store_path: Option<Seq<char>>) -> Seq<char> {
    match store_path {
        Some(p) => match spec_store_path_name(p) {
            Some(n) => n,
            None => file,
        },
        None => file,
    }
}

fn copy_snapshot(d: &ActiveDownloadSnapshot) -> (r: ActiveDownloadSnapshot)
    ensures
        same_download(r, *d),
{
    ActiveDownloadSnapshot {
        id: d.id,
        name: d.name.clone(),
        file: d.file.clone(),
        substituter: d.substituter.clone(),
        source_url: d.source_url.clone(),
        content_length: d.content_length,
        bytes_transferred: d.bytes_transferred,
        started_at_unix_ms: d.started_at_unix_ms,
    }
}

/// The map of in-flight downloads, keyed by download id.
pub type DownloadMap = DashMap<u64, ActiveDownloadSnapshot>;

/// The downloads a map holds, each under its id.
pub uninterp spec fn download_entries(m: DownloadMap) -> Map<u64, ActiveDownloadSnapshot>;

/// Calls `DashMap::new`. Claimed: the new map holds nothing.
#[verifier::external_body]
fn downloads_map_new() -> (r: DownloadMap)
    ensures
        download_entries(r).dom() == Set::<u64>::empty(),
{
    DashMap::new()
}

/// Calls `DashMap::insert`. Claimed: afterwards `key` holds `value` and every other key
/// what it held before.
#[verifier::external_body]
fn downloads_map_insert(m: &mut DownloadMap, key: u64, value: ActiveDownloadSnapshot)
    ensures
        download_entries(*final(m)) == download_entries(*old(m)).insert(key, value),
{
    m.insert(key, value);
}

/// Calls `DashMap::remove`. Claimed: afterwards `key` holds nothing and every other key
/// what it held before; the value `key` held is returned.
#[verifier::external_body]
fn downloads_map_remove(m: &mut DownloadMap, key: u64) -> (r: Option<
    ActiveDownloadSnapshot,
>)
    ensures
        download_entries(*final(m)) == download_entries(*old(m)).remove(key),
        r == if download_entries(*old(m)).dom().contains(key) {
            Some(download_entries(*old(m))[key])
        } else {
            None::<ActiveDownloadSnapshot>
        },
{
    match m.remove(&key) {
        Some((_, value)) => Some(value),
        None => None,
    }
}

/// Calls `DashMap::len`. Claimed: the number of keys the map holds.
#[verifier::external_body]
fn downloads_map_len(m: &DownloadMap) -> (r: usize)
    ensures
        r == download_entries(*m).len(),
{
    m.len()
}

/// Calls `DashMap::is_empty`. Claimed: whether the map holds no key.
#[verifier::external_body]
fn downloads_map_is_empty(m: &DownloadMap) -> (r: bool)
    ensures
        r == (download_entries(*m).dom() == Set::<u64>::empty()),
{
    m.is_empty()
}

/// Calls `DashMap::iter` and copies each entry out. Claimed: every key of the map comes
/// out once, with a copy of its value, in an order the map does not specify.
#[verifier::external_body]
fn downloads_map_entries(m: &DownloadMap) -> (r: Vec<(u64, ActiveDownloadSnapshot)>)
    ensures
        r@.len() == download_entries(*m).len(),
        forall|i: int|
            0 <= i < r@.len() ==> download_entries(*m).dom().contains(#[trigger] r@[i].0)
                && same_download(r@[i].1, download_entries(*m)[r@[i].0]),
        forall|i: int, j: int| 0 <= i < j < r@.len() ==> #[trigger] r@[i].0 != #[trigger] r@[j].0,
{
    m.iter().map(|entry| (*entry.key(), entry.value().clone())).collect()
}

/// Removing a download right after tracking it under a fresh id gives back the downloads
/// tracked before.
pub proof fn law_remove_undoes_track(
    entries: Map<u64, ActiveDownloadSnapshot>,
    id: u64,
    e: ActiveDownloadSnapshot,
)
    requires
        !entries.dom().contains(id),
    ensures
        entries.insert(id, e).remove(id) == entries,
{
    assert(entries.insert(id, e).remove(id) =~= entries);
}

/// Tracks in-flight NAR transfers for the status dashboard.
pub struct ActiveDownloadRegistry {
    next_id: u64,
    entries: DownloadMap,
}

impl ActiveDownloadRegistry {
    /// The tracked downloads, by id.
    pub closed spec fn spec_entries(&self) -> Map<u64, ActiveDownloadSnapshot> {
        download_entries(self.entries)
    }

    /// The id the next tracked download gets.
    pub closed spec fn spec_next_id(&self) -> u64 {
        self.next_id
    }

    /// Finitely many downloads, each under its own id, all ids below the next one.
    pub closed spec fn wf(&self) -> bool {
        &&& self.spec_entries().dom().finite()
        &&& forall|k: u64|
            #[trigger] self.spec_entries().dom().contains(k) ==> k < self.next_id
                && self.spec_entries()[k].id == k
    }

    /// The id the next download gets.
    pub fn next_id(&self) -> (r: u64)
        ensures
            r == self.spec_next_id(),
    {
        self.next_id
    }

    /// No download tracked yet.
    pub fn new() -> (r: Self)
        ensures
            r.wf(),
            r.spec_entries().dom().finite(),
            r.spec_entries() == Map::<u64, ActiveDownloadSnapshot>::empty(),
            r.spec_next_id() == 0,
    {
        ActiveDownloadRegistry { next_id: 0, entries: downloads_map_new() }
    }

    /// Starts tracking a download of the NAR file `file` from `source_url` of the
    /// substituter at `substituter_url`, begun at `started_at_unix_ms`; returns its id.
    pub fn track(
        &mut self,
        file: &str,
        substituter_url: &Url,
        source_url: &Url,
        content_length: Option<u64>,
        store_path: Option<&str>,
        started_at_unix_ms: u64,
    ) -> (id: u64)
        requires
            old(self).wf(),
            old(self).spec_next_id() < u64::MAX,
        ensures
            final(self).wf(),
            final(self).spec_entries().dom().finite(),
            final(self).spec_entries().len() == old(self).spec_entries().len() + 1,
            id == old(self).spec_next_id(),
            final(self).spec_next_id() == id + 1,
            !old(self).spec_entries().dom().contains(id),
            final(self).spec_entries().dom() == old(self).spec_entries().dom().insert(id),
            forall|k: u64|
                #[trigger] old(self).spec_entries().dom().contains(k) ==> final(self).spec_entries()[k]
                    == old(self).spec_entries()[k],
            ({
                let e = final(self).spec_entries()[id];
                &&& e.id == id
                &&& e.name@ == download_name(
                    file@,
                    match store_path {
                        Some(p) => Some(p@),
                        None => None,
                    },
                )
                &&& e.file@ == file@
                &&& e.substituter@ == substituter_url@
                &&& e.source_url@ == source_url@
                &&& e.content_length == content_length
                &&& e.bytes_transferred == 0
                &&& e.started_at_unix_ms == started_at_unix_ms
            }),
    {
        let id = self.next_id;
        let name = match store_path {
            Some(p) => match store_path_name(p) {
                Some(n) => String::from_str(n),
                None => String::from_str(file),
            },
            None => String::from_str(file),
        };
        let entry = ActiveDownloadSnapshot {
            id,
            name,
            file: String::from_str(file),
            substituter: String::from_str(substituter_url.value()),
            source_url: String::from_str(source_url.value()),
            content_length,
            bytes_transferred: 0,
            started_at_unix_ms,
        };
        downloads_map_insert(&mut self.entries, id, entry);
        self.next_id = id + 1;
        id
    }

    /// Adds `n` to the bytes counted for download `id` (wrapping, as an atomic counter
    /// does); unknown ids are ignored.
    pub fn record_bytes(&mut self, id: u64, n: u64)
        requires
            old(self).wf(),
        ensures
            final(self).wf(),
            final(self).spec_entries().dom().finite(),
            final(self).spec_next_id() == old(self).spec_next_id(),
            final(self).spec_entries() == if old(self).spec_entries().dom().contains(id) {
                old(self).spec_entries().insert(
                    id,
                    ActiveDownloadSnapshot {
                        bytes_transferred: old(self).spec_entries()[id].bytes_transferred.wrapping_add(n),
                        ..old(self).spec_entries()[id]
                    },
                )
            } else {
                old(self).spec_entries()
            },
    {
        let ghost before = self.spec_entries();
        match downloads_map_remove(&mut self.entries, id) {
            Some(mut e) => {
                e.bytes_transferred = e.bytes_transferred.wrapping_add(n);
                downloads_map_insert(&mut self.entries, id, e);
                assert(before.remove(id).insert(id, e) =~= before.insert(id, e));
            },
            None => {
                assert(before.remove(id) =~= before);
            },
        }
    }

    /// Stops tracking download `id`; unknown ids are ignored.
    pub fn remove(&mut self, id: u64)
        requires
            old(self).wf(),
        ensures
            final(self).wf(),
            final(self).spec_entries().dom().finite(),
            final(self).spec_next_id() == old(self).spec_next_id(),
            final(self).spec_entries() == old(self).spec_entries().remove(id),
    {
        downloads_map_remove(&mut self.entries, id);
    }

    /// The tracked downloads, each once, by starting time (the order of downloads that
    /// started at the same time is not specified).
    pub fn list(&self) -> (r: Vec<ActiveDownloadSnapshot>)
        requires
            self.wf(),
        ensures
            r@.len() == self.spec_entries().len(),
            forall|i: int|
                0 <= i < r@.len() ==> self.spec_entries().dom().contains((#[trigger] r@[i]).id)
                    && same_download(r@[i], self.spec_entries()[r@[i].id]),
            forall|i: int, j: int| 0 <= i < j < r@.len() ==> (#[trigger] r@[i]).id != (#[trigger] r@[j]).id,
            forall|i: int, j: int|
                0 <= i < j < r@.len() ==> (#[trigger] r@[i]).started_at_unix_ms
                    <= (#[trigger] r@[j]).started_at_unix_ms,
    {
        let pairs = downloads_map_entries(&self.entries);
        let ghost m = self.spec_entries();
        let n = pairs.len();
        let mut keys: Vec<u64> = Vec::new();
        let mut i: usize = 0;
        while i < n
            invariant
                n == pairs@.len(),
                i <= n,
                keys@.len() == i,
                forall|k: int| 0 <= k < i ==> keys@[k] == (#[trigger] pairs@[k]).1.started_at_unix_ms,
            decreases n - i,
        {
            keys.push(pairs[i].1.started_at_unix_ms);
            i = i + 1;
        }
        let order = stable_order(&keys);
        let mut items: Vec<ActiveDownloadSnapshot> = Vec::new();
        let mut k: usize = 0;
        while k < n
            invariant
                n == pairs@.len(),
                n == keys@.len(),
                forall|j: int| 0 <= j < n ==> keys@[j] == (#[trigger] pairs@[j]).1.started_at_unix_ms,
                is_stable_order(keys@, order@),
                k <= n,
                items@.len() == k,
                forall|j: int|
                    0 <= j < k ==> same_download(#[trigger] items@[j], pairs@[order@[j] as int].1),
            decreases n - k,
        {
            let idx = order[k];
            assert(order@[k as int] < keys@.len());
            items.push(copy_snapshot(&pairs[idx].1));
            k = k + 1;
        }
        assert forall|i: int| 0 <= i < items@.len() implies m.dom().contains((#[trigger] items@[i]).id)
            && same_download(items@[i], m[items@[i].id]) by {
            let p = order@[i] as int;
            assert(m.dom().contains(pairs@[p].0));
            assert(m[pairs@[p].0].id == pairs@[p].0);
        }
        assert forall|i: int, j: int| 0 <= i < j < items@.len() implies (#[trigger] items@[i]).id
            != (#[trigger] items@[j]).id by {
            let p = order@[i] as int;
            let q = order@[j] as int;
            assert(m[pairs@[p].0].id == pairs@[p].0);
            assert(m[pairs@[q].0].id == pairs@[q].0);
            assert(lex_before(keys@, p, q));
            if p < q {
                assert(pairs@[p].0 != pairs@[q].0);
            } else {
                assert(pairs@[q].0 != pairs@[p].0);
            }
        }
        assert forall|i: int, j: int| 0 <= i < j < items@.len() implies (#[trigger] items@[i]).started_at_unix_ms
            <= (#[trigger] items@[j]).started_at_unix_ms by {
            assert(lex_before(keys@, order@[i] as int, order@[j] as int));
        }
        items
    }

    /// The number of tracked downloads.
    pub fn len(&self) -> (r: usize)
        ensures
            r == self.spec_entries().len(),
    {
        downloads_map_len(&self.entries)
    }

    /// Whether no download is tracked.
    pub fn is_empty(&self) -> (r: bool)
        ensures
            r == (self.spec_entries().dom() == Set::<u64>::empty()),
    {
        downloads_map_is_empty(&self.entries)
    }
}

/// A download is labelled by the package name of its store path when that path names one,
/// and by its file name otherwise.
pub proof fn law_download_label(file: Seq<char>, store_path: Option<Seq<char>>)
    ensures
        store_path matches Some(p) && spec_store_path_name(p) is Some ==> download_name(file, store_path)
            == spec_store_path_name(store_path->Some_0)->Some_0,
        store_path is None ==> download_name(file, store_path) == file,
        store_path matches Some(p) && spec_store_path_name(p) is None ==> download_name(file, store_path)
            == file,
{
}

} // verus!
