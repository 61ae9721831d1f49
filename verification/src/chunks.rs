//! The schedule of a chunked download: which byte ranges are requested, how many run at
//! once, and in which order the received bytes are passed on.
//!
//! The requests and their bodies are driven by the caller; this type decides what to do
//! and keeps the received bytes until they are passed on, in order.

use vstd::prelude::*;

verus! {

/// Where a chunk of the window is.
#[derive(Debug, Clone, Copy, PartialEq, Eq, Structural)]
pub enum ChunkPhase {
    /// Its request was sent; no body yet.
    Connecting,
    /// Its body is arriving.
    Transferring,
    /// Its body ended.
    Finished,
}

struct ChunkSlot {
    phase: ChunkPhase,
    /// Received pieces not yet passed on, in arrival order.
    pieces: Vec<Vec<u8>>,
}

/// What to do next while filling the window.
#[derive(Debug, Clone, Copy, PartialEq, Eq, Structural)]
pub enum LaunchDecision {
    /// No more chunk may be started now.
    Done,
    /// Request the chunk of `len` bytes at `offset`; a permit already held covers it.
    Launch { offset: usize, len: usize },
    /// A new throttler permit is needed before the next chunk can start.
    NeedPermit,
}

/// What the stream yields next.
#[derive(Debug, Clone, PartialEq, Eq)]
pub enum ChunkOutput {
    /// These bytes, the next ones of the file.
    Bytes(Vec<u8>),
    /// Nothing yet.
    Pending,
    /// The stream ended.
    End,
}

/// The number of chunks of at most `chunk` bytes that cover `total` bytes.
pub open spec fn chunks_total(total: nat, chunk: nat) -> nat
    recommends
        chunk > 0,
{
    if total % chunk == 0 {
        total / chunk
    } else {
        total / chunk + 1
    }
}

/// The byte range of chunk `k`: it starts at `k * chunk` and holds at most `chunk` bytes.
pub open spec fn chunk_range(total: nat, chunk: nat, k: nat) -> (nat, nat) {
    let offset = k * chunk;
    (offset, if total - offset < chunk { (total - offset) as nat } else { chunk })
}

/// The bytes of a sequence of pieces, in order.
pub open spec fn joined(pieces: Seq<Vec<u8>>) -> Seq<u8> {
    pieces.map_values(|p: Vec<u8>| p@).flatten()
}

proof fn lemma_joined_push(pieces: Seq<Vec<u8>>, p: Vec<u8>)
    ensures
        joined(pieces.push(p)) == joined(pieces) + p@,
{
    assert(pieces.push(p).map_values(|q: Vec<u8>| q@) =~= pieces.map_values(|q: Vec<u8>| q@).push(p@));
    pieces.map_values(|q: Vec<u8>| q@).lemma_flatten_push(p@);
}

proof fn lemma_joined_drop_first(pieces: Seq<Vec<u8>>)
    requires
        pieces.len() > 0,
    ensures
        joined(pieces) == pieces[0]@ + joined(pieces.drop_first()),
{
    assert(pieces.drop_first().map_values(|q: Vec<u8>| q@) =~= pieces.map_values(|q: Vec<u8>| q@).drop_first());
}

proof fn lemma_chunk_offset_in_range(k: nat, total: nat, chunk: nat)
    requires
        chunk > 0,
        k < chunks_total(total, chunk),
    ensures
        k * chunk < total,
{
    vstd::arithmetic::div_mod::lemma_fundamental_div_mod(total as int, chunk as int);
    if total % chunk == 0 {
        assert(k * chunk < total) by (nonlinear_arith)
            requires
                chunk > 0,
                k < total / chunk,
                total % chunk == 0,
                total == chunk * (total / chunk) + total % chunk,
        ;
    } else {
        assert(k * chunk < total) by (nonlinear_arith)
            requires
                chunk > 0,
                k <= total / chunk,
                total % chunk > 0,
                total == chunk * (total / chunk) + total % chunk,
        ;
    }
}

proof fn lemma_chunks_total_le(total: nat, chunk: nat)
    requires
        chunk > 0,
    ensures
        chunks_total(total, chunk) <= total,
        total > 0 ==> chunks_total(total, chunk) >= 1,
{
    vstd::arithmetic::div_mod::lemma_fundamental_div_mod(total as int, chunk as int);
    assert(total / chunk <= total) by (nonlinear_arith)
        requires
            chunk > 0,
            total == chunk * (total / chunk) + total % chunk,
            total % chunk >= 0,
    ;
    if total % chunk != 0 {
        assert(total / chunk < total) by (nonlinear_arith)
            requires
                chunk > 0,
                total == chunk * (total / chunk) + total % chunk,
                total % chunk > 0,
        ;
    }
    if total > 0 && total % chunk == 0 {
        assert(total / chunk >= 1) by (nonlinear_arith)
            requires
                chunk > 0,
                total == chunk * (total / chunk),
                total > 0,
        ;
    }
}

proof fn lemma_flatten_append_at(s: Seq<Seq<u8>>, k: int, b: Seq<u8>)
    requires
        0 <= k < s.len(),
    ensures
        s.update(k, s[k] + b).flatten().len() == s.flatten().len() + b.len(),
        s.update(k, s[k] + b).take(k) == s.take(k),
{
    let t = s.update(k, s[k] + b);
    assert(s =~= s.take(k) + seq![s[k]] + s.skip(k + 1));
    assert(t =~= s.take(k) + seq![s[k] + b] + s.skip(k + 1));
    vstd::seq_lib::lemma_flatten_concat(s.take(k) + seq![s[k]], s.skip(k + 1));
    vstd::seq_lib::lemma_flatten_concat(s.take(k), seq![s[k]]);
    vstd::seq_lib::lemma_flatten_concat(s.take(k) + seq![s[k] + b], s.skip(k + 1));
    vstd::seq_lib::lemma_flatten_concat(s.take(k), seq![s[k] + b]);
    seq![s[k]].lemma_flatten_singleton();
    seq![s[k] + b].lemma_flatten_singleton();
    assert(t.take(k) =~= s.take(k));
}

proof fn lemma_flatten_take_len(s: Seq<Seq<u8>>, k: int)
    requires
        0 <= k <= s.len(),
    ensures
        s.take(k).flatten().len() <= s.flatten().len(),
{
    assert(s =~= s.take(k) + s.skip(k));
    vstd::seq_lib::lemma_flatten_concat(s.take(k), s.skip(k));
}

/// The schedule of one chunked download.
pub struct ChunkSchedule {
    chunk_max_len: usize,
    window_max_len: usize,
    bytes_total: usize,
    bytes_consumed: usize,
    bytes_received: usize,
    window: Vec<ChunkSlot>,
    window_offset: usize,
    permits: usize,
    launch_budget: usize,
    /// All bytes received so far, by chunk index.
    received: Ghost<Seq<Seq<u8>>>,
    /// All bytes passed on so far.
    emitted: Ghost<Seq<u8>>,
    /// The bytes of the front chunk that were passed on.
    front_taken: Ghost<Seq<u8>>,
}

impl ChunkSchedule {
    pub closed spec fn spec_chunk_max_len(&self) -> nat {
        self.chunk_max_len as nat
    }

    pub closed spec fn spec_window_max_len(&self) -> nat {
        self.window_max_len as nat
    }

    pub closed spec fn spec_bytes_total(&self) -> nat {
        self.bytes_total as nat
    }

    /// Index of the first chunk still in the window; the chunks before it were passed on whole.
    pub closed spec fn spec_window_offset(&self) -> nat {
        self.window_offset as nat
    }

    /// The number of chunks in the window.
    pub closed spec fn spec_window_len(&self) -> nat {
        self.window@.len()
    }

    /// The phase of the `i`-th chunk of the window.
    pub closed spec fn spec_phase(&self, i: int) -> ChunkPhase {
        self.window@[i].phase
    }

    /// The number of received pieces of the `i`-th chunk of the window not yet passed on.
    pub closed spec fn spec_pending_pieces(&self, i: int) -> nat {
        self.window@[i].pieces@.len()
    }

    /// How many of the first `n` chunks of the window are still connecting or transferring.
    pub open spec fn spec_running_in(&self, n: nat) -> nat
        decreases n,
    {
        if n == 0 {
            0
        } else {
            self.spec_running_in((n - 1) as nat) + if self.spec_phase(n - 1) != ChunkPhase::Finished {
                1nat
            } else {
                0nat
            }
        }
    }

    /// The permits that the current round of launches may use before acquiring new ones.
    pub closed spec fn spec_launch_budget(&self) -> nat {
        self.launch_budget as nat
    }

    /// The bytes received so far, by chunk index.
    pub closed spec fn spec_received(&self) -> Seq<Seq<u8>> {
        self.received@
    }

    /// The bytes passed on so far, in order.
    pub closed spec fn spec_emitted(&self) -> Seq<u8> {
        self.emitted@
    }

    /// The number of throttler permits held.
    pub closed spec fn spec_permits(&self) -> nat {
        self.permits as nat
    }

    pub closed spec fn spec_bytes_received(&self) -> nat {
        self.bytes_received as nat
    }

    /// The number of chunks of this download.
    pub open spec fn spec_chunks_total(&self) -> nat {
        chunks_total(self.spec_bytes_total(), self.spec_chunk_max_len())
    }

    /// A chunk may be started: chunks remain and the window has room.
    pub open spec fn spec_can_launch(&self) -> bool {
        &&& self.spec_window_offset() + self.spec_window_len() < self.spec_chunks_total()
        &&& self.spec_window_len() < self.spec_window_max_len()
    }

    pub closed spec fn wf(&self) -> bool {
        &&& self.chunk_max_len > 0
        &&& chunks_total(self.bytes_total as nat, self.chunk_max_len as nat) <= self.bytes_total
        &&& self.window_max_len > 0
        &&& self.window@.len() <= self.window_max_len
        &&& self.window_offset + self.window@.len() <= chunks_total(
            self.bytes_total as nat,
            self.chunk_max_len as nat,
        )
        &&& self.received@.len() == self.window_offset + self.window@.len()
        &&& forall|i: int|
            0 < i < self.window@.len() ==> joined((#[trigger] self.window@[i]).pieces@)
                == self.received@[self.window_offset + i]
        &&& self.window@.len() > 0 ==> self.received@[self.window_offset as int] == self.front_taken@
            + joined(self.window@[0].pieces@)
        &&& self.window@.len() == 0 ==> self.front_taken@ == Seq::<u8>::empty()
        &&& self.emitted@ == self.received@.take(self.window_offset as int).flatten()
            + self.front_taken@
        &&& self.bytes_received == self.received@.flatten().len()
        &&& self.bytes_consumed == self.emitted@.len()
        &&& self.permits <= self.window_offset + self.window@.len()
        &&& self.bytes_total > 0 ==> self.window_offset + self.window@.len() >= 1
        &&& self.bytes_total > 0 && self.bytes_received < self.bytes_total ==> self.permits >= 1
    }

    /// The schedule of a download of `bytes_total` bytes in chunks of at most
    /// `chunk_max_len` bytes, at most `window_max_len` at once. Unless the download is
    /// empty, the first chunk is already arriving under the permit the caller holds.
    pub fn new(chunk_max_len: usize, bytes_total: usize, window_max_len: usize) -> (r: Self)
        requires
            chunk_max_len > 0,
            window_max_len > 0,
        ensures
            r.wf(),
            r.spec_chunk_max_len() == chunk_max_len,
            r.spec_window_max_len() == window_max_len,
            r.spec_bytes_total() == bytes_total,
            r.spec_window_offset() == 0,
            r.spec_window_len() == if bytes_total > 0 { 1nat } else { 0nat },
            bytes_total > 0 ==> r.spec_phase(0) == ChunkPhase::Transferring,
            bytes_total > 0 ==> r.spec_pending_pieces(0) == 0,
            r.spec_launch_budget() == 0,
            r.spec_permits() == if bytes_total > 0 { 1nat } else { 0nat },
            r.spec_emitted() == Seq::<u8>::empty(),
            r.spec_received().flatten() == Seq::<u8>::empty(),
    {
        proof {
            lemma_chunks_total_le(bytes_total as nat, chunk_max_len as nat);
        }
        let mut window: Vec<ChunkSlot> = Vec::new();
        let mut permits: usize = 0;
        let ghost mut received: Seq<Seq<u8>> = Seq::empty();
        if bytes_total > 0 {
            window.push(ChunkSlot { phase: ChunkPhase::Transferring, pieces: Vec::new() });
            permits = 1;
            proof {
                received = seq![Seq::<u8>::empty()];
                assert(joined(Seq::<Vec<u8>>::empty()) =~= Seq::<u8>::empty());
                assert(received.take(0) =~= Seq::<Seq<u8>>::empty());
                assert(received.flatten() =~= Seq::<u8>::empty()) by {
                    received.lemma_flatten_singleton();
                }
                assert(chunks_total(bytes_total as nat, chunk_max_len as nat) >= 1) by (nonlinear_arith)
                    requires
                        bytes_total > 0,
                        chunk_max_len > 0,
                ;
            }
        }
        ChunkSchedule {
            chunk_max_len,
            window_max_len,
            bytes_total,
            bytes_consumed: 0,
            bytes_received: 0,
            window,
            window_offset: 0,
            permits,
            launch_budget: 0,
            received: Ghost(received),
            emitted: Ghost(Seq::empty()),
            front_taken: Ghost(Seq::empty()),
        }
    }

    /// The bytes received so far, over all chunks.
    pub fn bytes_received(&self) -> (r: usize)
        ensures
            r == self.spec_bytes_received(),
    {
        self.bytes_received
    }

    /// The number of chunks in the window.
    pub fn window_len(&self) -> (r: usize)
        ensures
            r == self.spec_window_len(),
    {
        self.window.len()
    }

    /// The phase of the `i`-th chunk of the window.
    pub fn phase(&self, i: usize) -> (r: ChunkPhase)
        requires
            i < self.spec_window_len(),
        ensures
            r == self.spec_phase(i as int),
    {
        self.window[i].phase
    }

    /// Drops the chunks at the front of the window that ended and were passed on whole;
    /// returns how many were dropped.
    pub fn strip_exhausted(&mut self) -> (stripped: usize)
        requires
            old(self).wf(),
        ensures
            final(self).wf(),
            stripped <= old(self).spec_window_len(),
            final(self).spec_window_offset() == old(self).spec_window_offset() + stripped,
            final(self).spec_window_len() == old(self).spec_window_len() - stripped,
            forall|i: int|
                0 <= i < final(self).spec_window_len() ==> final(self).spec_phase(i)
                    == old(self).spec_phase(i + stripped) && final(self).spec_pending_pieces(i)
                    == old(self).spec_pending_pieces(i + stripped),
            forall|i: int|
                0 <= i < stripped ==> old(self).spec_phase(i) == ChunkPhase::Finished
                    && old(self).spec_pending_pieces(i) == 0,
            final(self).spec_window_len() > 0 ==> !(final(self).spec_phase(0) == ChunkPhase::Finished
                && final(self).spec_pending_pieces(0) == 0),
            final(self).spec_received() == old(self).spec_received(),
            final(self).spec_emitted() == old(self).spec_emitted(),
            final(self).spec_permits() == old(self).spec_permits(),
            final(self).spec_bytes_total() == old(self).spec_bytes_total(),
            final(self).spec_chunk_max_len() == old(self).spec_chunk_max_len(),
            final(self).spec_window_max_len() == old(self).spec_window_max_len(),
            final(self).spec_bytes_received() == old(self).spec_bytes_received(),
    {
        let mut stripped: usize = 0;
        while self.window.len() > 0 && self.window[0].phase == ChunkPhase::Finished
            && self.window[0].pieces.len() == 0
            invariant
                self.wf(),
                stripped <= old(self).window@.len(),
                self.window_offset == old(self).window_offset + stripped,
                self.window@.len() == old(self).window@.len() - stripped,
                forall|i: int|
                    0 <= i < self.window@.len() ==> #[trigger] self.window@[i]
                        == old(self).window@[i + stripped],
                forall|i: int|
                    0 <= i < stripped ==> (#[trigger] old(self).window@[i]).phase == ChunkPhase::Finished
                        && old(self).window@[i].pieces@.len() == 0,
                self.received@ == old(self).received@,
                self.emitted@ == old(self).emitted@,
                self.permits == old(self).permits,
                self.bytes_total == old(self).bytes_total,
                self.chunk_max_len == old(self).chunk_max_len,
                self.window_max_len == old(self).window_max_len,
                self.bytes_received == old(self).bytes_received,
            decreases self.window@.len(),
        {
            let ghost before = self.window@;
            let ghost off = self.window_offset as int;
            proof {
                assert(joined(before[0].pieces@) =~= Seq::<u8>::empty());
                assert(self.received@.take(off + 1) =~= self.received@.take(off).push(
                    self.received@[off],
                ));
                self.received@.take(off).lemma_flatten_push(self.received@[off]);
            }
            self.window.remove(0);
            self.window_offset = self.window_offset + 1;
            self.front_taken = Ghost(Seq::empty());
            stripped = stripped + 1;
            proof {
                assert forall|i: int| 0 <= i < self.window@.len() implies #[trigger] self.window@[i] == before[i + 1] by {}
                if self.window@.len() > 0 {
                    assert(self.received@[self.window_offset as int] =~= self.front_taken@ + joined(
                        self.window@[0].pieces@,
                    ));
                }
            }
        }
        stripped
    }

    fn count_not_finished(&self) -> (r: usize)
        ensures
            r <= self.window@.len(),
            r == self.spec_running_in(self.spec_window_len()),
    {
        let n = self.window.len();
        let mut count: usize = 0;
        let mut i: usize = 0;
        while i < n
            invariant
                n == self.window@.len(),
                i <= n,
                count <= i,
                count == self.spec_running_in(i as nat),
            decreases n - i,
        {
            if self.window[i].phase != ChunkPhase::Finished {
                count = count + 1;
            }
            i = i + 1;
        }
        count
    }

    /// Starts a round of chunk launches: permits held beyond the chunks still running are
    /// used first.
    pub fn begin_launches(&mut self)
        requires
            old(self).wf(),
        ensures
            final(self).wf(),
            final(self).spec_window_offset() == old(self).spec_window_offset(),
            final(self).spec_window_len() == old(self).spec_window_len(),
            forall|i: int|
                0 <= i < final(self).spec_window_len() ==> final(self).spec_phase(i)
                    == old(self).spec_phase(i),
            final(self).spec_received() == old(self).spec_received(),
            final(self).spec_emitted() == old(self).spec_emitted(),
            final(self).spec_permits() == old(self).spec_permits(),
            final(self).spec_bytes_total() == old(self).spec_bytes_total(),
            final(self).spec_chunk_max_len() == old(self).spec_chunk_max_len(),
            final(self).spec_window_max_len() == old(self).spec_window_max_len(),
            final(self).spec_bytes_received() == old(self).spec_bytes_received(),
            final(self).spec_launch_budget() == if old(self).spec_permits() > old(self).spec_running_in(
                old(self).spec_window_len(),
            ) {
                (old(self).spec_permits() - old(self).spec_running_in(old(self).spec_window_len())) as nat
            } else {
                0nat
            },
            forall|j: int|
                0 <= j < old(self).spec_window_len() ==> final(self).spec_pending_pieces(j)
                    == old(self).spec_pending_pieces(j),
    {
        let running = self.count_not_finished();
        self.launch_budget = if self.permits > running {
            self.permits - running
        } else {
            0
        };
    }

    fn push_chunk(&mut self) -> (r: (usize, usize))
        requires
            old(self).wf(),
            old(self).spec_can_launch(),
        ensures
            final(self).wf(),
            r.0 as nat == chunk_range(
                old(self).spec_bytes_total(),
                old(self).spec_chunk_max_len(),
                old(self).spec_window_offset() + old(self).spec_window_len(),
            ).0,
            r.1 as nat == chunk_range(
                old(self).spec_bytes_total(),
                old(self).spec_chunk_max_len(),
                old(self).spec_window_offset() + old(self).spec_window_len(),
            ).1,
            final(self).spec_window_offset() == old(self).spec_window_offset(),
            final(self).spec_window_len() == old(self).spec_window_len() + 1,
            forall|i: int|
                0 <= i < old(self).spec_window_len() ==> final(self).spec_phase(i)
                    == old(self).spec_phase(i),
            final(self).spec_phase(old(self).spec_window_len() as int) == ChunkPhase::Connecting,
            forall|i: int|
                0 <= i < old(self).spec_window_len() ==> final(self).spec_pending_pieces(i)
                    == old(self).spec_pending_pieces(i),
            final(self).spec_pending_pieces(old(self).spec_window_len() as int) == 0,
            final(self).spec_received() == old(self).spec_received().push(Seq::<u8>::empty()),
            final(self).spec_emitted() == old(self).spec_emitted(),
            final(self).spec_permits() == old(self).spec_permits(),
            final(self).spec_bytes_total() == old(self).spec_bytes_total(),
            final(self).spec_chunk_max_len() == old(self).spec_chunk_max_len(),
            final(self).spec_window_max_len() == old(self).spec_window_max_len(),
            final(self).spec_bytes_received() == old(self).spec_bytes_received(),
            final(self).launch_budget == old(self).launch_budget,
    {
        let k = self.window_offset + self.window.len();
        proof {
            lemma_chunk_offset_in_range(k as nat, self.bytes_total as nat, self.chunk_max_len as nat);
            assert(k * self.chunk_max_len <= self.bytes_total);
        }
        let offset = k * self.chunk_max_len;
        let rest = self.bytes_total - offset;
        let len = if rest < self.chunk_max_len { rest } else { self.chunk_max_len };
        let ghost old_received = self.received@;
        let ghost off = self.window_offset as int;
        self.window.push(ChunkSlot { phase: ChunkPhase::Connecting, pieces: Vec::new() });
        self.received = Ghost(self.received@.push(Seq::empty()));
        proof {
            assert(joined(Seq::<Vec<u8>>::empty()) =~= Seq::<u8>::empty());
            assert(self.received@.take(off) =~= old_received.take(off));
            old_received.lemma_flatten_push(Seq::empty());
            assert(old_received.flatten() + Seq::<u8>::empty() =~= old_received.flatten());
            assert forall|i: int|
                0 < i < self.window@.len() implies joined((#[trigger] self.window@[i]).pieces@)
                    == self.received@[self.window_offset + i] by {}
            if self.window@.len() > 1 {
                assert(self.received@[off] == old_received[off]);
            } else {
                assert(self.received@[off] =~= self.front_taken@ + joined(self.window@[0].pieces@));
            }
        }
        (offset, len)
    }

    /// Decides the next step of a launch round: stop, start a chunk under a permit already
    /// held, or ask for a new permit.
    pub fn next_launch(&mut self) -> (r: LaunchDecision)
        requires
            old(self).wf(),
        ensures
            final(self).wf(),
            final(self).spec_window_offset() == old(self).spec_window_offset(),
            final(self).spec_emitted() == old(self).spec_emitted(),
            final(self).spec_permits() == old(self).spec_permits(),
            final(self).spec_bytes_total() == old(self).spec_bytes_total(),
            final(self).spec_chunk_max_len() == old(self).spec_chunk_max_len(),
            final(self).spec_window_max_len() == old(self).spec_window_max_len(),
            final(self).spec_bytes_received() == old(self).spec_bytes_received(),
            forall|i: int|
                0 <= i < old(self).spec_window_len() ==> final(self).spec_phase(i)
                    == old(self).spec_phase(i),
            !old(self).spec_can_launch() ==> r == LaunchDecision::Done,
            old(self).spec_can_launch() ==> r != LaunchDecision::Done,
            old(self).spec_can_launch() ==> ((r is Launch) == (old(self).spec_launch_budget() > 0)),
            r is Launch ==> final(self).spec_launch_budget() == old(self).spec_launch_budget() - 1,
            !(r is Launch) ==> final(self).spec_launch_budget() == old(self).spec_launch_budget(),
            r is NeedPermit ==> final(self).spec_launch_budget() == 0,
            forall|i: int|
                0 <= i < old(self).spec_window_len() ==> final(self).spec_pending_pieces(i)
                    == old(self).spec_pending_pieces(i),
            r is Launch ==> final(self).spec_pending_pieces(old(self).spec_window_len() as int) == 0,
            match r {
                LaunchDecision::Launch { offset, len } => {
                    &&& (offset as nat, len as nat) == chunk_range(
                        old(self).spec_bytes_total(),
                        old(self).spec_chunk_max_len(),
                        old(self).spec_window_offset() + old(self).spec_window_len(),
                    )
                    &&& final(self).spec_window_len() == old(self).spec_window_len() + 1
                    &&& final(self).spec_phase(old(self).spec_window_len() as int)
                        == ChunkPhase::Connecting
                    &&& final(self).spec_received() == old(self).spec_received().push(
                        Seq::<u8>::empty(),
                    )
                },
                _ => {
                    &&& final(self).spec_window_len() == old(self).spec_window_len()
                    &&& final(self).spec_received() == old(self).spec_received()
                },
            },
    {
        let can_launch = self.window_offset + self.window.len() < self.chunks_total_exec()
            && self.window.len() < self.window_max_len;
        if !can_launch {
            LaunchDecision::Done
        } else if self.launch_budget > 0 {
            self.launch_budget = self.launch_budget - 1;
            let (offset, len) = self.push_chunk();
            LaunchDecision::Launch { offset, len }
        } else {
            LaunchDecision::NeedPermit
        }
    }

    /// A new permit was acquired: starts the next chunk under it; returns its byte range.
    pub fn launch_with_new_permit(&mut self) -> (r: (usize, usize))
        requires
            old(self).wf(),
            old(self).spec_can_launch(),
        ensures
            final(self).wf(),
            (r.0 as nat, r.1 as nat) == chunk_range(
                old(self).spec_bytes_total(),
                old(self).spec_chunk_max_len(),
                old(self).spec_window_offset() + old(self).spec_window_len(),
            ),
            final(self).spec_window_offset() == old(self).spec_window_offset(),
            final(self).spec_window_len() == old(self).spec_window_len() + 1,
            forall|i: int|
                0 <= i < old(self).spec_window_len() ==> final(self).spec_phase(i)
                    == old(self).spec_phase(i),
            final(self).spec_phase(old(self).spec_window_len() as int) == ChunkPhase::Connecting,
            final(self).spec_received() == old(self).spec_received().push(Seq::<u8>::empty()),
            final(self).spec_emitted() == old(self).spec_emitted(),
            final(self).spec_permits() == old(self).spec_permits() + 1,
            final(self).spec_launch_budget() == old(self).spec_launch_budget(),
            forall|i: int|
                0 <= i < old(self).spec_window_len() ==> final(self).spec_pending_pieces(i)
                    == old(self).spec_pending_pieces(i),
            final(self).spec_pending_pieces(old(self).spec_window_len() as int) == 0,
            final(self).spec_bytes_total() == old(self).spec_bytes_total(),
            final(self).spec_chunk_max_len() == old(self).spec_chunk_max_len(),
            final(self).spec_window_max_len() == old(self).spec_window_max_len(),
            final(self).spec_bytes_received() == old(self).spec_bytes_received(),
    {
        let r = self.push_chunk();
        self.permits = self.permits + 1;
        r
    }

    /// The number of chunks of this download.
    pub fn chunks_total_exec(&self) -> (r: usize)
        requires
            self.wf(),
        ensures
            r == self.spec_chunks_total(),
    {
        let q = self.bytes_total / self.chunk_max_len;
        if self.bytes_total % self.chunk_max_len == 0 {
            q
        } else {
            proof {
                vstd::arithmetic::div_mod::lemma_fundamental_div_mod(
                    self.bytes_total as int,
                    self.chunk_max_len as int,
                );
                assert(q < self.bytes_total) by (nonlinear_arith)
                    requires
                        self.bytes_total == self.chunk_max_len * q + self.bytes_total % self.chunk_max_len,
                        self.bytes_total % self.chunk_max_len > 0,
                        self.chunk_max_len > 0,
                        q >= 0,
                ;
            }
            q + 1
        }
    }

    /// The request of the `i`-th chunk was answered: its body starts arriving.
    pub fn on_connected(&mut self, i: usize)
        requires
            old(self).wf(),
            i < old(self).spec_window_len(),
            old(self).spec_phase(i as int) == ChunkPhase::Connecting,
        ensures
            final(self).wf(),
            final(self).spec_window_offset() == old(self).spec_window_offset(),
            final(self).spec_window_len() == old(self).spec_window_len(),
            forall|j: int|
                0 <= j < final(self).spec_window_len() ==> final(self).spec_phase(j) == if j
                    == i {
                    ChunkPhase::Transferring
                } else {
                    old(self).spec_phase(j)
                },
            final(self).spec_received() == old(self).spec_received(),
            final(self).spec_emitted() == old(self).spec_emitted(),
            final(self).spec_permits() == old(self).spec_permits(),
            final(self).spec_bytes_total() == old(self).spec_bytes_total(),
            final(self).spec_chunk_max_len() == old(self).spec_chunk_max_len(),
            final(self).spec_window_max_len() == old(self).spec_window_max_len(),
            final(self).spec_bytes_received() == old(self).spec_bytes_received(),
            forall|j: int|
                0 <= j < old(self).spec_window_len() ==> final(self).spec_pending_pieces(j)
                    == old(self).spec_pending_pieces(j),
    {
        let mut slot = self.window.remove(i);
        slot.phase = ChunkPhase::Transferring;
        self.window.insert(i, slot);
        proof {
            assert(self.window@ =~= old(self).window@.update(i as int, slot));
        }
    }

    /// A piece of the body of the `i`-th chunk arrived.
    pub fn on_piece(&mut self, i: usize, piece: Vec<u8>)
        requires
            old(self).wf(),
            i < old(self).spec_window_len(),
            old(self).spec_phase(i as int) == ChunkPhase::Transferring,
            old(self).spec_bytes_received() + piece@.len() <= usize::MAX,
        ensures
            final(self).wf(),
            final(self).spec_window_offset() == old(self).spec_window_offset(),
            final(self).spec_window_len() == old(self).spec_window_len(),
            forall|j: int|
                0 <= j < final(self).spec_window_len() ==> final(self).spec_phase(j)
                    == old(self).spec_phase(j),
            final(self).spec_received() == old(self).spec_received().update(
                old(self).spec_window_offset() + i,
                old(self).spec_received()[old(self).spec_window_offset() + i] + piece@,
            ),
            final(self).spec_emitted() == old(self).spec_emitted(),
            final(self).spec_permits() == old(self).spec_permits(),
            final(self).spec_bytes_total() == old(self).spec_bytes_total(),
            final(self).spec_chunk_max_len() == old(self).spec_chunk_max_len(),
            final(self).spec_window_max_len() == old(self).spec_window_max_len(),
            final(self).spec_bytes_received() == old(self).spec_bytes_received() + piece@.len(),
            forall|j: int|
                0 <= j < old(self).spec_window_len() ==> final(self).spec_pending_pieces(j)
                    == old(self).spec_pending_pieces(j) + if j == i {
                    1nat
                } else {
                    0nat
                },
    {
        let ghost k = self.window_offset + i;
        let ghost p = piece@;
        let ghost old_received = self.received@;
        let len = piece.len();
        let mut slot = self.window.remove(i);
        let ghost old_pieces = slot.pieces@;
        slot.pieces.push(piece);
        self.window.insert(i, slot);
        self.received = Ghost(old_received.update(k, old_received[k] + p));
        self.bytes_received = self.bytes_received + len;
        proof {
            lemma_joined_push(old_pieces, slot.pieces@.last());
            assert(slot.pieces@ =~= old_pieces.push(slot.pieces@.last()));
            assert(self.window@ =~= old(self).window@.update(i as int, slot));
            lemma_flatten_append_at(old_received, k, p);
            assert(self.received@.take(self.window_offset as int) =~= old_received.take(self.window_offset as int));
            assert forall|j: int|
                0 < j < self.window@.len() implies joined((#[trigger] self.window@[j]).pieces@)
                    == self.received@[self.window_offset + j] by {
                if j != i {
                    assert(self.window@[j] == old(self).window@[j]);
                }
            }
            if i == 0 {
                assert(self.received@[self.window_offset as int] =~= self.front_taken@ + joined(
                    self.window@[0].pieces@,
                ));
            } else {
                assert(self.window@[0] == old(self).window@[0]);
            }
        }
    }

    /// The body of the `i`-th chunk ended. Returns whether the caller releases one of its
    /// permits: it does unless this was its only permit and bytes are still missing.
    pub fn on_finished(&mut self, i: usize) -> (release: bool)
        requires
            old(self).wf(),
            i < old(self).spec_window_len(),
            old(self).spec_phase(i as int) == ChunkPhase::Transferring,
        ensures
            final(self).wf(),
            release == (old(self).spec_permits() > 1 || old(self).spec_bytes_received()
                >= old(self).spec_bytes_total()),
            final(self).spec_permits() == if release && old(self).spec_permits() > 0 {
                (old(self).spec_permits() - 1) as nat
            } else {
                old(self).spec_permits()
            },
            final(self).spec_window_offset() == old(self).spec_window_offset(),
            final(self).spec_window_len() == old(self).spec_window_len(),
            forall|j: int|
                0 <= j < final(self).spec_window_len() ==> final(self).spec_phase(j) == if j
                    == i {
                    ChunkPhase::Finished
                } else {
                    old(self).spec_phase(j)
                },
            final(self).spec_received() == old(self).spec_received(),
            final(self).spec_emitted() == old(self).spec_emitted(),
            final(self).spec_bytes_total() == old(self).spec_bytes_total(),
            final(self).spec_chunk_max_len() == old(self).spec_chunk_max_len(),
            final(self).spec_window_max_len() == old(self).spec_window_max_len(),
            final(self).spec_bytes_received() == old(self).spec_bytes_received(),
            forall|j: int|
                0 <= j < old(self).spec_window_len() ==> final(self).spec_pending_pieces(j)
                    == old(self).spec_pending_pieces(j),
    {
        let mut slot = self.window.remove(i);
        slot.phase = ChunkPhase::Finished;
        self.window.insert(i, slot);
        proof {
            assert(self.window@ =~= old(self).window@.update(i as int, slot));
        }
        let release = self.permits > 1 || self.bytes_received >= self.bytes_total;
        if release && self.permits > 0 {
            self.permits = self.permits - 1;
        }
        release
    }

    /// An error ended the download: everything is released and the stream ends.
    pub fn clear(&mut self)
        requires
            old(self).wf(),
        ensures
            final(self).wf(),
            final(self).spec_bytes_total() == 0,
            final(self).spec_window_offset() == 0,
            final(self).spec_window_len() == 0,
            final(self).spec_permits() == 0,
            final(self).spec_received() == Seq::<Seq<u8>>::empty(),
            final(self).spec_emitted() == Seq::<u8>::empty(),
            final(self).spec_chunk_max_len() == old(self).spec_chunk_max_len(),
            final(self).spec_window_max_len() == old(self).spec_window_max_len(),
    {
        self.bytes_total = 0;
        self.bytes_consumed = 0;
        self.bytes_received = 0;
        self.window_offset = 0;
        self.window = Vec::new();
        self.permits = 0;
        self.launch_budget = 0;
        self.received = Ghost(Seq::empty());
        self.emitted = Ghost(Seq::empty());
        self.front_taken = Ghost(Seq::empty());
        proof {
            assert(Seq::<Seq<u8>>::empty().take(0) =~= Seq::<Seq<u8>>::empty());
        }
    }

    /// Passes on the next bytes: the oldest piece of the front chunk, if any.
    pub fn consume(&mut self) -> (r: ChunkOutput)
        requires
            old(self).wf(),
        ensures
            final(self).wf(),
            final(self).spec_window_offset() == old(self).spec_window_offset(),
            final(self).spec_window_len() == old(self).spec_window_len(),
            forall|j: int|
                0 <= j < final(self).spec_window_len() ==> final(self).spec_phase(j)
                    == old(self).spec_phase(j),
            final(self).spec_received() == old(self).spec_received(),
            final(self).spec_permits() == old(self).spec_permits(),
            final(self).spec_bytes_total() == old(self).spec_bytes_total(),
            final(self).spec_chunk_max_len() == old(self).spec_chunk_max_len(),
            final(self).spec_window_max_len() == old(self).spec_window_max_len(),
            final(self).spec_bytes_received() == old(self).spec_bytes_received(),
            (r is End) == (old(self).spec_window_len() == 0),
            r is Pending ==> final(self).spec_emitted() == old(self).spec_emitted(),
            r is End ==> final(self).spec_emitted() == old(self).spec_emitted(),
            r matches ChunkOutput::Bytes(b) ==> final(self).spec_emitted() == old(self).spec_emitted()
                + b@,
            (r is Pending) == (old(self).spec_window_len() > 0 && (old(self).spec_phase(0)
                == ChunkPhase::Connecting || old(self).spec_pending_pieces(0) == 0)),
            r is Bytes ==> final(self).spec_pending_pieces(0) == old(self).spec_pending_pieces(0) - 1,
            !(r is Bytes) ==> forall|j: int|
                0 <= j < final(self).spec_window_len() ==> final(self).spec_pending_pieces(j)
                    == old(self).spec_pending_pieces(j),
            forall|j: int|
                0 < j < final(self).spec_window_len() ==> final(self).spec_pending_pieces(j)
                    == old(self).spec_pending_pieces(j),
            final(self).spec_launch_budget() == old(self).spec_launch_budget(),
    {
        if self.window.len() == 0 {
            return ChunkOutput::End;
        }
        if self.window[0].phase == ChunkPhase::Connecting || self.window[0].pieces.len() == 0 {
            return ChunkOutput::Pending;
        }
        let ghost off = self.window_offset as int;
        let mut slot = self.window.remove(0);
        let ghost old_pieces = slot.pieces@;
        let piece = slot.pieces.remove(0);
        self.window.insert(0, slot);
        proof {
            lemma_joined_drop_first(old_pieces);
            assert(slot.pieces@ =~= old_pieces.drop_first());
            assert(self.window@ =~= old(self).window@.update(0, slot));
            lemma_flatten_take_len(self.received@, off + 1);
            assert(self.received@.take(off + 1) =~= self.received@.take(off).push(self.received@[off]));
            self.received@.take(off).lemma_flatten_push(self.received@[off]);
            assert(self.emitted@.len() + piece@.len() <= self.received@.flatten().len());
        }
        self.front_taken = Ghost(self.front_taken@ + piece@);
        self.emitted = Ghost(self.emitted@ + piece@);
        self.bytes_consumed = self.bytes_consumed + piece.len();
        proof {
            assert(self.received@[off] =~= self.front_taken@ + joined(self.window@[0].pieces@));
            assert(self.emitted@ =~= self.received@.take(off).flatten() + self.front_taken@);
            assert forall|j: int|
                0 < j < self.window@.len() implies joined((#[trigger] self.window@[j]).pieces@)
                    == self.received@[self.window_offset + j] by {
                assert(self.window@[j] == old(self).window@[j]);
            }
        }
        ChunkOutput::Bytes(piece)
    }
}

/// Consecutive chunks tile the download: each but the last holds `chunk` bytes and ends
/// where the next begins; the last ends at `total`; none is empty.
pub proof fn law_chunk_ranges_tile(total: nat, chunk: nat, k: nat)
    requires
        chunk > 0,
        k < chunks_total(total, chunk),
    ensures
        chunk_range(total, chunk, k).1 >= 1,
        k + 1 < chunks_total(total, chunk) ==> chunk_range(total, chunk, k).1 == chunk
            && chunk_range(total, chunk, k).0 + chunk_range(total, chunk, k).1 == chunk_range(
            total,
            chunk,
            k + 1,
        ).0,
        k + 1 == chunks_total(total, chunk) ==> chunk_range(total, chunk, k).0 + chunk_range(
            total,
            chunk,
            k,
        ).1 == total,
{
    lemma_chunk_offset_in_range(k, total, chunk);
    assert((k + 1) * chunk == k * chunk + chunk) by (nonlinear_arith);
    if k + 1 < chunks_total(total, chunk) {
        lemma_chunk_offset_in_range(k + 1, total, chunk);
    } else {
        vstd::arithmetic::div_mod::lemma_fundamental_div_mod(total as int, chunk as int);
        if total % chunk == 0 {
            assert(total - k * chunk == chunk) by (nonlinear_arith)
                requires
                    k + 1 == total / chunk,
                    total == chunk * (total / chunk) + total % chunk,
                    total % chunk == 0,
            ;
        } else {
            assert(k == total / chunk);
            vstd::arithmetic::mul::lemma_mul_is_commutative(k as int, chunk as int);
            assert(total == k * chunk + total % chunk);
            assert(total % chunk < chunk);
        }
    }
}

/// A launch requests the next chunk not yet requested. The chunks requested so far are
/// those before `window_offset + window_len` (the first one by the initial request), so
/// the launched index `k` is never 0, lies before the last chunk's end and within
/// `window_max_len` of the oldest chunk not passed on, and its range starts at `k` chunk
/// lengths and holds the rest of the file, at most one chunk length. A launch raises that
/// count by one and no other step lowers it but `clear`, after which nothing more is
/// requested; so each chunk is requested at most once, in increasing order.
pub proof fn law_launch_requests_next_chunk(s: &ChunkSchedule)
    requires
        s.wf(),
        s.spec_can_launch(),
    ensures
        ({
            let k = s.spec_window_offset() + s.spec_window_len();
            let c = s.spec_chunk_max_len();
            let t = s.spec_bytes_total();
            &&& 1 <= k < s.spec_chunks_total()
            &&& k < s.spec_window_offset() + s.spec_window_max_len()
            &&& k * c < t
            &&& chunk_range(t, c, k).0 == k * c
            &&& chunk_range(t, c, k).1 == if t - k * c < c {
                (t - k * c) as nat
            } else {
                c
            }
        }),
{
    let k = s.spec_window_offset() + s.spec_window_len();
    lemma_chunk_offset_in_range(k, s.spec_bytes_total(), s.spec_chunk_max_len());
}

proof fn lemma_flatten_len_bound(s: Seq<Seq<u8>>, c: nat)
    requires
        forall|k: int| 0 <= k < s.len() ==> (#[trigger] s[k]).len() <= c,
    ensures
        s.flatten().len() <= s.len() * c,
        (forall|k: int| 0 <= k < s.len() ==> (#[trigger] s[k]).len() == c) ==> s.flatten().len()
            == s.len() * c,
    decreases s.len(),
{
    if s.len() > 0 {
        let t = s.drop_first();
        assert forall|k: int| 0 <= k < t.len() implies (#[trigger] t[k]).len() <= c by {
            assert(t[k] == s[k + 1]);
        }
        lemma_flatten_len_bound(t, c);
        assert(s.flatten() == s[0] + t.flatten());
        assert((t.len() + 1) * c == t.len() * c + c) by (nonlinear_arith);
        if forall|k: int| 0 <= k < s.len() ==> (#[trigger] s[k]).len() == c {
            assert forall|k: int| 0 <= k < t.len() implies (#[trigger] t[k]).len() == c by {
                assert(t[k] == s[k + 1]);
            }
        }
    }
}

/// The stream never ends early. When the window is empty and no chunk received more than
/// a chunk length (the bodies are cut at their ranges), either chunks remain to request and
/// a permit is still held, so that the next round of launches starts one (`begin_launches`
/// then gives a budget of at least one and `next_launch` answers `Launch`), or every chunk
/// was requested and all their bytes were passed on, in order.
pub proof fn law_empty_window_launches(s: &ChunkSchedule)
    requires
        s.wf(),
        s.spec_window_len() == 0,
        forall|k: int|
            0 <= k < s.spec_received().len() ==> (#[trigger] s.spec_received()[k]).len()
                <= s.spec_chunk_max_len(),
    ensures
        s.spec_can_launch() ==> s.spec_permits() >= 1 && s.spec_running_in(0) == 0,
        !s.spec_can_launch() ==> s.spec_window_offset() == s.spec_chunks_total()
            && s.spec_emitted() == s.spec_received().flatten(),
{
    let n = s.spec_window_offset();
    let c = s.spec_chunk_max_len();
    if s.spec_can_launch() {
        assert forall|k: int| 0 <= k < s.received@.len() implies (#[trigger] s.received@[k]).len()
            <= c by {
            assert(s.spec_received()[k].len() <= s.spec_chunk_max_len());
        }
        lemma_flatten_len_bound(s.received@, c);
        lemma_chunk_offset_in_range(n, s.spec_bytes_total(), c);
        assert(s.spec_bytes_total() > 0);
    } else {
        law_end_delivers_all_chunks(s);
    }
}

/// When chunk `k = window_offset + window_len` is launched and the chunks already passed on
/// each held a full chunk length (as every chunk but the last does), at least
/// `(k + 1 - window_max_len)` chunk lengths of bytes were already passed on: no more than
/// `window_max_len` chunks are ever requested ahead of what was delivered.
pub proof fn law_launch_follows_passed_chunks(s: &ChunkSchedule)
    requires
        s.wf(),
        s.spec_can_launch(),
        forall|k: int|
            0 <= k < s.spec_window_offset() ==> (#[trigger] s.spec_received()[k]).len()
                == s.spec_chunk_max_len(),
    ensures
        s.spec_emitted().len() >= (s.spec_window_offset() + s.spec_window_len() + 1
            - s.spec_window_max_len()) * s.spec_chunk_max_len(),
{
    let off = s.window_offset as int;
    let c = s.spec_chunk_max_len();
    let passed = s.received@.take(off);
    assert forall|k: int| 0 <= k < passed.len() implies (#[trigger] passed[k]).len() == c by {
        assert(passed[k] == s.received@[k]);
        assert(s.spec_received()[k].len() == s.spec_chunk_max_len());
    }
    lemma_flatten_len_bound(passed, c);
    let k1 = s.spec_window_offset() + s.spec_window_len() + 1 - s.spec_window_max_len();
    assert(k1 <= off);
    assert(k1 * c <= off * c) by (nonlinear_arith)
        requires
            k1 <= off,
            c >= 0,
    ;
}

/// What was passed on is always the beginning of the received bytes taken in chunk order.
pub proof fn law_emitted_is_prefix_of_received(s: &ChunkSchedule)
    requires
        s.wf(),
    ensures
        s.spec_emitted().len() <= s.spec_received().flatten().len(),
        s.spec_received().flatten().subrange(0, s.spec_emitted().len() as int)
            == s.spec_emitted(),
{
    let r = s.received@;
    let off = s.window_offset as int;
    assert(r =~= r.take(off) + r.skip(off));
    vstd::seq_lib::lemma_flatten_concat(r.take(off), r.skip(off));
    if s.window@.len() > 0 {
        assert(r.skip(off) =~= seq![r[off]] + r.skip(off + 1));
        vstd::seq_lib::lemma_flatten_concat(seq![r[off]], r.skip(off + 1));
        seq![r[off]].lemma_flatten_singleton();
        let tail = joined(s.window@[0].pieces@) + r.skip(off + 1).flatten();
        assert(r.flatten() =~= s.emitted@ + tail);
    } else {
        assert(r.skip(off) =~= Seq::<Seq<u8>>::empty());
        assert(r.flatten() =~= s.emitted@);
    }
}

/// When the window is empty and no chunk may start, every chunk was received and passed
/// on: the output is the bodies of all chunks, in chunk order.
pub proof fn law_end_delivers_all_chunks(s: &ChunkSchedule)
    requires
        s.wf(),
        s.spec_window_len() == 0,
        !s.spec_can_launch(),
    ensures
        s.spec_window_offset() == s.spec_chunks_total(),
        s.spec_received().len() == s.spec_chunks_total(),
        s.spec_emitted() == s.spec_received().flatten(),
{
    assert(s.received@.take(s.window_offset as int) =~= s.received@);
    assert(s.emitted@ =~= s.received@.flatten());
}

/// No more than `window_max_len` chunks are ever in flight or waiting to be passed on.
pub proof fn law_window_is_bounded(s: &ChunkSchedule)
    requires
        s.wf(),
    ensures
        s.spec_window_len() <= s.spec_window_max_len(),
        s.spec_window_offset() + s.spec_window_len() <= s.spec_chunks_total(),
{
}

/// After an error clears the schedule, no chunk may start and the stream ends.
pub proof fn law_cleared_schedule_ends(s: &ChunkSchedule)
    requires
        s.wf(),
        s.spec_bytes_total() == 0,
        s.spec_window_len() == 0,
    ensures
        !s.spec_can_launch(),
        s.spec_chunks_total() == 0,
{
}

} // verus!
