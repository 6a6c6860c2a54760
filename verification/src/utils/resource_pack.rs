//! Bookkeeping for downloading the resource packs a server offers.
//!
//! The server announces its packs (ResourcePacksInfo); packs with a CDN url are
//! fetched over HTTP, the others are asked for over the game connection and
//! arrive as a data-info message followed by chunks. Chunks are requested in a
//! sliding window of `CHUNK_WINDOW` and may arrive out of order; a pack is
//! complete once as many chunks as it has arrived. Whether downloading is
//! enabled is passed in by the caller on each event.

use vstd::prelude::*;
use vstd::hash_map::StringHashMap;
use vstd::slice::slice_to_vec;
use vstd::string::{StrSliceExecFns, StringExecFns};
use crate::wire::put_zeros;
use crate::utils::text::{
    before_underscore, blank, first_segment, is_blank, pack_file, spec_pack_file,
};

verus! {

/// How many chunk requests are kept in flight per pack.
pub const CHUNK_WINDOW: u32 = 8;

/// A pack that is served over HTTP instead of the game connection.
pub struct CdnPack {
    pub uuid: String,
    pub version: String,
    /// Encryption key announced by the server (empty means the pack is not encrypted).
    pub key: String,
    pub url: String,
    pub size: u64,
}

pub struct CdnPackView {
    pub uuid: Seq<char>,
    pub version: Seq<char>,
    pub key: Seq<char>,
    pub url: Seq<char>,
    pub size: u64,
}

impl View for CdnPack {
    type V = CdnPackView;

    open spec fn view(&self) -> CdnPackView {
        CdnPackView {
            uuid: self.uuid@,
            version: self.version@,
            key: self.key@,
            url: self.url@,
            size: self.size,
        }
    }
}

/// What ResourcePacksInfo said of one pack.
struct Announced {
    version: String,
    key: String,
    size: u64,
}

pub struct AnnouncedView {
    pub version: Seq<char>,
    pub key: Seq<char>,
    pub size: u64,
}

/// Download state of a single pack that is streamed in chunks.
struct Pending {
    pack_id: String,
    uuid: String,
    version: String,
    key: String,
    buf: Vec<u8>,
    chunk_count: u32,
    /// Lowest chunk index that has not been requested yet.
    next_chunk: u32,
    /// How many chunks have actually arrived.
    received: u32,
    max_chunk_size: u32,
    expected_sha: Vec<u8>,
    expected_size: u64,
}

pub struct PendingView {
    pub pack_id: Seq<char>,
    pub uuid: Seq<char>,
    pub version: Seq<char>,
    pub key: Seq<char>,
    pub buf: Seq<u8>,
    pub chunk_count: u32,
    pub next_chunk: u32,
    pub received: u32,
    pub max_chunk_size: u32,
    pub expected_sha: Seq<u8>,
    pub expected_size: u64,
}

/// A pack whose every chunk has arrived, waiting to be checked and written out.
pub struct CompletedPack {
    pub uuid: String,
    pub version: String,
    pub key: String,
    pub data: Vec<u8>,
    /// The SHA-256 digest the server announced (empty when it announced none).
    pub expected_sha: Vec<u8>,
    /// The size the server announced (0 when it announced none).
    pub expected_size: u64,
}

pub struct CompletedView {
    pub uuid: Seq<char>,
    pub version: Seq<char>,
    pub key: Seq<char>,
    pub data: Seq<u8>,
    pub expected_sha: Seq<u8>,
    pub expected_size: u64,
}

impl View for CompletedPack {
    type V = CompletedView;

    open spec fn view(&self) -> CompletedView {
        CompletedView {
            uuid: self.uuid@,
            version: self.version@,
            key: self.key@,
            data: self.data@,
            expected_sha: self.expected_sha@,
            expected_size: self.expected_size,
        }
    }
}

pub struct PackDownloader {
    /// Taken from ResourcePacksInfo: uuid -> version, encryption key, size.
    announced: StringHashMap<Announced>,
    /// Packs being streamed, at most one entry per pack id.
    active: Vec<Pending>,
    /// Packs that have to be fetched over HTTP, drained by `take_cdn`.
    cdn: Vec<CdnPack>,
    /// Packs that are complete, drained by `take_completed`.
    completed: Vec<CompletedPack>,
    /// How many chunk-streamed packs are still expected.
    remaining: usize,
    pub finished: usize,
    pub failed: usize,
    /// Packs that were already on disk and therefore not downloaded again.
    pub cached: usize,
}

/// The state of a downloader.
pub struct DownloaderView {
    pub announced: Map<Seq<char>, AnnouncedView>,
    pub active: Seq<PendingView>,
    pub cdn: Seq<CdnPackView>,
    pub completed: Seq<CompletedView>,
    pub remaining: nat,
    pub finished: nat,
    pub failed: nat,
    pub cached: nat,
}

spec fn announced_view(a: Announced) -> AnnouncedView {
    AnnouncedView { version: a.version@, key: a.key@, size: a.size }
}

spec fn pending_view(p: Pending) -> PendingView {
    PendingView {
        pack_id: p.pack_id@,
        uuid: p.uuid@,
        version: p.version@,
        key: p.key@,
        buf: p.buf@,
        chunk_count: p.chunk_count,
        next_chunk: p.next_chunk,
        received: p.received,
        max_chunk_size: p.max_chunk_size,
        expected_sha: p.expected_sha@,
        expected_size: p.expected_size,
    }
}


/// The downloader with nothing announced, pending or counted.
pub open spec fn empty_view() -> DownloaderView {
    DownloaderView {
        announced: Map::empty(),
        active: Seq::empty(),
        cdn: Seq::empty(),
        completed: Seq::empty(),
        remaining: 0,
        finished: 0,
        failed: 0,
        cached: 0,
    }
}

/// Index of the entry for `pack_id` among the streamed packs (the last one,
/// should there be several), or -1.
pub open spec fn pending_index(s: Seq<PendingView>, pack_id: Seq<char>) -> int
    decreases s.len(),
{
    if s.len() == 0 {
        -1
    } else if s.last().pack_id == pack_id {
        s.len() - 1
    } else {
        pending_index(s.drop_last(), pack_id)
    }
}

/// One announced pack: uuid, version, encryption key, size and CDN url.
pub type PackInfo = (String, String, String, u64, String);

/// What ResourcePacksInfo leaves announced: each uuid with the version, key
/// and size of its last entry.
pub open spec fn announce_packs(packs: Seq<PackInfo>) -> Map<Seq<char>, AnnouncedView>
    decreases packs.len(),
{
    if packs.len() == 0 {
        Map::empty()
    } else {
        let p = packs.last();
        announce_packs(packs.drop_last()).insert(
            p.0@,
            AnnouncedView { version: p.1@, key: p.2@, size: p.3 },
        )
    }
}

/// The packs to fetch over HTTP: those not on disk that carry a CDN url, in order.
pub open spec fn cdn_packs(packs: Seq<PackInfo>, cached: Seq<bool>) -> Seq<CdnPackView>
    decreases packs.len(),
{
    if packs.len() == 0 {
        Seq::empty()
    } else {
        let n = packs.len() - 1;
        let p = packs.last();
        let rest = cdn_packs(packs.drop_last(), cached);
        if !cached[n] && !is_blank(p.4@) {
            rest.push(CdnPackView { uuid: p.0@, version: p.1@, key: p.2@, url: p.4@, size: p.3 })
        } else {
            rest
        }
    }
}

/// The ids to ask for over the game connection: `uuid_version` of each pack
/// not on disk that has no CDN url, in order.
pub open spec fn wanted_ids(packs: Seq<PackInfo>, cached: Seq<bool>) -> Seq<Seq<char>>
    decreases packs.len(),
{
    if packs.len() == 0 {
        Seq::empty()
    } else {
        let n = packs.len() - 1;
        let p = packs.last();
        let rest = wanted_ids(packs.drop_last(), cached);
        if !cached[n] && is_blank(p.4@) {
            rest.push(p.0@ + seq!['_'] + p.1@)
        } else {
            rest
        }
    }
}

/// How many of the first `n` packs are already on disk.
pub open spec fn count_cached(cached: Seq<bool>, n: nat) -> nat
    decreases n,
{
    if n == 0 {
        0
    } else {
        count_cached(cached, (n - 1) as nat) + if cached[n - 1] { 1nat } else { 0nat }
    }
}

/// How many chunks a pack has: the announced count, or more when the
/// announced size needs more chunks of the announced size (that count kept
/// to 32 bits).
pub open spec fn chunk_total(chunk_count: u32, max_chunk_size: u32, compressed_size: u64) -> u32 {
    let calculated = ((compressed_size + max_chunk_size - 1) / (max_chunk_size as int)) % 0x1_0000_0000;
    if chunk_count >= calculated { chunk_count } else { calculated as u32 }
}

/// How many chunks are asked for at once when a pack starts.
pub open spec fn first_window(total: u32) -> u32 {
    if total < CHUNK_WINDOW { total } else { CHUNK_WINDOW }
}

/// `b` with `d` written at offset `off`, zero-filled where it grows past its end.
pub open spec fn write_at(b: Seq<u8>, off: nat, d: Seq<u8>) -> Seq<u8> {
    let n = if b.len() < off + d.len() { off + d.len() } else { b.len() };
    Seq::new(
        n,
        |j: int|
            if off <= j < off + d.len() {
                d[j - off]
            } else if j < b.len() {
                b[j]
            } else {
                0u8
            },
    )
}

/// The downloader's invariant: every pack being streamed has asked for no
/// chunk index at or past its chunk count, has at most `CHUNK_WINDOW`
/// requests in flight (asked for, not yet arrived), and has one entry only.
pub open spec fn downloader_valid(v: DownloaderView) -> bool {
    &&& forall|i: int| 0 <= i < v.active.len() ==> #[trigger] v.active[i].next_chunk <= v.active[i].chunk_count
    &&& forall|i: int|
        0 <= i < v.active.len() ==> #[trigger] v.active[i].next_chunk <= v.active[i].received + CHUNK_WINDOW
    &&& pack_ids_unique(v.active)
}

/// No two streamed packs have the same pack id.
pub open spec fn pack_ids_unique(s: Seq<PendingView>) -> bool {
    forall|i: int, j: int| 0 <= i < j < s.len() ==> #[trigger] s[i].pack_id != #[trigger] s[j].pack_id
}

/// A pack id without an entry is held by no streamed pack.
pub proof fn lemma_pending_index_absent(s: Seq<PendingView>, pack_id: Seq<char>)
    ensures
        pending_index(s, pack_id) < 0 ==> forall|k: int| 0 <= k < s.len() ==> #[trigger] s[k].pack_id != pack_id,
    decreases s.len(),
{
    if s.len() > 0 {
        lemma_pending_index_absent(s.drop_last(), pack_id);
        assert forall|k: int| 0 <= k < s.len() - 1 implies #[trigger] s[k] == s.drop_last()[k] by {}
    }
}

/// What became of a pack when one of its chunks arrived.
#[derive(Clone, Copy, Debug, PartialEq, Eq, Structural)]
pub enum ChunkOutcome {
    /// The pack is not being streamed: the chunk is ignored.
    Ignored,
    /// Ask for this chunk next.
    Request(u32),
    /// Every chunk has been asked for; some are still on their way.
    Waiting,
    /// Every chunk has arrived: the pack is complete.
    Complete,
}

/// The downloader after a chunk of `pack_id` arrives with `data` at
/// `offset`, and what became of the pack. For an unknown pack nothing
/// changes; else the data is written at its offset and counted, and the
/// next chunk not yet requested is asked for; when none is left and every
/// chunk has arrived, the pack is complete: it moves to the completed ones
/// and one fewer pack is expected.
pub open spec fn after_chunk(o: DownloaderView, pack_id: Seq<char>, offset: u64, data: Seq<u8>) -> (
    DownloaderView,
    ChunkOutcome,
) {
    let i = pending_index(o.active, pack_id);
    if i < 0 {
        (o, ChunkOutcome::Ignored)
    } else {
        let p = o.active[i];
        let q = PendingView { buf: write_at(p.buf, offset as nat, data), received: (p.received + 1) as u32, ..p };
        if p.next_chunk < p.chunk_count {
            (
                DownloaderView {
                    active: o.active.update(i, PendingView { next_chunk: (p.next_chunk + 1) as u32, ..q }),
                    ..o
                },
                ChunkOutcome::Request(p.next_chunk),
            )
        } else if q.received < p.chunk_count {
            (DownloaderView { active: o.active.update(i, q), ..o }, ChunkOutcome::Waiting)
        } else {
            (
                DownloaderView {
                    active: o.active.remove(i),
                    remaining: if o.remaining > 0 { (o.remaining - 1) as nat } else { 0 },
                    completed: o.completed.push(
                        CompletedView {
                            uuid: q.uuid,
                            version: q.version,
                            key: q.key,
                            data: q.buf,
                            expected_sha: q.expected_sha,
                            expected_size: q.expected_size,
                        },
                    ),
                    ..o
                },
                ChunkOutcome::Complete,
            )
        }
    }
}

/// The downloader after a pack list, with downloads on: the list replaces
/// the announced packs, the CDN queue and the counts.
pub open spec fn after_info(o: DownloaderView, packs: Seq<PackInfo>, cached: Seq<bool>) -> DownloaderView {
    DownloaderView {
        announced: announce_packs(packs),
        cdn: cdn_packs(packs, cached),
        cached: count_cached(cached, packs.len()),
        remaining: wanted_ids(packs, cached).len(),
        ..o
    }
}

/// The downloader after its CDN queue is taken, and the packs taken.
pub open spec fn after_take_cdn(o: DownloaderView) -> (DownloaderView, Seq<CdnPackView>) {
    (DownloaderView { cdn: Seq::empty(), ..o }, o.cdn)
}

/// After a pack list, taking the CDN queue gives that list's packs that are
/// not on disk and have a url that is not blank, in list order, whatever was
/// queued before; taking it again gives nothing.
pub proof fn lemma_take_cdn_after_info(o: DownloaderView, packs: Seq<PackInfo>, cached: Seq<bool>)
    ensures
        after_take_cdn(after_info(o, packs, cached)).1 == cdn_packs(packs, cached),
        after_take_cdn(after_take_cdn(after_info(o, packs, cached)).0).1 == Seq::<CdnPackView>::empty(),
        forall|i: int|
            0 <= i < after_take_cdn(after_info(o, packs, cached)).1.len() ==> !is_blank(
                #[trigger] after_take_cdn(after_info(o, packs, cached)).1[i].url,
            ),
{
    lemma_cdn_packs_have_urls(packs, cached);
}

/// Every pack of the CDN queue has a url that is not blank.
proof fn lemma_cdn_packs_have_urls(packs: Seq<PackInfo>, cached: Seq<bool>)
    ensures
        forall|i: int| 0 <= i < cdn_packs(packs, cached).len() ==> !is_blank(#[trigger] cdn_packs(packs, cached)[i].url),
    decreases packs.len(),
{
    if packs.len() > 0 {
        let rest = cdn_packs(packs.drop_last(), cached);
        lemma_cdn_packs_have_urls(packs.drop_last(), cached);
        assert forall|i: int| 0 <= i < cdn_packs(packs, cached).len() implies !is_blank(
            #[trigger] cdn_packs(packs, cached)[i].url,
        ) by {
            if i < rest.len() {
                assert(cdn_packs(packs, cached)[i] == rest[i]);
            }
        }
    }
}

/// A chunk of a streamed pack leaves it complete exactly when the pack has
/// left the streamed packs and joined the completed ones; while a chunk is
/// requested or waited for, the pack stays streamed.
pub proof fn lemma_chunk_complete(o: DownloaderView, pack_id: Seq<char>, offset: u64, data: Seq<u8>)
    requires
        downloader_valid(o),
        pending_index(o.active, pack_id) >= 0,
    ensures
        ({
            let (d, r) = after_chunk(o, pack_id, offset, data);
            &&& r != ChunkOutcome::Ignored
            &&& r == ChunkOutcome::Complete <==> pending_index(d.active, pack_id) < 0
            &&& r == ChunkOutcome::Complete ==> d.completed.len() == o.completed.len() + 1
                && d.completed.last().uuid == o.active[pending_index(o.active, pack_id)].uuid
            &&& r != ChunkOutcome::Complete ==> d.completed == o.completed
        }),
{
    let i = pending_index(o.active, pack_id);
    lemma_pending_index_range(o.active, pack_id);
    let (d, r) = after_chunk(o, pack_id, offset, data);
    if r == ChunkOutcome::Complete {
        let s = d.active;
        assert(s =~= o.active.remove(i));
        assert forall|k: int| 0 <= k < s.len() implies #[trigger] s[k].pack_id != pack_id by {
            if k < i {
                assert(s[k] == o.active[k]);
                assert(o.active[k].pack_id != o.active[i].pack_id);
            } else {
                assert(s[k] == o.active[k + 1]);
                assert(o.active[i].pack_id != o.active[k + 1].pack_id);
            }
        }
        lemma_pending_index_range(s, pack_id);
    } else {
        lemma_pending_index_range(d.active, pack_id);
        assert(d.active[i].pack_id == pack_id);
        lemma_pending_index_absent(d.active, pack_id);
    }
}

/// Every pack streamed over the connection has been handled: none is in
/// flight and none is still expected.
pub open spec fn is_done(d: DownloaderView) -> bool {
    d.active.len() == 0 && d.remaining == 0
}

/// The downloader only becomes done when a chunk completes a pack: a chunk
/// that asks for more, waits, or is ignored leaves an unfinished downloader
/// unfinished, and a pack being streamed after its data info keeps it
/// unfinished.
pub proof fn lemma_done_only_by_completion(o: DownloaderView, pack_id: Seq<char>, offset: u64, data: Seq<u8>)
    ensures
        !is_done(o) && is_done(after_chunk(o, pack_id, offset, data).0) ==> after_chunk(
            o,
            pack_id,
            offset,
            data,
        ).1 == ChunkOutcome::Complete,
{
    lemma_pending_index_range(o.active, pack_id);
}

/// Once its data info has started a pack, the downloader is not done.
pub proof fn lemma_data_info_not_done(
    o: DownloaderView,
    pack_id: Seq<char>,
    chunk_count: u32,
    max_chunk_size: u32,
    compressed_size: u64,
    sha256: Seq<u8>,
)
    ensures
        !is_done(after_data_info(o, true, pack_id, chunk_count, max_chunk_size, compressed_size, sha256).0),
{
    lemma_pending_index_range(o.active, pack_id);
}

/// Completing the last pack expected, with no other in flight, makes the
/// downloader done.
pub proof fn lemma_last_completion_done(o: DownloaderView, pack_id: Seq<char>, offset: u64, data: Seq<u8>)
    requires
        o.active.len() == 1,
        o.remaining <= 1,
        after_chunk(o, pack_id, offset, data).1 == ChunkOutcome::Complete,
    ensures
        is_done(after_chunk(o, pack_id, offset, data).0),
{
    lemma_pending_index_range(o.active, pack_id);
}

/// The chunks of `pack_id` arriving one after the other, each with its
/// offset and data: the downloader after them, and the chunk indices they
/// asked for, in order.
pub open spec fn chunk_run(o: DownloaderView, pack_id: Seq<char>, chunks: Seq<(u64, Seq<u8>)>) -> (
    DownloaderView,
    Seq<u32>,
)
    decreases chunks.len(),
{
    if chunks.len() == 0 {
        (o, Seq::empty())
    } else {
        let (d0, rs) = chunk_run(o, pack_id, chunks.drop_last());
        let (d1, r) = after_chunk(d0, pack_id, chunks.last().0, chunks.last().1);
        (
            d1,
            match r {
                ChunkOutcome::Request(i) => rs.push(i),
                _ => rs,
            },
        )
    }
}

/// The pack is still being streamed before each of the chunks arrives.
pub open spec fn streamed_throughout(o: DownloaderView, pack_id: Seq<char>, chunks: Seq<(u64, Seq<u8>)>) -> bool {
    forall|j: int|
        0 <= j < chunks.len() ==> pending_index(#[trigger] chunk_run(o, pack_id, chunks.take(j)).0.active, pack_id)
            >= 0
}

proof fn lemma_pending_index_update(s: Seq<PendingView>, pack_id: Seq<char>, q: PendingView)
    requires
        pending_index(s, pack_id) >= 0,
        q.pack_id == pack_id,
    ensures
        pending_index(s.update(pending_index(s, pack_id), q), pack_id) == pending_index(s, pack_id),
    decreases s.len(),
{
    lemma_pending_index_range(s, pack_id);
    let i = pending_index(s, pack_id);
    let u = s.update(i, q);
    if s.last().pack_id == pack_id {
        assert(i == s.len() - 1);
        assert(u.last() == q);
        assert(u.len() == s.len());
    } else {
        assert(i == pending_index(s.drop_last(), pack_id));
        lemma_pending_index_range(s.drop_last(), pack_id);
        lemma_pending_index_update(s.drop_last(), pack_id, q);
        assert(u.drop_last() =~= s.drop_last().update(i, q));
        assert(u.last() == s.last());
    }
}

proof fn lemma_after_chunk_unique(o: DownloaderView, pack_id: Seq<char>, offset: u64, data: Seq<u8>)
    requires
        pack_ids_unique(o.active),
    ensures
        pack_ids_unique(after_chunk(o, pack_id, offset, data).0.active),
        after_chunk(o, pack_id, offset, data).1 == ChunkOutcome::Complete ==> pending_index(
            after_chunk(o, pack_id, offset, data).0.active,
            pack_id,
        ) < 0,
{
    lemma_pending_index_range(o.active, pack_id);
    let i = pending_index(o.active, pack_id);
    let (d, r) = after_chunk(o, pack_id, offset, data);
    if i >= 0 {
        let s = d.active;
        if r == ChunkOutcome::Complete {
            assert(s =~= o.active.remove(i));
            assert forall|a: int, b: int| 0 <= a < b < s.len() implies #[trigger] s[a].pack_id
                != #[trigger] s[b].pack_id by {
                let a2 = if a < i { a } else { a + 1 };
                let b2 = if b < i { b } else { b + 1 };
                assert(s[a] == o.active[a2] && s[b] == o.active[b2]);
            }
            assert forall|k: int| 0 <= k < s.len() implies #[trigger] s[k].pack_id != pack_id by {
                let k2 = if k < i { k } else { k + 1 };
                assert(s[k] == o.active[k2]);
                assert(o.active[k2].pack_id != o.active[i].pack_id);
            }
            lemma_pending_index_range(s, pack_id);
        } else {
            assert forall|a: int, b: int| 0 <= a < b < s.len() implies #[trigger] s[a].pack_id
                != #[trigger] s[b].pack_id by {
                assert(s[a].pack_id == o.active[a].pack_id && s[b].pack_id == o.active[b].pack_id);
            }
        }
    }
}

proof fn lemma_chunk_run_requests(
    o: DownloaderView,
    pack_id: Seq<char>,
    chunks: Seq<(u64, Seq<u8>)>,
    n: u32,
    w: u32,
)
    requires
        pack_ids_unique(o.active),
        pending_index(o.active, pack_id) >= 0,
        o.active[pending_index(o.active, pack_id)].chunk_count == n,
        o.active[pending_index(o.active, pack_id)].next_chunk == w,
        w <= n,
        streamed_throughout(o, pack_id, chunks),
    ensures
        ({
            let (d, rs) = chunk_run(o, pack_id, chunks);
            let top = if w + chunks.len() <= n { w + chunks.len() } else { n as int };
            &&& rs == Seq::new((top - w) as nat, |k: int| (w + k) as u32)
            &&& pending_index(d.active, pack_id) >= 0 ==> d.active[pending_index(d.active, pack_id)].next_chunk
                == top && d.active[pending_index(d.active, pack_id)].chunk_count == n
            &&& pack_ids_unique(d.active)
        }),
    decreases chunks.len(),
{
    lemma_pending_index_range(o.active, pack_id);
    if chunks.len() == 0 {
        assert(Seq::new(0nat, |k: int| (w + k) as u32) =~= Seq::<u32>::empty());
    } else {
        let prefix = chunks.drop_last();
        assert forall|j: int| 0 <= j < prefix.len() implies pending_index(
            #[trigger] chunk_run(o, pack_id, prefix.take(j)).0.active,
            pack_id,
        ) >= 0 by {
            assert(prefix.take(j) =~= chunks.take(j));
        }
        lemma_chunk_run_requests(o, pack_id, prefix, n, w);
        let (d0, rs0) = chunk_run(o, pack_id, prefix);
        assert(chunks.take(prefix.len() as int) =~= prefix);
        assert(pending_index(d0.active, pack_id) >= 0);
        let i = pending_index(d0.active, pack_id);
        lemma_pending_index_range(d0.active, pack_id);
        let p = d0.active[i];
        let (d1, r) = after_chunk(d0, pack_id, chunks.last().0, chunks.last().1);
        lemma_after_chunk_unique(d0, pack_id, chunks.last().0, chunks.last().1);
        let top0 = if w + prefix.len() <= n { w + prefix.len() } else { n as int };
        let top = if w + chunks.len() <= n { w + chunks.len() } else { n as int };
        assert(chunk_run(o, pack_id, chunks).0 == d1);
        assert(p.next_chunk == top0 && p.chunk_count == n);
        if p.next_chunk < p.chunk_count {
            assert(r == ChunkOutcome::Request(p.next_chunk));
            assert(Seq::new((top - w) as nat, |k: int| (w + k) as u32) =~= rs0.push(p.next_chunk));
            let q = PendingView {
                buf: write_at(p.buf, chunks.last().0 as nat, chunks.last().1),
                received: (p.received + 1) as u32,
                next_chunk: (p.next_chunk + 1) as u32,
                ..p
            };
            lemma_pending_index_update(d0.active, pack_id, q);
            assert(chunk_run(o, pack_id, chunks).1 == rs0.push(p.next_chunk));
            assert(d1.active == d0.active.update(i, q));
            assert(d1.active[i] == q);
        } else {
            assert(top == top0);
            assert(chunk_run(o, pack_id, chunks).1 == rs0);
            let q = PendingView {
                buf: write_at(p.buf, chunks.last().0 as nat, chunks.last().1),
                received: (p.received + 1) as u32,
                ..p
            };
            if q.received < p.chunk_count {
                lemma_pending_index_update(d0.active, pack_id, q);
                assert(d1.active == d0.active.update(i, q));
                assert(d1.active[i] == q);
            } else {
                if pending_index(d1.active, pack_id) >= 0 {
                    lemma_pending_index_range(d1.active, pack_id);
                }
            }
        }
    }
}

/// A pack's chunks are each asked for once, in increasing order, and none
/// at or past the pack's chunk count: the first window from its data info,
/// then one more for each chunk that arrives while the pack is streamed.
pub proof fn lemma_chunk_requests(
    o: DownloaderView,
    pack_id: Seq<char>,
    chunk_count: u32,
    max_chunk_size: u32,
    compressed_size: u64,
    sha256: Seq<u8>,
    chunks: Seq<(u64, Seq<u8>)>,
)
    requires
        pack_ids_unique(o.active),
        streamed_throughout(
            after_data_info(o, true, pack_id, chunk_count, max_chunk_size, compressed_size, sha256).0,
            pack_id,
            chunks,
        ),
    ensures
        ({
            let (o1, first) = after_data_info(o, true, pack_id, chunk_count, max_chunk_size, compressed_size, sha256);
            let n = chunk_total(chunk_count, max_chunk_size, compressed_size);
            let all = first.unwrap() + chunk_run(o1, pack_id, chunks).1;
            all == Seq::new(
                (if first.unwrap().len() + chunks.len() <= n { (first.unwrap().len() + chunks.len()) as int } else { n as int }) as nat,
                |k: int| k as u32,
            )
        }),
{
    let (o1, first) = after_data_info(o, true, pack_id, chunk_count, max_chunk_size, compressed_size, sha256);
    let n = chunk_total(chunk_count, max_chunk_size, compressed_size);
    let w = first_window(n);
    lemma_pending_index_range(o.active, pack_id);
    let i = pending_index(o.active, pack_id);
    let s = o1.active;
    if i >= 0 {
        let p = o1.active[i];
        lemma_pending_index_update(o.active, pack_id, p);
        assert forall|a: int, b: int| 0 <= a < b < s.len() implies #[trigger] s[a].pack_id
            != #[trigger] s[b].pack_id by {
            assert(s[a].pack_id == o.active[a].pack_id && s[b].pack_id == o.active[b].pack_id);
        }
    } else {
        lemma_pending_index_absent(o.active, pack_id);
        assert(o1.active.last().pack_id == pack_id);
        assert forall|a: int, b: int| 0 <= a < b < s.len() implies #[trigger] s[a].pack_id
            != #[trigger] s[b].pack_id by {
            assert(s[a] == o.active[a]);
            if b < o.active.len() {
                assert(s[b] == o.active[b]);
            }
        }
    }
    lemma_chunk_run_requests(o1, pack_id, chunks, n, w);
    let rs = chunk_run(o1, pack_id, chunks).1;
    let top = if w + chunks.len() <= n { w + chunks.len() } else { n as int };
    assert(first.unwrap() + rs =~= Seq::new(top as nat, |k: int| k as u32));
}

/// The downloader after the data info of `pack_id` arrives, and the chunks
/// to request at once; when disabled, nothing changes and nothing is asked.
pub open spec fn after_data_info(
    o: DownloaderView,
    enabled: bool,
    pack_id: Seq<char>,
    chunk_count: u32,
    max_chunk_size: u32,
    compressed_size: u64,
    sha256: Seq<u8>,
) -> (DownloaderView, Option<Seq<u32>>) {
    if !enabled {
        (o, None)
    } else {
        let uuid = before_underscore(pack_id);
        let ann = o.announced;
        let total = chunk_total(chunk_count, max_chunk_size, compressed_size);
        let window = first_window(total);
        let p = PendingView {
            pack_id,
            uuid,
            version: if ann.contains_key(uuid) { ann[uuid].version } else { Seq::empty() },
            key: if ann.contains_key(uuid) { ann[uuid].key } else { Seq::empty() },
            buf: Seq::empty(),
            chunk_count: total,
            next_chunk: window,
            received: 0,
            max_chunk_size,
            expected_sha: sha256,
            expected_size: compressed_size,
        };
        let i = pending_index(o.active, pack_id);
        (
            DownloaderView { active: if i >= 0 { o.active.update(i, p) } else { o.active.push(p) }, ..o },
            Some(Seq::new(window as nat, |k: int| k as u32)),
        )
    }
}

/// Some pack is asked for over the game connection exactly when some
/// announced pack is not on disk and has no CDN url.
pub proof fn lemma_wanted_nonempty(packs: Seq<PackInfo>, cached: Seq<bool>)
    requires
        packs.len() <= cached.len(),
    ensures
        wanted_ids(packs, cached).len() > 0 <==> exists|i: int|
            0 <= i < packs.len() && !cached[i] && #[trigger] is_blank(packs[i].4@),
    decreases packs.len(),
{
    if packs.len() > 0 {
        let init = packs.drop_last();
        lemma_wanted_nonempty(init, cached);
        let n = packs.len() - 1;
        if wanted_ids(init, cached).len() > 0 {
            let i = choose|i: int| 0 <= i < init.len() && !cached[i] && #[trigger] is_blank(init[i].4@);
            assert(packs[i] == init[i]);
        }
        if exists|i: int| 0 <= i < packs.len() && !cached[i] && #[trigger] is_blank(packs[i].4@) {
            let i = choose|i: int| 0 <= i < packs.len() && !cached[i] && #[trigger] is_blank(packs[i].4@);
            if i < n {
                assert(packs[i] == init[i]);
            }
        }
    }
}

/// A chunk that completes a streamed pack adds, after the packs completed
/// before, one pack that carries the streamed pack's uuid, version,
/// encryption key, expected digest and size; a chunk that does not complete
/// it keeps every streamed pack's uuid, version and key.
pub proof fn lemma_completion_carries_pack(o: DownloaderView, pack_id: Seq<char>, offset: u64, data: Seq<u8>)
    requires
        pending_index(o.active, pack_id) >= 0,
    ensures
        ({
            let p = o.active[pending_index(o.active, pack_id)];
            let (d, r) = after_chunk(o, pack_id, offset, data);
            &&& r == ChunkOutcome::Complete ==> {
                &&& d.completed.len() == o.completed.len() + 1
                &&& d.completed.take(o.completed.len() as int) == o.completed
                &&& d.completed.last().uuid == p.uuid
                &&& d.completed.last().version == p.version
                &&& d.completed.last().key == p.key
                &&& d.completed.last().expected_sha == p.expected_sha
                &&& d.completed.last().expected_size == p.expected_size
            }
            &&& r != ChunkOutcome::Complete ==> {
                &&& d.active.len() == o.active.len()
                &&& forall|k: int|
                    0 <= k < o.active.len() ==> (#[trigger] d.active[k]).uuid == o.active[k].uuid
                        && d.active[k].version == o.active[k].version && d.active[k].key == o.active[k].key
                        && d.active[k].pack_id == o.active[k].pack_id
            }
        }),
{
    lemma_pending_index_range(o.active, pack_id);
    let (d, r) = after_chunk(o, pack_id, offset, data);
    if r == ChunkOutcome::Complete {
        assert(d.completed.take(o.completed.len() as int) =~= o.completed);
    }
}

/// A pack's data info, with downloads on, starts streaming it under its
/// pack id: the entry's uuid is the part of the id before `_`, and when
/// that uuid was announced, its version and encryption key are the
/// announced ones. Every other streamed pack is kept as it was.
pub proof fn lemma_data_info_takes_announced(
    o: DownloaderView,
    pack_id: Seq<char>,
    chunk_count: u32,
    max_chunk_size: u32,
    compressed_size: u64,
    sha256: Seq<u8>,
)
    ensures
        ({
            let (d, w) = after_data_info(o, true, pack_id, chunk_count, max_chunk_size, compressed_size, sha256);
            let i = pending_index(d.active, pack_id);
            let uuid = before_underscore(pack_id);
            &&& w is Some
            &&& i >= 0
            &&& d.active[i].pack_id == pack_id
            &&& d.active[i].uuid == uuid
            &&& o.announced.contains_key(uuid) ==> d.active[i].version == o.announced[uuid].version
                && d.active[i].key == o.announced[uuid].key
            &&& d.active[i].expected_sha == sha256
            &&& d.active[i].expected_size == compressed_size
            &&& forall|k: int|
                0 <= k < o.active.len() && o.active[k].pack_id != pack_id ==> #[trigger] d.active[k] == o.active[k]
        }),
{
    let (d, w) = after_data_info(o, true, pack_id, chunk_count, max_chunk_size, compressed_size, sha256);
    let i0 = pending_index(o.active, pack_id);
    lemma_pending_index_range(o.active, pack_id);
    lemma_pending_index_range(d.active, pack_id);
    let p = d.active[if i0 >= 0 { i0 } else { o.active.len() as int }];
    if i0 >= 0 {
        lemma_pending_index_update(o.active, pack_id, p);
    } else {
        assert(d.active.last() == p);
    }
}

/// The pack list announces each pack with its version, encryption key and
/// size, as listed; where a uuid is listed twice, the later entry counts.
pub proof fn lemma_announced_as_listed(packs: Seq<PackInfo>, i: int)
    requires
        0 <= i < packs.len(),
        forall|j: int| i < j < packs.len() ==> #[trigger] packs[j].0@ != packs[i].0@,
    ensures
        announce_packs(packs).contains_key(packs[i].0@),
        announce_packs(packs)[packs[i].0@] == (AnnouncedView {
            version: packs[i].1@,
            key: packs[i].2@,
            size: packs[i].3,
        }),
    decreases packs.len(),
{
    if i < packs.len() - 1 {
        let init = packs.drop_last();
        assert forall|j: int| i < j < init.len() implies #[trigger] init[j].0@ != init[i].0@ by {
            assert(init[j] == packs[j]);
        }
        lemma_announced_as_listed(init, i);
        assert(packs.last().0@ != packs[i].0@);
    }
}

proof fn lemma_data_info_unique(
    o: DownloaderView,
    pack_id: Seq<char>,
    chunk_count: u32,
    max_chunk_size: u32,
    compressed_size: u64,
    sha256: Seq<u8>,
)
    requires
        pack_ids_unique(o.active),
    ensures
        pack_ids_unique(after_data_info(o, true, pack_id, chunk_count, max_chunk_size, compressed_size, sha256).0.active),
{
    let (o1, first) = after_data_info(o, true, pack_id, chunk_count, max_chunk_size, compressed_size, sha256);
    lemma_pending_index_range(o.active, pack_id);
    let i = pending_index(o.active, pack_id);
    let s = o1.active;
    if i >= 0 {
        assert forall|a: int, b: int| 0 <= a < b < s.len() implies #[trigger] s[a].pack_id
            != #[trigger] s[b].pack_id by {
            assert(s[a].pack_id == o.active[a].pack_id && s[b].pack_id == o.active[b].pack_id);
        }
    } else {
        lemma_pending_index_absent(o.active, pack_id);
        assert(o1.active.last().pack_id == pack_id);
        assert forall|a: int, b: int| 0 <= a < b < s.len() implies #[trigger] s[a].pack_id
            != #[trigger] s[b].pack_id by {
            assert(s[a] == o.active[a]);
            if b < o.active.len() {
                assert(s[b] == o.active[b]);
            }
        }
    }
}

proof fn lemma_chunk_run_keeps_pack(o: DownloaderView, pack_id: Seq<char>, chunks: Seq<(u64, Seq<u8>)>)
    requires
        pack_ids_unique(o.active),
        pending_index(o.active, pack_id) >= 0,
        streamed_throughout(o, pack_id, chunks),
    ensures
        ({
            let d = chunk_run(o, pack_id, chunks).0;
            let p = o.active[pending_index(o.active, pack_id)];
            &&& pack_ids_unique(d.active)
            &&& pending_index(d.active, pack_id) >= 0 ==> {
                &&& d.active[pending_index(d.active, pack_id)].uuid == p.uuid
                &&& d.active[pending_index(d.active, pack_id)].version == p.version
                &&& d.active[pending_index(d.active, pack_id)].key == p.key
            }
        }),
    decreases chunks.len(),
{
    lemma_pending_index_range(o.active, pack_id);
    if chunks.len() > 0 {
        let prefix = chunks.drop_last();
        assert forall|j: int| 0 <= j < prefix.len() implies pending_index(
            #[trigger] chunk_run(o, pack_id, prefix.take(j)).0.active,
            pack_id,
        ) >= 0 by {
            assert(prefix.take(j) =~= chunks.take(j));
        }
        lemma_chunk_run_keeps_pack(o, pack_id, prefix);
        let d0 = chunk_run(o, pack_id, prefix).0;
        assert(chunks.take(prefix.len() as int) =~= prefix);
        assert(pending_index(d0.active, pack_id) >= 0);
        let i = pending_index(d0.active, pack_id);
        lemma_pending_index_range(d0.active, pack_id);
        let p = d0.active[i];
        let (d1, r) = after_chunk(d0, pack_id, chunks.last().0, chunks.last().1);
        lemma_after_chunk_unique(d0, pack_id, chunks.last().0, chunks.last().1);
        assert(chunk_run(o, pack_id, chunks).0 == d1);
        if r != ChunkOutcome::Complete {
            let q = d1.active[i];
            if p.next_chunk < p.chunk_count {
                let q2 = PendingView {
                    buf: write_at(p.buf, chunks.last().0 as nat, chunks.last().1),
                    received: (p.received + 1) as u32,
                    next_chunk: (p.next_chunk + 1) as u32,
                    ..p
                };
                lemma_pending_index_update(d0.active, pack_id, q2);
                assert(d1.active == d0.active.update(i, q2));
            } else {
                let q2 = PendingView {
                    buf: write_at(p.buf, chunks.last().0 as nat, chunks.last().1),
                    received: (p.received + 1) as u32,
                    ..p
                };
                lemma_pending_index_update(d0.active, pack_id, q2);
                assert(d1.active == d0.active.update(i, q2));
            }
        }
    }
}

/// Over a whole download, a pack is completed with the uuid, version and
/// encryption key that the last pack list gave it: the list announces it,
/// its data info starts streaming it, chunks arrive while it is streamed,
/// and one more chunk completes it.
pub proof fn lemma_completed_as_announced(
    o: DownloaderView,
    packs: Seq<PackInfo>,
    cached: Seq<bool>,
    i: int,
    pack_id: Seq<char>,
    chunk_count: u32,
    max_chunk_size: u32,
    compressed_size: u64,
    sha256: Seq<u8>,
    chunks: Seq<(u64, Seq<u8>)>,
    offset: u64,
    data: Seq<u8>,
)
    requires
        pack_ids_unique(o.active),
        0 <= i < packs.len(),
        forall|j: int| i < j < packs.len() ==> #[trigger] packs[j].0@ != packs[i].0@,
        before_underscore(pack_id) == packs[i].0@,
        streamed_throughout(
            after_data_info(after_info(o, packs, cached), true, pack_id, chunk_count, max_chunk_size, compressed_size, sha256).0,
            pack_id,
            chunks,
        ),
        after_chunk(
            chunk_run(
                after_data_info(after_info(o, packs, cached), true, pack_id, chunk_count, max_chunk_size, compressed_size, sha256).0,
                pack_id,
                chunks,
            ).0,
            pack_id,
            offset,
            data,
        ).1 == ChunkOutcome::Complete,
    ensures
        ({
            let o2 = after_data_info(after_info(o, packs, cached), true, pack_id, chunk_count, max_chunk_size, compressed_size, sha256).0;
            let d = after_chunk(chunk_run(o2, pack_id, chunks).0, pack_id, offset, data).0;
            &&& d.completed.last().uuid == packs[i].0@
            &&& d.completed.last().version == packs[i].1@
            &&& d.completed.last().key == packs[i].2@
        }),
{
    let o1 = after_info(o, packs, cached);
    lemma_announced_as_listed(packs, i);
    lemma_data_info_takes_announced(o1, pack_id, chunk_count, max_chunk_size, compressed_size, sha256);
    lemma_data_info_unique(o1, pack_id, chunk_count, max_chunk_size, compressed_size, sha256);
    let o2 = after_data_info(o1, true, pack_id, chunk_count, max_chunk_size, compressed_size, sha256).0;
    lemma_chunk_run_keeps_pack(o2, pack_id, chunks);
    let d0 = chunk_run(o2, pack_id, chunks).0;
    lemma_pending_index_range(d0.active, pack_id);
    lemma_completion_carries_pack(d0, pack_id, offset, data);
}

/// Every id asked for over the game connection is that of an announced pack
/// that is not on disk and has no CDN url: packs served over HTTP are never
/// asked for.
pub proof fn lemma_wanted_are_streamed(packs: Seq<PackInfo>, cached: Seq<bool>)
    requires
        packs.len() <= cached.len(),
    ensures
        forall|k: int|
            0 <= k < wanted_ids(packs, cached).len() ==> exists|i: int|
                0 <= i < packs.len() && !cached[i] && is_blank(packs[i].4@) && #[trigger] wanted_ids(
                    packs,
                    cached,
                )[k] == packs[i].0@ + seq!['_'] + packs[i].1@,
    decreases packs.len(),
{
    if packs.len() > 0 {
        let p = packs.drop_last();
        lemma_wanted_are_streamed(p, cached);
        let w = wanted_ids(packs, cached);
        let wp = wanted_ids(p, cached);
        assert forall|k: int| 0 <= k < w.len() implies exists|i: int|
            0 <= i < packs.len() && !cached[i] && is_blank(packs[i].4@) && #[trigger] w[k] == packs[i].0@
                + seq!['_'] + packs[i].1@ by {
            if k < wp.len() {
                assert(w[k] == wp[k]);
                let i = choose|i: int|
                    0 <= i < p.len() && !cached[i] && is_blank(p[i].4@) && #[trigger] wp[k] == p[i].0@ + seq!['_']
                        + p[i].1@;
                assert(packs[i] == p[i]);
            } else {
                let n = packs.len() - 1;
                assert(packs[n] == packs.last());
            }
        }
    }
}

/// Every announced pack is either already on disk, queued for HTTP, or asked
/// for over the game connection, and only one of them.
pub proof fn lemma_on_info_partition(packs: Seq<PackInfo>, cached: Seq<bool>)
    requires
        packs.len() == cached.len(),
    ensures
        count_cached(cached, packs.len()) + cdn_packs(packs, cached).len() + wanted_ids(packs, cached).len()
            == packs.len(),
    decreases packs.len(),
{
    if packs.len() > 0 {
        let n = (packs.len() - 1) as nat;
        lemma_on_info_partition_prefix(packs.drop_last(), cached, n);
    }
}

proof fn lemma_on_info_partition_prefix(packs: Seq<PackInfo>, cached: Seq<bool>, n: nat)
    requires
        packs.len() == n,
        n <= cached.len(),
    ensures
        count_cached(cached, n) + cdn_packs(packs, cached).len() + wanted_ids(packs, cached).len() == n,
    decreases n,
{
    if n > 0 {
        lemma_on_info_partition_prefix(packs.drop_last(), cached, (n - 1) as nat);
    }
}

impl View for PackDownloader {
    type V = DownloaderView;

    closed spec fn view(&self) -> DownloaderView {
        DownloaderView {
            announced: self.announced@.map_values(|a: Announced| announced_view(a)),
            active: self.active@.map_values(|p: Pending| pending_view(p)),
            cdn: self.cdn@.map_values(|c: CdnPack| c@),
            completed: self.completed@.map_values(|c: CompletedPack| c@),
            remaining: self.remaining as nat,
            finished: self.finished as nat,
            failed: self.failed as nat,
            cached: self.cached as nat,
        }
    }
}

/// The entry a pack id finds is a streamed pack with that id.
pub proof fn lemma_pending_index_range(s: Seq<PendingView>, pack_id: Seq<char>)
    ensures
        -1 <= pending_index(s, pack_id) < s.len(),
        pending_index(s, pack_id) >= 0 ==> s[pending_index(s, pack_id)].pack_id == pack_id,
    decreases s.len(),
{
    if s.len() > 0 && s.last().pack_id != pack_id {
        lemma_pending_index_range(s.drop_last(), pack_id);
    }
}

proof fn lemma_count_cached_bound(cached: Seq<bool>, n: nat)
    ensures
        count_cached(cached, n) <= n,
    decreases n,
{
    if n > 0 {
        lemma_count_cached_bound(cached, (n - 1) as nat);
    }
}

impl PackDownloader {
    pub fn new() -> (r: Self)
        ensures
            r@ == empty_view(),
            downloader_valid(r@),
    {
        let r = PackDownloader {
            announced: StringHashMap::new(),
            active: Vec::new(),
            cdn: Vec::new(),
            completed: Vec::new(),
            remaining: 0,
            finished: 0,
            failed: 0,
            cached: 0,
        };
        assert(r@.announced =~= Map::empty());
        assert(r@.active =~= Seq::empty());
        assert(r@.cdn =~= Seq::empty());
        assert(r@.completed =~= Seq::empty());
        r
    }

    /// Position of the entry for `pack_id` among the streamed packs.
    fn find_active(&self, pack_id: &str) -> (r: Option<usize>)
        ensures
            match r {
                Some(i) => i as int == pending_index(self@.active, pack_id@) && i < self.active@.len(),
                None => pending_index(self@.active, pack_id@) < 0,
            },
    {
        let key = String::from_str(pack_id);
        let ghost s = self@.active;
        let mut i: usize = self.active.len();
        assert(s.take(i as int) =~= s);
        while i > 0
            invariant
                i <= self.active@.len(),
                s == self@.active,
                key@ == pack_id@,
                pending_index(s, pack_id@) == pending_index(s.take(i as int), pack_id@),
            decreases i,
        {
            assert(s.take(i as int).drop_last() =~= s.take(i - 1));
            if self.active[i - 1].pack_id == key {
                return Some(i - 1);
            }
            i = i - 1;
        }
        None
    }

    /// How many chunks of the pack streamed under `pack_id` have arrived.
    pub fn chunks_received(&self, pack_id: &str) -> (r: Option<u32>)
        ensures
            pending_index(self@.active, pack_id@) >= 0 ==> r == Some(
                self@.active[pending_index(self@.active, pack_id@)].received,
            ),
            pending_index(self@.active, pack_id@) < 0 ==> r is None,
    {
        match self.find_active(pack_id) {
            Some(i) => Some(self.active[i].received),
            None => None,
        }
    }

    /// Takes the packs that must be fetched over HTTP.
    pub fn take_cdn(&mut self) -> (r: Vec<CdnPack>)
        ensures
            r@.map_values(|c: CdnPack| c@) == old(self)@.cdn,
            final(self)@ == (DownloaderView { cdn: Seq::empty(), ..old(self)@ }),
            (final(self)@, r@.map_values(|c: CdnPack| c@)) == after_take_cdn(old(self)@),
            downloader_valid(old(self)@) ==> downloader_valid(final(self)@),
    {
        let mut r: Vec<CdnPack> = Vec::new();
        std::mem::swap(&mut r, &mut self.cdn);
        assert(self@.cdn =~= Seq::empty());
        r
    }

    /// Takes the packs that are complete and wait to be written out.
    pub fn take_completed(&mut self) -> (r: Vec<CompletedPack>)
        ensures
            r@.map_values(|c: CompletedPack| c@) == old(self)@.completed,
            final(self)@ == (DownloaderView { completed: Seq::empty(), ..old(self)@ }),
    {
        let mut r: Vec<CompletedPack> = Vec::new();
        std::mem::swap(&mut r, &mut self.completed);
        assert(self@.completed =~= Seq::empty());
        r
    }

    /// Counts a completed pack as written (`ok`) or as failed.
    pub fn record_saved(&mut self, ok: bool)
        requires
            ok ==> old(self)@.finished < usize::MAX,
            !ok ==> old(self)@.failed < usize::MAX,
        ensures
            final(self)@ == (if ok {
                DownloaderView { finished: old(self)@.finished + 1, ..old(self)@ }
            } else {
                DownloaderView { failed: old(self)@.failed + 1, ..old(self)@ }
            }),
    {
        if ok {
            self.finished = self.finished + 1;
        } else {
            self.failed = self.failed + 1;
        }
    }

    /// Called when ResourcePacksInfo arrives, with `cached` telling for each
    /// pack whether it is already on disk. Returns the pack ids to ask for
    /// over the game connection; packs with a CDN url are queued for
    /// `take_cdn` instead, and packs on disk are only counted. Returns nothing,
    /// and changes nothing, when downloading is disabled.
    pub fn on_info(&mut self, enabled: bool, packs: &[PackInfo], cached: &[bool]) -> (ids: Vec<String>)
        requires
            packs@.len() == cached@.len(),
        ensures
            !enabled ==> ids@.len() == 0 && final(self)@ == old(self)@,
            enabled ==> ids@.map_values(|s: String| s@) == wanted_ids(packs@, cached@),
            downloader_valid(old(self)@) ==> downloader_valid(final(self)@),
            enabled ==> final(self)@ == (DownloaderView {
                announced: announce_packs(packs@),
                cdn: cdn_packs(packs@, cached@),
                cached: count_cached(cached@, packs@.len()),
                remaining: wanted_ids(packs@, cached@).len(),
                ..old(self)@
            }),
            enabled ==> final(self)@ == after_info(old(self)@, packs@, cached@),
    {
        let mut ids: Vec<String> = Vec::new();
        if !enabled {
            return ids;
        }
        self.announced.clear();
        self.cdn.clear();
        self.cached = 0;
        let ghost o = old(self)@;
        proof {
            reveal_strlit("_");
            assert(packs@.take(0) =~= Seq::<PackInfo>::empty());
            assert(self@.announced =~= Map::empty());
            assert(self@.cdn =~= Seq::empty());
        }
        let mut i: usize = 0;
        while i < packs.len()
            invariant
                i <= packs@.len(),
                packs@.len() == cached@.len(),
                self@.announced == announce_packs(packs@.take(i as int)),
                self@.cdn == cdn_packs(packs@.take(i as int), cached@),
                ids@.map_values(|s: String| s@) == wanted_ids(packs@.take(i as int), cached@),
                self@.cached == count_cached(cached@, i as nat),
                self@.active == o.active,
                self@.completed == o.completed,
                self@.remaining == o.remaining,
                self@.finished == o.finished,
                self@.failed == o.failed,
            decreases packs@.len() - i,
        {
            let p = &packs[i];
            let ghost prev_announced = self.announced@;
            let ghost prev_cdn = self.cdn@;
            let ghost prev_ids = ids@;
            assert(packs@.take(i + 1).drop_last() =~= packs@.take(i as int));
            assert(packs@.take(i + 1).last() == packs@[i as int]);
            let a = Announced { version: p.1.clone(), key: p.2.clone(), size: p.3 };
            self.announced.insert(p.0.clone(), a);
            assert(self@.announced =~= announce_packs(packs@.take(i + 1)));
            proof {
                lemma_count_cached_bound(cached@, i as nat);
            }
            if cached[i] {
                self.cached = self.cached + 1;
                assert(self@.cdn =~= cdn_packs(packs@.take(i + 1), cached@));
                assert(ids@.map_values(|s: String| s@) =~= wanted_ids(packs@.take(i + 1), cached@));
            } else if !blank(p.4.as_str()) {
                let c = CdnPack {
                    uuid: p.0.clone(),
                    version: p.1.clone(),
                    key: p.2.clone(),
                    url: p.4.clone(),
                    size: p.3,
                };
                self.cdn.push(c);
                assert(self@.cdn =~= cdn_packs(packs@.take(i + 1), cached@));
                assert(ids@.map_values(|s: String| s@) =~= wanted_ids(packs@.take(i + 1), cached@));
            } else {
                let mut id = p.0.clone();
                id.append("_");
                id.append(p.1.as_str());
                proof {
                    reveal_strlit("_");
                    assert("_"@ =~= seq!['_']);
                }
                assert(id@ =~= p.0@ + seq!['_'] + p.1@);
                ids.push(id);
                assert(self@.cdn =~= cdn_packs(packs@.take(i + 1), cached@));
                assert(ids@.map_values(|s: String| s@) =~= wanted_ids(packs@.take(i + 1), cached@));
            }
            i = i + 1;
        }
        assert(packs@.take(packs@.len() as int) =~= packs@);
        self.remaining = ids.len();
        ids
    }

    /// Called when ResourcePackDataInfo arrives: starts (or restarts) the
    /// pack and returns the chunk indices to request at once, a full window.
    /// Returns `None`, and changes nothing, when downloading is disabled.
    pub fn on_data_info(
        &mut self,
        enabled: bool,
        pack_id: &str,
        chunk_count: u32,
        max_chunk_size: u32,
        compressed_size: u64,
        sha256: &[u8],
    ) -> (r: Option<Vec<u32>>)
        requires
            enabled ==> max_chunk_size > 0 && compressed_size + max_chunk_size <= u64::MAX,
        ensures
            downloader_valid(old(self)@) ==> downloader_valid(final(self)@),
            ({
                let (d, w) = after_data_info(
                    old(self)@,
                    enabled,
                    pack_id@,
                    chunk_count,
                    max_chunk_size,
                    compressed_size,
                    sha256@,
                );
                &&& final(self)@ == d
                &&& match w {
                    Some(ws) => r matches Some(v) && v@ == ws,
                    None => r is None,
                }
            }),
    {
        if !enabled {
            return None;
        }
        let uuid = first_segment(pack_id);
        let (version, key) = match self.announced.get(uuid.as_str()) {
            Some(a) => (a.version.clone(), a.key.clone()),
            None => (String::new(), String::new()),
        };
        let calculated: u64 = (compressed_size + max_chunk_size as u64 - 1) / max_chunk_size as u64;
        let calculated32: u32 = (calculated % 0x1_0000_0000) as u32;
        let total: u32 = if chunk_count >= calculated32 { chunk_count } else { calculated32 };
        let window: u32 = if total < CHUNK_WINDOW { total } else { CHUNK_WINDOW };
        let entry = Pending {
            pack_id: String::from_str(pack_id),
            uuid,
            version,
            key,
            buf: Vec::new(),
            chunk_count: total,
            next_chunk: window,
            received: 0,
            max_chunk_size,
            expected_sha: slice_to_vec(sha256),
            expected_size: compressed_size,
        };
        let ghost old_active = self.active@;
        match self.find_active(pack_id) {
            Some(i) => {
                proof {
                    lemma_pending_index_range(old(self)@.active, pack_id@);
                }
                self.active.set(i, entry);
                assert(self@.active =~= old(self)@.active.update(i as int, pending_view(entry)));
                proof {
                    let s = self@.active;
                    let o = old(self)@.active;
                    if downloader_valid(old(self)@) {
                        assert(s[i as int].pack_id == o[i as int].pack_id);
                        assert forall|a: int, b: int| 0 <= a < b < s.len() implies #[trigger] s[a].pack_id
                            != #[trigger] s[b].pack_id by {
                            assert(s[a].pack_id == o[a].pack_id && s[b].pack_id == o[b].pack_id);
                            assert(o[a].pack_id != o[b].pack_id);
                        }
                    }
                }
            },
            None => {
                proof {
                    lemma_pending_index_absent(old(self)@.active, pack_id@);
                }
                self.active.push(entry);
                assert(self@.active =~= old(self)@.active.push(pending_view(entry)));
                proof {
                    let s = self@.active;
                    let o = old(self)@.active;
                    if downloader_valid(old(self)@) {
                        assert forall|a: int, b: int| 0 <= a < b < s.len() implies #[trigger] s[a].pack_id
                            != #[trigger] s[b].pack_id by {
                            assert(s[a] == o[a]);
                            if b < o.len() {
                                assert(s[b] == o[b]);
                                assert(o[a].pack_id != o[b].pack_id);
                            } else {
                                assert(o[a].pack_id != pack_id@);
                            }
                        }
                    }
                }
            },
        }
        let mut ids: Vec<u32> = Vec::new();
        let mut k: u32 = 0;
        while k < window
            invariant
                k <= window,
                ids@ == Seq::new(k as nat, |j: int| j as u32),
            decreases window - k,
        {
            ids.push(k);
            k = k + 1;
            assert(ids@ =~= Seq::new(k as nat, |j: int| j as u32));
        }
        Some(ids)
    }

    /// Called when ResourcePackChunkData arrives: writes the chunk at its
    /// offset and tells what to do next: request a chunk, wait for the
    /// chunks in flight, or take the pack, which is complete (it has left
    /// the streamed packs for the completed ones). A chunk of a pack that is
    /// not being streamed is ignored and changes nothing.
    pub fn on_chunk(&mut self, pack_id: &str, index: u32, offset: u64, data: &[u8]) -> (r: ChunkOutcome)
        requires
            pending_index(old(self)@.active, pack_id@) >= 0 ==> offset + data@.len() <= usize::MAX
                && old(self)@.active[pending_index(old(self)@.active, pack_id@)].received < u32::MAX,
        ensures
            downloader_valid(old(self)@) ==> downloader_valid(final(self)@),
            (final(self)@, r) == after_chunk(old(self)@, pack_id@, offset, data@),
            downloader_valid(old(self)@) && pending_index(old(self)@.active, pack_id@) >= 0 ==> (r
                == ChunkOutcome::Complete <==> pending_index(final(self)@.active, pack_id@) < 0),
            r == ChunkOutcome::Complete ==> final(self)@.completed.len() == old(self)@.completed.len() + 1,
    {
        let _ = index;
        let i = match self.find_active(pack_id) {
            Some(i) => i,
            None => return ChunkOutcome::Ignored,
        };
        proof {
            lemma_pending_index_range(self@.active, pack_id@);
            if downloader_valid(self@) {
                lemma_chunk_complete(self@, pack_id@, offset, data@);
            }
        }
        let ghost o = self@;
        let ghost old_vec = self.active@;
        let mut p = self.active.remove(i);
        let ghost pv = pending_view(p);
        assert(pv == o.active[i as int]);
        let ghost b0 = p.buf@;
        let start = offset as usize;
        let end = start + data.len();
        if p.buf.len() < end {
            let pad = end - p.buf.len();
            put_zeros(&mut p.buf, pad);
        }
        let ghost b1 = p.buf@;
        let mut j: usize = 0;
        while j < data.len()
            invariant
                j <= data@.len(),
                start + data@.len() <= b1.len(),
                p.buf@.len() == b1.len(),
                start == offset,
                start + data@.len() == end,
                pending_view(p) == (PendingView { buf: p.buf@, ..pv }),
                forall|k: int|
                    0 <= k < b1.len() ==> #[trigger] p.buf@[k] == if start <= k < start + j {
                        data@[k - start]
                    } else {
                        b1[k]
                    },
            decreases data@.len() - j,
        {
            p.buf.set(start + j, data[j]);
            j = j + 1;
        }
        assert(p.buf@ =~= write_at(b0, offset as nat, data@));
        p.received = p.received + 1;
        assert(pending_view(p) == (PendingView {
            buf: write_at(pv.buf, offset as nat, data@),
            received: (pv.received + 1) as u32,
            ..pv
        }));
        if p.next_chunk < p.chunk_count {
            let n = p.next_chunk;
            p.next_chunk = n + 1;
            self.active.insert(i, p);
            assert(self.active@ =~= old_vec.update(i as int, p));
            assert(self@.active =~= o.active.update(i as int, pending_view(p)));
            return ChunkOutcome::Request(n);
        }
        if p.received < p.chunk_count {
            self.active.insert(i, p);
            assert(self.active@ =~= old_vec.update(i as int, p));
            assert(self@.active =~= o.active.update(i as int, pending_view(p)));
            return ChunkOutcome::Waiting;
        }
        assert(self@.active =~= o.active.remove(i as int));
        self.remaining = if self.remaining > 0 { self.remaining - 1 } else { 0 };
        let done = CompletedPack {
            uuid: p.uuid,
            version: p.version,
            key: p.key,
            data: p.buf,
            expected_sha: p.expected_sha,
            expected_size: p.expected_size,
        };
        self.completed.push(done);
        assert(self@.completed =~= o.completed.push(done@));
        ChunkOutcome::Complete
    }

    /// True once every pack streamed over the connection is complete; CDN
    /// packs are not counted.
    pub fn all_done(&self) -> (r: bool)
        ensures
            r == is_done(self@),
    {
        self.active.len() == 0 && self.remaining == 0
    }
}

/// Where a pack is stored: `None` when downloading is disabled (`dir` is
/// `None`), else the file `spec_pack_file` names.
pub fn pack_path(dir: Option<&str>, uuid: &str, version: &str) -> (r: Option<String>)
    ensures
        match dir {
            None => r is None,
            Some(d) => r matches Some(p) && p@ == spec_pack_file(d@, uuid@, version@),
        },
{
    match dir {
        None => None,
        Some(d) => Some(pack_file(d, uuid, version)),
    }
}

/// Whether a downloaded body can be a zip archive: at least four bytes,
/// starting with `PK`.
pub fn looks_like_zip(body: &[u8]) -> (r: bool)
    ensures
        r == (body@.len() >= 4 && body@[0] == 0x50 && body@[1] == 0x4b),
{
    body.len() >= 4 && body[0] == 0x50 && body[1] == 0x4b
}

/// A name for the SHA-256 digest of some bytes.
pub uninterp spec fn sha256_of(data: Seq<u8>) -> Seq<u8>;

/// `Sha256::digest` of the `sha2` crate: the digest of `data`, named
/// `sha256_of`; it is 32 bytes long, as the hash's output size says.
#[verifier::external_body]
fn sha256_digest(data: &[u8]) -> (r: Vec<u8>)
    ensures
        r@ == sha256_of(data@),
        r@.len() == 32,
{
    <sha2::Sha256 as sha2::Digest>::digest(data).to_vec()
}

/// Whether two byte strings are equal.
fn bytes_equal(a: &[u8], b: &[u8]) -> (r: bool)
    ensures
        r == (a@ == b@),
{
    if a.len() != b.len() {
        return false;
    }
    let mut i: usize = 0;
    while i < a.len()
        invariant
            a@.len() == b@.len(),
            i <= a@.len(),
            forall|j: int| 0 <= j < i ==> a@[j] == b@[j],
        decreases a@.len() - i,
    {
        if a[i] != b[i] {
            return false;
        }
        i = i + 1;
    }
    assert(a@ =~= b@);
    true
}

/// What the checks of a completed pack found: whether its size is the one
/// announced (or none was), and, when a digest was announced, the digest of
/// its data and whether the two agree; and whether the pack is to be
/// written to disk, which is when its digest agrees: a pack on disk is
/// complete and intact.
pub struct PackCheck {
    pub size_ok: bool,
    pub digest: Option<Vec<u8>>,
    pub digest_ok: bool,
    pub save: bool,
}

/// The size is the announced one, or none was announced.
pub open spec fn size_ok(c: CompletedView) -> bool {
    c.expected_size == 0 || c.data.len() == c.expected_size
}

/// Whether a pack's digest agrees with the announced one: always when none
/// was announced.
pub fn digest_matches(expected_sha: &[u8], digest: &[u8]) -> (r: bool)
    ensures
        r == (expected_sha@.len() == 0 || digest@ == expected_sha@),
{
    expected_sha.len() == 0 || bytes_equal(digest, expected_sha)
}

/// Checks a completed pack against what the server announced. A size that
/// differs is only reported; a digest that differs keeps the pack off disk.
pub fn check_completed(p: &CompletedPack) -> (r: PackCheck)
    ensures
        r.size_ok == size_ok(p@),
        r.save == r.digest_ok,
        p@.expected_sha.len() == 0 ==> r.digest is None && r.digest_ok,
        p@.expected_sha.len() > 0 ==> (r.digest matches Some(d) && d@ == sha256_of(p@.data) && r.digest_ok
            == (sha256_of(p@.data) == p@.expected_sha)),
{
    let size_ok = p.expected_size == 0 || p.data.len() as u64 == p.expected_size;
    if p.expected_sha.len() == 0 {
        PackCheck { size_ok, digest: None, digest_ok: true, save: true }
    } else {
        let d = sha256_digest(p.data.as_slice());
        let ok = digest_matches(p.expected_sha.as_slice(), d.as_slice());
        PackCheck { size_ok, digest: Some(d), digest_ok: ok, save: ok }
    }
}

} // verus!
