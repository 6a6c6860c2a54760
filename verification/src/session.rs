//! How the client answers the game packets the server sends during the
//! handshake, the resource pack exchange and the start of the game, as
//! decisions: the event a packet stands for goes in, the session state moves
//! on, and the actions to perform (packets to send, switches of the
//! connection, downloads to start) come out, in order.

use vstd::prelude::*;
use crate::utils::text::is_blank;
use crate::utils::resource_pack::{
    after_chunk, after_data_info, ChunkOutcome, announce_packs, cdn_packs, count_cached, empty_view, is_done, pending_index, downloader_valid, wanted_ids,
    lemma_wanted_nonempty, lemma_wanted_are_streamed, lemma_pending_index_range,
    CdnPack, CdnPackView, DownloaderView, PackDownloader, PackInfo,
};

verus! {

/// The chunk radius the client asks for.
pub const CHUNK_RADIUS: i32 = 40;

/// The largest chunk radius the client asks for.
pub const MAX_CHUNK_RADIUS: u8 = 40;

/// The play status that says the player has spawned.
pub const PLAYER_SPAWN: i32 = 3;

/// What the client answers about resource packs.
#[derive(Clone, Copy, Debug, PartialEq, Eq, Structural)]
pub enum PackStatus {
    SendPacks,
    HaveAllPacks,
    Completed,
}

/// A game packet from the server, as far as the session reacts to it.
/// `enabled` tells whether resource packs are downloaded; `cached` tells for
/// each announced pack whether it is already on disk.
pub enum ServerEvent {
    NetworkSettings { compression_algorithm: u16 },
    ServerToClientHandshake { jwt: Vec<u8> },
    ResourcePacksInfo { enabled: bool, packs: Vec<PackInfo>, cached: Vec<bool> },
    ResourcePackDataInfo {
        enabled: bool,
        pack_id: String,
        chunk_count: u32,
        max_chunk_size: u32,
        compressed_size: u64,
        sha256: Vec<u8>,
    },
    ResourcePackChunkData { pack_id: String, chunk_index: u32, offset: u64, data: Vec<u8> },
    ResourcePackStack,
    PlayStatus { status: i32 },
    StartGame { actor_runtime_id: u64 },
    AvailableCommands,
    NetworkStackLatency { timestamp: u64, need_response: bool },
    /// A RakNet connected ping, with the time it carried and the current
    /// time in seconds since the epoch.
    ConnectedPing { ping_time: u64, now: u64 },
    Disconnect,
    Other,
}

/// What the caller is to do, in order.
pub enum ClientAction {
    /// Compress what is sent from now on with this algorithm.
    EnableCompression { algorithm: u16 },
    SendLogin,
    /// Derive the key from the server's token and encrypt from now on.
    EnableEncryption { jwt: Vec<u8> },
    SendClientToServerHandshake,
    /// Fetch this pack over HTTP, in the background.
    FetchCdn { pack: CdnPack },
    SendPackResponse { status: PackStatus, pack_ids: Vec<String> },
    SendClientCacheStatus { enabled: bool },
    SendChunkRequest { pack_id: String, chunk_index: u32 },
    SendSetLocalPlayerAsInitialized { actor_runtime_id: u64 },
    SendRequestChunkRadius { radius: i32, max_radius: u8 },
    /// Build the block palette from the start-game data and hand it to the game.
    BuildBlockPalette,
    SendNetworkStackLatency { timestamp: u64 },
    /// Answer a connected ping: its time, then the time it was answered.
    SendConnectedPong { ping_time: u64, pong_time: u64 },
}

pub enum ClientActionView {
    EnableCompression { algorithm: u16 },
    SendLogin,
    EnableEncryption { jwt: Seq<u8> },
    SendClientToServerHandshake,
    FetchCdn { pack: CdnPackView },
    SendPackResponse { status: PackStatus, pack_ids: Seq<Seq<char>> },
    SendClientCacheStatus { enabled: bool },
    SendChunkRequest { pack_id: Seq<char>, chunk_index: u32 },
    SendSetLocalPlayerAsInitialized { actor_runtime_id: u64 },
    SendRequestChunkRadius { radius: i32, max_radius: u8 },
    BuildBlockPalette,
    SendNetworkStackLatency { timestamp: u64 },
    /// Answer a connected ping: its time, then the time it was answered.
    SendConnectedPong { ping_time: u64, pong_time: u64 },
}

impl View for ClientAction {
    type V = ClientActionView;

    open spec fn view(&self) -> ClientActionView {
        match self {
            ClientAction::EnableCompression { algorithm } => ClientActionView::EnableCompression {
                algorithm: *algorithm,
            },
            ClientAction::SendLogin => ClientActionView::SendLogin,
            ClientAction::EnableEncryption { jwt } => ClientActionView::EnableEncryption { jwt: jwt@ },
            ClientAction::SendClientToServerHandshake => ClientActionView::SendClientToServerHandshake,
            ClientAction::FetchCdn { pack } => ClientActionView::FetchCdn { pack: pack@ },
            ClientAction::SendPackResponse { status, pack_ids } => ClientActionView::SendPackResponse {
                status: *status,
                pack_ids: pack_ids@.map_values(|s: String| s@),
            },
            ClientAction::SendClientCacheStatus { enabled } => ClientActionView::SendClientCacheStatus {
                enabled: *enabled,
            },
            ClientAction::SendChunkRequest { pack_id, chunk_index } => ClientActionView::SendChunkRequest {
                pack_id: pack_id@,
                chunk_index: *chunk_index,
            },
            ClientAction::SendSetLocalPlayerAsInitialized { actor_runtime_id } =>
                ClientActionView::SendSetLocalPlayerAsInitialized { actor_runtime_id: *actor_runtime_id },
            ClientAction::SendRequestChunkRadius { radius, max_radius } =>
                ClientActionView::SendRequestChunkRadius { radius: *radius, max_radius: *max_radius },
            ClientAction::BuildBlockPalette => ClientActionView::BuildBlockPalette,
            ClientAction::SendNetworkStackLatency { timestamp } =>
                ClientActionView::SendNetworkStackLatency { timestamp: *timestamp },
            ClientAction::SendConnectedPong { ping_time, pong_time } =>
                ClientActionView::SendConnectedPong { ping_time: *ping_time, pong_time: *pong_time },
        }
    }
}

/// The actions, each by its view.
pub open spec fn actions_view(a: Seq<ClientAction>) -> Seq<ClientActionView> {
    a.map_values(|x: ClientAction| x@)
}

/// The state of a session: the player's runtime id once the game started,
/// whether the session is to stop, and the resource pack downloads.
pub struct Session {
    pub player_runtime_id: u64,
    pub should_stop: bool,
    pub packs: PackDownloader,
}

pub struct SessionView {
    pub player_runtime_id: u64,
    pub should_stop: bool,
    pub packs: DownloaderView,
}

impl View for Session {
    type V = SessionView;

    open spec fn view(&self) -> SessionView {
        SessionView { player_runtime_id: self.player_runtime_id, should_stop: self.should_stop, packs: self.packs@ }
    }
}

/// The request for the chunks around the player.
pub open spec fn chunk_radius_request() -> ClientActionView {
    ClientActionView::SendRequestChunkRadius { radius: CHUNK_RADIUS, max_radius: MAX_CHUNK_RADIUS }
}

/// The answer that asks for nothing more.
pub open spec fn pack_response(status: PackStatus) -> ClientActionView {
    ClientActionView::SendPackResponse { status, pack_ids: Seq::empty() }
}

/// The downloader after ResourcePacksInfo: as `on_info` leaves it.
pub open spec fn after_info(d: DownloaderView, enabled: bool, packs: Seq<PackInfo>, cached: Seq<bool>) -> DownloaderView {
    if enabled {
        DownloaderView {
            announced: announce_packs(packs),
            cdn: cdn_packs(packs, cached),
            cached: count_cached(cached, packs.len()),
            remaining: wanted_ids(packs, cached).len(),
            ..d
        }
    } else {
        d
    }
}

/// After the pack list, the downloads are done exactly when no pack was in
/// flight and none is to be streamed: packs fetched over HTTP or already on
/// disk are not waited for.
pub proof fn lemma_done_after_info(d: DownloaderView, packs: Seq<PackInfo>, cached: Seq<bool>)
    ensures
        is_done(after_info(d, true, packs, cached)) <==> d.active.len() == 0 && wanted_ids(packs, cached).len()
            == 0,
{
}

/// What the session does in answer to a pack list.
pub open spec fn pack_list_actions(s: SessionView, enabled: bool, packs: Vec<PackInfo>, cached: Vec<bool>) -> Seq<
    ClientActionView,
> {
    session_step(s, ServerEvent::ResourcePacksInfo { enabled, packs, cached }).1
}

/// The answer to a pack list, after the HTTP downloads it starts: it asks
/// for packs (`SendPacks`) exactly when downloads are on and some announced
/// pack is neither on disk nor served over HTTP, and then names only such
/// packs, at least one; otherwise it says all packs are there and names
/// none. Last, it says the client has no cache.
pub proof fn lemma_pack_list_answer(s: SessionView, enabled: bool, packs: Vec<PackInfo>, cached: Vec<bool>)
    requires
        packs@.len() == cached@.len(),
    ensures
        ({
            let a = pack_list_actions(s, enabled, packs, cached);
            &&& a.len() >= 2
            &&& a[a.len() - 1] == ClientActionView::SendClientCacheStatus { enabled: false }
            &&& a[a.len() - 2] matches ClientActionView::SendPackResponse { status, pack_ids }
            &&& (status == PackStatus::SendPacks <==> enabled && exists|i: int|
                0 <= i < packs@.len() && !cached@[i] && #[trigger] is_blank(packs@[i].4@))
            &&& (status == PackStatus::SendPacks || status == PackStatus::HaveAllPacks)
            &&& (status == PackStatus::HaveAllPacks ==> pack_ids.len() == 0)
            &&& (status == PackStatus::SendPacks ==> pack_ids.len() > 0)
            &&& forall|k: int|
                0 <= k < pack_ids.len() ==> exists|i: int|
                    0 <= i < packs@.len() && !cached@[i] && is_blank(packs@[i].4@) && #[trigger] pack_ids[k]
                        == packs@[i].0@ + seq!['_'] + packs@[i].1@
        }),
{
    lemma_wanted_nonempty(packs@, cached@);
    lemma_wanted_are_streamed(packs@, cached@);
}

/// What the session does in answer to a chunk, and the session after it.
pub open spec fn chunk_step(s: SessionView, pack_id: String, chunk_index: u32, offset: u64, data: Vec<u8>) -> (
    SessionView,
    Seq<ClientActionView>,
) {
    session_step(s, ServerEvent::ResourcePackChunkData { pack_id, chunk_index, offset, data })
}

/// The answer to a chunk does not depend on the index the chunk carries.
/// While chunks of a streamed pack are left to ask for, the only answer is
/// a request, for that pack, of the lowest chunk not yet asked for, which
/// is then counted as asked for; the request is never for a chunk asked for
/// before, nor past the pack's last chunk.
pub proof fn lemma_chunk_answer(
    s: SessionView,
    pack_id: String,
    c1: u32,
    c2: u32,
    offset: u64,
    data: Vec<u8>,
)
    ensures
        chunk_step(s, pack_id, c1, offset, data) == chunk_step(s, pack_id, c2, offset, data),
        ({
            let i = pending_index(s.packs.active, pack_id@);
            let p = s.packs.active[i];
            let (s2, a) = chunk_step(s, pack_id, c1, offset, data);
            i >= 0 && p.next_chunk < p.chunk_count ==> {
                &&& a == seq![ClientActionView::SendChunkRequest { pack_id: pack_id@, chunk_index: p.next_chunk }]
                &&& s2.packs.active[i].next_chunk == p.next_chunk + 1
                &&& s2.packs.active[i].pack_id == pack_id@
                &&& forall|a2: ClientActionView| #[trigger] a.contains(a2) ==> (a2 matches ClientActionView::SendChunkRequest {
                    chunk_index, ..
                } ==> p.next_chunk <= chunk_index < p.chunk_count)
            }
        }),
        ({
            let (s2, a) = chunk_step(s, pack_id, c1, offset, data);
            pending_index(s.packs.active, pack_id@) < 0 ==> s2 == s && (a.len() == 0 || a == seq![
                pack_response(PackStatus::HaveAllPacks),
            ])
        }),
{
    let i = pending_index(s.packs.active, pack_id@);
    lemma_pending_index_range(s.packs.active, pack_id@);
    if i >= 0 {
        let a = chunk_step(s, pack_id, c1, offset, data).1;
        let p = s.packs.active[i];
        if p.next_chunk < p.chunk_count {
            assert forall|a2: ClientActionView| #[trigger] a.contains(a2) implies (a2 matches ClientActionView::SendChunkRequest {
                chunk_index, ..
            } ==> p.next_chunk <= chunk_index < p.chunk_count) by {
                let k = choose|k: int| 0 <= k < a.len() && a[k] == a2;
                assert(k == 0);
            }
        }
    }
}

/// The events a session can take: lists that belong together are as long;
/// when downloads are on, chunk sizes are not zero and sizes fit their
/// integers; a chunk of a pack being streamed fits the address space.
pub open spec fn event_allowed(s: SessionView, e: ServerEvent) -> bool {
    match e {
        ServerEvent::ResourcePacksInfo { packs, cached, .. } => packs@.len() == cached@.len(),
        ServerEvent::ResourcePackDataInfo { enabled, max_chunk_size, compressed_size, .. } => enabled ==> (
        max_chunk_size > 0 && compressed_size + max_chunk_size <= u64::MAX),
        ServerEvent::ResourcePackChunkData { pack_id, offset, data, .. } => pending_index(
            s.packs.active,
            pack_id@,
        ) >= 0 ==> (offset + data@.len() <= usize::MAX && s.packs.active[pending_index(
            s.packs.active,
            pack_id@,
        )].received < u32::MAX),
        _ => true,
    }
}

/// The session after event `e`, and the actions it calls for.
/// - Network settings: compress from now on, then log in.
/// - The server's handshake: encrypt from now on, then answer it.
/// - The pack list: start the HTTP downloads, ask for the packs to stream
///   (or say that all are there), then say the client has no cache.
/// - A pack's data info: ask for the first window of its chunks.
/// - A chunk: ask for the next chunk; once every streamed pack is complete,
///   say that all are there.
/// - The pack stack: say the packs are done.
/// - The spawn status: say the local player is initialized.
/// - Start game: remember the player's runtime id, ask for the chunks
///   around it and build the block palette.
/// - The commands list: ask for the chunks around the player.
/// - A latency probe that wants an answer: answer with its timestamp.
/// - A connected ping: answer with a pong that carries its time and now.
/// - Disconnect: stop.
pub open spec fn session_step(s: SessionView, e: ServerEvent) -> (SessionView, Seq<ClientActionView>) {
    match e {
        ServerEvent::NetworkSettings { compression_algorithm } => (
            s,
            seq![ClientActionView::EnableCompression { algorithm: compression_algorithm }, ClientActionView::SendLogin],
        ),
        ServerEvent::ServerToClientHandshake { jwt } => (
            s,
            seq![ClientActionView::EnableEncryption { jwt: jwt@ }, ClientActionView::SendClientToServerHandshake],
        ),
        ServerEvent::ResourcePacksInfo { enabled, packs, cached } => {
            let d = after_info(s.packs, enabled, packs@, cached@);
            let want = if enabled { wanted_ids(packs@, cached@) } else { Seq::empty() };
            let fetch = d.cdn.map_values(|c: CdnPackView| ClientActionView::FetchCdn { pack: c });
            let answer = if want.len() > 0 {
                ClientActionView::SendPackResponse { status: PackStatus::SendPacks, pack_ids: want }
            } else {
                pack_response(PackStatus::HaveAllPacks)
            };
            (
                SessionView { packs: DownloaderView { cdn: Seq::empty(), ..d }, ..s },
                fetch + seq![answer, ClientActionView::SendClientCacheStatus { enabled: false }],
            )
        },
        ServerEvent::ResourcePackDataInfo {
            enabled,
            pack_id,
            chunk_count,
            max_chunk_size,
            compressed_size,
            sha256,
        } => {
            let (d, w) = after_data_info(
                s.packs,
                enabled,
                pack_id@,
                chunk_count,
                max_chunk_size,
                compressed_size,
                sha256@,
            );
            (
                SessionView { packs: d, ..s },
                match w {
                    Some(ws) => ws.map_values(
                        |k: u32| ClientActionView::SendChunkRequest { pack_id: pack_id@, chunk_index: k },
                    ),
                    None => Seq::empty(),
                },
            )
        },
        ServerEvent::ResourcePackChunkData { pack_id, offset, data, .. } => {
            let (d, next) = after_chunk(s.packs, pack_id@, offset, data@);
            (
                SessionView { packs: d, ..s },
                match next {
                    ChunkOutcome::Request(i) => seq![
                        ClientActionView::SendChunkRequest { pack_id: pack_id@, chunk_index: i },
                    ],
                    _ => if d.active.len() == 0 && d.remaining == 0 {
                        seq![pack_response(PackStatus::HaveAllPacks)]
                    } else {
                        Seq::empty()
                    },
                },
            )
        },
        ServerEvent::ResourcePackStack => (s, seq![pack_response(PackStatus::Completed)]),
        ServerEvent::PlayStatus { status } => (
            s,
            if status == PLAYER_SPAWN {
                seq![
                    ClientActionView::SendSetLocalPlayerAsInitialized {
                        actor_runtime_id: s.player_runtime_id,
                    },
                ]
            } else {
                Seq::empty()
            },
        ),
        ServerEvent::StartGame { actor_runtime_id } => (
            SessionView { player_runtime_id: actor_runtime_id, ..s },
            seq![chunk_radius_request(), ClientActionView::BuildBlockPalette],
        ),
        ServerEvent::AvailableCommands => (s, seq![chunk_radius_request()]),
        ServerEvent::NetworkStackLatency { timestamp, need_response } => (
            s,
            if need_response {
                seq![ClientActionView::SendNetworkStackLatency { timestamp }]
            } else {
                Seq::empty()
            },
        ),
        ServerEvent::ConnectedPing { ping_time, now } => (
            s,
            seq![ClientActionView::SendConnectedPong { ping_time, pong_time: now }],
        ),
        ServerEvent::Disconnect => (SessionView { should_stop: true, ..s }, Seq::empty()),
        ServerEvent::Other => (s, Seq::empty()),
    }
}

fn copy_cdn(c: &CdnPack) -> (r: CdnPack)
    ensures
        r@ == c@,
{
    CdnPack { uuid: c.uuid.clone(), version: c.version.clone(), key: c.key.clone(), url: c.url.clone(), size: c.size }
}

fn copy_bytes(b: &Vec<u8>) -> (r: Vec<u8>)
    ensures
        r@ == b@,
{
    let r = b.clone();
    assert(r@ =~= b@);
    r
}

impl Session {
    /// A session before the server has said anything.
    pub fn new() -> (r: Session)
        ensures
            r@.player_runtime_id == 0,
            !r@.should_stop,
            r@.packs == empty_view(),
    {
        Session { player_runtime_id: 0, should_stop: false, packs: PackDownloader::new() }
    }

    /// Takes event `e` and returns the actions it calls for, in order.
    pub fn on_event(&mut self, e: &ServerEvent) -> (r: Vec<ClientAction>)
        requires
            event_allowed(old(self)@, *e),
        ensures
            (final(self)@, actions_view(r@)) == session_step(old(self)@, *e),
            downloader_valid(old(self)@.packs) ==> downloader_valid(final(self)@.packs),
    {
        let mut out: Vec<ClientAction> = Vec::new();
        match e {
            ServerEvent::NetworkSettings { compression_algorithm } => {
                out.push(ClientAction::EnableCompression { algorithm: *compression_algorithm });
                out.push(ClientAction::SendLogin);
            },
            ServerEvent::ServerToClientHandshake { jwt } => {
                out.push(ClientAction::EnableEncryption { jwt: copy_bytes(jwt) });
                out.push(ClientAction::SendClientToServerHandshake);
            },
            ServerEvent::ResourcePacksInfo { enabled, packs, cached } => {
                let ids = self.packs.on_info(*enabled, packs.as_slice(), cached.as_slice());
                let ghost d = self.packs@;
                let cdn = self.packs.take_cdn();
                let mut i: usize = 0;
                while i < cdn.len()
                    invariant
                        i <= cdn@.len(),
                        cdn@.map_values(|c: CdnPack| c@) == d.cdn,
                        actions_view(out@) == d.cdn.take(i as int).map_values(
                            |c: CdnPackView| ClientActionView::FetchCdn { pack: c },
                        ),
                    decreases cdn@.len() - i,
                {
                    let ghost before = out@;
                    assert(cdn@.map_values(|c: CdnPack| c@)[i as int] == cdn@[i as int]@);
                    let pack = copy_cdn(&cdn[i]);
                    assert(pack@ == d.cdn[i as int]);
                    out.push(ClientAction::FetchCdn { pack });
                    assert(actions_view(out@) =~= actions_view(before).push(
                        ClientActionView::FetchCdn { pack: d.cdn[i as int] },
                    ));
                    i = i + 1;
                    assert(actions_view(out@) =~= d.cdn.take(i as int).map_values(
                        |c: CdnPackView| ClientActionView::FetchCdn { pack: c },
                    ));
                }
                assert(d.cdn.take(i as int) =~= d.cdn);
                let ghost fetched = actions_view(out@);
                if ids.len() > 0 {
                    out.push(ClientAction::SendPackResponse { status: PackStatus::SendPacks, pack_ids: ids });
                } else {
                    let none: Vec<String> = Vec::new();
                    assert(none@.map_values(|s: String| s@) =~= Seq::<Seq<char>>::empty());
                    out.push(ClientAction::SendPackResponse { status: PackStatus::HaveAllPacks, pack_ids: none });
                }
                out.push(ClientAction::SendClientCacheStatus { enabled: false });
                proof {
                    let (_, want_actions) = session_step(old(self)@, *e);
                    assert(actions_view(out@) =~= want_actions);
                }
            },
            ServerEvent::ResourcePackDataInfo {
                enabled,
                pack_id,
                chunk_count,
                max_chunk_size,
                compressed_size,
                sha256,
            } => {
                let first = self.packs.on_data_info(
                    *enabled,
                    pack_id.as_str(),
                    *chunk_count,
                    *max_chunk_size,
                    *compressed_size,
                    sha256.as_slice(),
                );
                match first {
                    Some(ks) => {
                        let mut i: usize = 0;
                        while i < ks.len()
                            invariant
                                i <= ks@.len(),
                                actions_view(out@) == ks@.take(i as int).map_values(
                                    |k: u32| ClientActionView::SendChunkRequest { pack_id: pack_id@, chunk_index: k },
                                ),
                            decreases ks@.len() - i,
                        {
                            let ghost before = out@;
                            let id = pack_id.clone();
                            out.push(ClientAction::SendChunkRequest { pack_id: id, chunk_index: ks[i] });
                            assert(actions_view(out@) =~= actions_view(before).push(
                                ClientActionView::SendChunkRequest { pack_id: pack_id@, chunk_index: ks@[i as int] },
                            ));
                            i = i + 1;
                            assert(actions_view(out@) =~= ks@.take(i as int).map_values(
                                |k: u32| ClientActionView::SendChunkRequest { pack_id: pack_id@, chunk_index: k },
                            ));
                        }
                        assert(ks@.take(i as int) =~= ks@);
                    },
                    None => {
                        assert(actions_view(out@) =~= Seq::<ClientActionView>::empty());
                    },
                }
            },
            ServerEvent::ResourcePackChunkData { pack_id, chunk_index, offset, data } => {
                let next = self.packs.on_chunk(pack_id.as_str(), *chunk_index, *offset, data.as_slice());
                match next {
                    ChunkOutcome::Request(i) => {
                        out.push(ClientAction::SendChunkRequest { pack_id: pack_id.clone(), chunk_index: i });
                    },
                    _ => {
                        if self.packs.all_done() {
                            let none: Vec<String> = Vec::new();
                            assert(none@.map_values(|s: String| s@) =~= Seq::<Seq<char>>::empty());
                            out.push(ClientAction::SendPackResponse { status: PackStatus::HaveAllPacks, pack_ids: none });
                        }
                    },
                }
                proof {
                    let (_, want_actions) = session_step(old(self)@, *e);
                    assert(actions_view(out@) =~= want_actions);
                }
            },
            ServerEvent::ResourcePackStack => {
                let none: Vec<String> = Vec::new();
                assert(none@.map_values(|s: String| s@) =~= Seq::<Seq<char>>::empty());
                out.push(ClientAction::SendPackResponse { status: PackStatus::Completed, pack_ids: none });
            },
            ServerEvent::PlayStatus { status } => {
                if *status == PLAYER_SPAWN {
                    out.push(ClientAction::SendSetLocalPlayerAsInitialized { actor_runtime_id: self.player_runtime_id });
                }
            },
            ServerEvent::StartGame { actor_runtime_id } => {
                self.player_runtime_id = *actor_runtime_id;
                out.push(ClientAction::SendRequestChunkRadius { radius: CHUNK_RADIUS, max_radius: MAX_CHUNK_RADIUS });
                out.push(ClientAction::BuildBlockPalette);
            },
            ServerEvent::AvailableCommands => {
                out.push(ClientAction::SendRequestChunkRadius { radius: CHUNK_RADIUS, max_radius: MAX_CHUNK_RADIUS });
            },
            ServerEvent::NetworkStackLatency { timestamp, need_response } => {
                if *need_response {
                    out.push(ClientAction::SendNetworkStackLatency { timestamp: *timestamp });
                }
            },
            ServerEvent::ConnectedPing { ping_time, now } => {
                out.push(ClientAction::SendConnectedPong { ping_time: *ping_time, pong_time: *now });
            },
            ServerEvent::Disconnect => {
                self.should_stop = true;
            },
            ServerEvent::Other => {},
        }
        assert(actions_view(out@) =~= session_step(old(self)@, *e).1);
        out
    }
}

} // verus!
