use bedrock_client::session::{ClientAction, PackStatus, ServerEvent, Session, CHUNK_RADIUS};

fn pack(uuid: &str, version: &str, url: &str) -> (String, String, String, u64, String) {
    (uuid.to_string(), version.to_string(), String::new(), 10, url.to_string())
}

#[test]
fn network_settings_turn_on_compression_then_log_in() {
    let mut s = Session::new();
    let a = s.on_event(&ServerEvent::NetworkSettings { compression_algorithm: 1 });
    assert_eq!(a.len(), 2);
    assert!(matches!(a[0], ClientAction::EnableCompression { algorithm: 1 }));
    assert!(matches!(a[1], ClientAction::SendLogin));
}

#[test]
fn handshake_turns_on_encryption() {
    let mut s = Session::new();
    let a = s.on_event(&ServerEvent::ServerToClientHandshake { jwt: b"a.b.c".to_vec() });
    match &a[0] {
        ClientAction::EnableEncryption { jwt } => assert_eq!(jwt, &b"a.b.c".to_vec()),
        _ => panic!("expected encryption first"),
    }
    assert!(matches!(a[1], ClientAction::SendClientToServerHandshake));
}

#[test]
fn pack_list_requests_streamed_packs_and_fetches_cdn_ones() {
    let mut s = Session::new();
    let e = ServerEvent::ResourcePacksInfo {
        enabled: true,
        packs: vec![pack("a", "1", "https://x/a.zip"), pack("b", "2", "")],
        cached: vec![false, false],
    };
    let a = s.on_event(&e);
    assert_eq!(a.len(), 3);
    match &a[0] {
        ClientAction::FetchCdn { pack } => assert_eq!(pack.uuid, "a"),
        _ => panic!("expected a download"),
    }
    match &a[1] {
        ClientAction::SendPackResponse { status, pack_ids } => {
            assert_eq!(*status, PackStatus::SendPacks);
            assert_eq!(pack_ids, &vec!["b_2".to_string()]);
        }
        _ => panic!("expected a pack response"),
    }
    assert!(matches!(a[2], ClientAction::SendClientCacheStatus { enabled: false }));
}

#[test]
fn pack_list_without_downloads_has_all_packs() {
    let mut s = Session::new();
    let e = ServerEvent::ResourcePacksInfo { enabled: false, packs: vec![pack("a", "1", "")], cached: vec![false] };
    let a = s.on_event(&e);
    assert_eq!(a.len(), 2);
    match &a[0] {
        ClientAction::SendPackResponse { status, pack_ids } => {
            assert_eq!(*status, PackStatus::HaveAllPacks);
            assert!(pack_ids.is_empty());
        }
        _ => panic!("expected a pack response"),
    }
}

#[test]
fn streamed_pack_is_requested_and_finished() {
    let mut s = Session::new();
    s.on_event(&ServerEvent::ResourcePacksInfo { enabled: true, packs: vec![pack("b", "2", "")], cached: vec![false] });
    let a = s.on_event(&ServerEvent::ResourcePackDataInfo {
        enabled: true,
        pack_id: "b_2".to_string(),
        chunk_count: 2,
        max_chunk_size: 5,
        compressed_size: 10,
        sha256: vec![],
    });
    assert_eq!(a.len(), 2);
    assert!(matches!(&a[1], ClientAction::SendChunkRequest { pack_id, chunk_index: 1 } if pack_id == "b_2"));
    let a = s.on_event(&ServerEvent::ResourcePackChunkData { pack_id: "b_2".to_string(), chunk_index: 0, offset: 0, data: vec![1; 5] });
    assert!(a.is_empty());
    let a = s.on_event(&ServerEvent::ResourcePackChunkData { pack_id: "b_2".to_string(), chunk_index: 1, offset: 5, data: vec![2; 5] });
    assert_eq!(a.len(), 1);
    assert!(matches!(&a[0], ClientAction::SendPackResponse { status: PackStatus::HaveAllPacks, pack_ids } if pack_ids.is_empty()));
    let done = s.packs.take_completed();
    assert_eq!(done.len(), 1);
    assert_eq!(done[0].data.len(), 10);
}

#[test]
fn pack_stack_completes() {
    let mut s = Session::new();
    let a = s.on_event(&ServerEvent::ResourcePackStack);
    assert!(matches!(&a[0], ClientAction::SendPackResponse { status: PackStatus::Completed, .. }));
}

#[test]
fn start_game_then_spawn() {
    let mut s = Session::new();
    let a = s.on_event(&ServerEvent::PlayStatus { status: 0 });
    assert!(a.is_empty());
    let a = s.on_event(&ServerEvent::StartGame { actor_runtime_id: 77 });
    assert_eq!(s.player_runtime_id, 77);
    assert!(matches!(a[0], ClientAction::SendRequestChunkRadius { radius: CHUNK_RADIUS, max_radius: 40 }));
    assert!(matches!(a[1], ClientAction::BuildBlockPalette));
    let a = s.on_event(&ServerEvent::PlayStatus { status: 3 });
    assert!(matches!(a[0], ClientAction::SendSetLocalPlayerAsInitialized { actor_runtime_id: 77 }));
}

#[test]
fn latency_probe_and_disconnect() {
    let mut s = Session::new();
    assert!(s.on_event(&ServerEvent::NetworkStackLatency { timestamp: 5, need_response: false }).is_empty());
    let a = s.on_event(&ServerEvent::NetworkStackLatency { timestamp: 5, need_response: true });
    assert!(matches!(a[0], ClientAction::SendNetworkStackLatency { timestamp: 5 }));
    assert!(matches!(s.on_event(&ServerEvent::AvailableCommands)[0], ClientAction::SendRequestChunkRadius { .. }));
    assert!(!s.should_stop);
    assert!(s.on_event(&ServerEvent::Other).is_empty());
    assert!(s.on_event(&ServerEvent::Disconnect).is_empty());
    assert!(s.should_stop);
}

#[test]
fn disabled_data_info_and_unknown_chunks_are_answered() {
    let mut s = Session::new();
    let a = s.on_event(&ServerEvent::ResourcePackDataInfo {
        enabled: false,
        pack_id: "x".to_string(),
        chunk_count: 1,
        max_chunk_size: 0,
        compressed_size: u64::MAX,
        sha256: vec![],
    });
    assert!(a.is_empty());
    let a = s.on_event(&ServerEvent::ResourcePackChunkData { pack_id: "x".to_string(), chunk_index: 0, offset: u64::MAX, data: vec![1] });
    assert_eq!(a.len(), 1);
    assert!(matches!(&a[0], ClientAction::SendPackResponse { status: PackStatus::HaveAllPacks, .. }));
}

#[test]
fn connected_ping_is_answered_with_the_time() {
    let mut s = Session::new();
    let a = s.on_event(&ServerEvent::ConnectedPing { ping_time: 42, now: 1_700_000_000 });
    assert_eq!(a.len(), 1);
    assert!(matches!(a[0], ClientAction::SendConnectedPong { ping_time: 42, pong_time: 1_700_000_000 }));
    assert!(!s.should_stop);
}
