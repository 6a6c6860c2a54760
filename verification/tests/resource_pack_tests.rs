use bedrock_client::utils::resource_pack::{
    check_completed, digest_matches, looks_like_zip, pack_path, ChunkOutcome, CompletedPack, PackDownloader,
    PackInfo, CHUNK_WINDOW,
};
use bedrock_client::utils::text::{blank, first_segment, pack_file, trim_end_slashes};

fn info(uuid: &str, version: &str, url: &str) -> PackInfo {
    (uuid.to_string(), version.to_string(), String::new(), 15, url.to_string())
}

#[test]
fn on_info_splits_streamed_cdn_and_cached_packs() {
    let mut d = PackDownloader::new();
    let packs = vec![info("a", "1.0.0", "https://cdn/a.zip"), info("b", "2.0", ""), info("c", "3", "  ")];
    let ids = d.on_info(true, &packs, &[false, true, false]);
    assert_eq!(ids, vec!["c_3".to_string()]);
    assert_eq!(d.cached, 1);
    let cdn = d.take_cdn();
    assert_eq!(cdn.len(), 1);
    assert_eq!(cdn[0].uuid, "a");
    assert_eq!(cdn[0].url, "https://cdn/a.zip");
    assert!(d.take_cdn().is_empty());
    assert!(!d.all_done());
}

#[test]
fn disabled_downloader_does_nothing() {
    let mut d = PackDownloader::new();
    let ids = d.on_info(false, &[info("a", "1", "")], &[false]);
    assert!(ids.is_empty());
    assert!(d.on_data_info(false, "a_1", 3, 10, 30, &[]).is_none());
    assert!(d.on_data_info(false, "a_1", 3, 0, u64::MAX, &[]).is_none());
    assert!(d.all_done());
}

#[test]
fn chunks_complete_a_pack() {
    let mut d = PackDownloader::new();
    d.on_info(true, &[info("c", "3", "")], &[false]);
    let first = d.on_data_info(true, "c_3", 1, 10, 15, &[]).unwrap();
    assert_eq!(first, vec![0, 1]);
    assert_eq!(d.chunks_received("c_3"), Some(0));
    assert_eq!(d.on_chunk("c_3", 1, 10, &[2; 5]), ChunkOutcome::Waiting);
    assert!(!d.all_done());
    assert_eq!(d.on_chunk("c_3", 0, 0, &[1; 10]), ChunkOutcome::Complete);
    assert!(d.all_done());
    let done = d.take_completed();
    assert_eq!(done.len(), 1);
    assert_eq!(done[0].uuid, "c");
    assert_eq!(done[0].version, "3");
    assert_eq!(done[0].data, [vec![1u8; 10], vec![2u8; 5]].concat());
    let check = check_completed(&done[0]);
    assert!(check.size_ok);
    assert!(check.digest.is_none());
    assert!(check.digest_ok);
    assert!(check.save);
    d.record_saved(true);
    assert_eq!(d.finished, 1);
}

#[test]
fn window_slides_one_chunk_at_a_time() {
    let mut d = PackDownloader::new();
    d.on_info(true, &[info("p", "", "")], &[false]);
    let first = d.on_data_info(true, "p", 20, 4, 80, &[]).unwrap();
    assert_eq!(first, (0..CHUNK_WINDOW).collect::<Vec<u32>>());
    assert_eq!(d.on_chunk("p", 0, 0, &[0; 4]), ChunkOutcome::Request(8));
    assert_eq!(d.on_chunk("p", 1, 4, &[0; 4]), ChunkOutcome::Request(9));
    assert_eq!(d.chunks_received("p"), Some(2));
}

#[test]
fn chunk_for_unknown_pack_is_ignored() {
    let mut d = PackDownloader::new();
    assert_eq!(d.on_chunk("nope", 0, 0, &[1, 2, 3]), ChunkOutcome::Ignored);
    assert_eq!(d.on_chunk("nope", 0, u64::MAX, &[1, 2, 3]), ChunkOutcome::Ignored);
    assert!(d.take_completed().is_empty());
}

#[test]
fn chunk_count_follows_the_size() {
    let mut d = PackDownloader::new();
    d.on_info(true, &[info("q", "1", "")], &[false]);
    let first = d.on_data_info(true, "q_1", 1, 10, 25, &[]).unwrap();
    assert_eq!(first, vec![0, 1, 2]);
}

#[test]
fn digest_of_completed_pack_is_checked() {
    let pack = CompletedPack {
        uuid: "u".to_string(),
        version: "1".to_string(),
        key: String::new(),
        data: b"abc".to_vec(),
        expected_sha: vec![
            0xba, 0x78, 0x16, 0xbf, 0x8f, 0x01, 0xcf, 0xea, 0x41, 0x41, 0x40, 0xde, 0x5d, 0xae, 0x22, 0x23,
            0xb0, 0x03, 0x61, 0xa3, 0x96, 0x17, 0x7a, 0x9c, 0xb4, 0x10, 0xff, 0x61, 0xf2, 0x00, 0x15, 0xad,
        ],
        expected_size: 4,
    };
    let check = check_completed(&pack);
    assert!(!check.size_ok);
    assert!(check.digest_ok);
    assert!(check.save);
    assert_eq!(check.digest.unwrap(), pack.expected_sha);
    let mut bad = pack;
    bad.expected_sha[0] = 0;
    assert!(!check_completed(&bad).digest_ok);
    assert!(!check_completed(&bad).save);
}

#[test]
fn digest_matches_when_none_announced() {
    assert!(digest_matches(&[], &[1, 2, 3]));
    assert!(digest_matches(&[1, 2], &[1, 2]));
    assert!(!digest_matches(&[1, 2], &[1, 3]));
}

#[test]
fn zip_signature() {
    assert!(looks_like_zip(b"PK\x03\x04rest"));
    assert!(!looks_like_zip(b"PK\x03"));
    assert!(!looks_like_zip(b"<html>"));
}

#[test]
fn pack_paths() {
    assert_eq!(pack_path(None, "a", "1"), None);
    assert_eq!(pack_path(Some("packs//"), "ab c/d", "1.2.3"), Some("packs/ab_c_d_1-2-3.zip".to_string()));
    assert_eq!(pack_path(Some("packs"), "x-y", ""), Some("packs/x-y.zip".to_string()));
    assert_eq!(pack_file("", "u", "v"), "/u_v.zip");
}

#[test]
fn text_helpers() {
    assert!(blank(" \t\n"));
    assert!(!blank(" x "));
    assert!(blank(""));
    assert_eq!(first_segment("uuid_1.0.0"), "uuid");
    assert_eq!(first_segment("plain"), "plain");
    assert_eq!(trim_end_slashes("a/b///"), "a/b");
}

#[test]
fn later_pack_list_replaces_cdn_queue() {
    let mut d = PackDownloader::new();
    d.on_info(true, &[info("old", "1", "https://cdn/old.zip")], &[false]);
    d.on_info(
        true,
        &[info("x", "1", "https://cdn/x.zip"), info("y", "2", "https://cdn/y.zip"), info("z", "3", "https://cdn/z.zip")],
        &[false, true, false],
    );
    let cdn = d.take_cdn();
    let uuids: Vec<&str> = cdn.iter().map(|c| c.uuid.as_str()).collect();
    assert_eq!(uuids, vec!["x", "z"]);
    assert!(d.take_cdn().is_empty());
}
