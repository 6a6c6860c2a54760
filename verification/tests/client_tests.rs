use bedrock_client::client::range_messages;
use bedrock_client::protocol::raknet::packet_ids::{ID_ACK, ID_NACK};
use bedrock_client::client::{ack_ranges, runs_of, sorted_unique, ChunkGate, ReceiveWindow, MAX_NACKS_PER_PASS};

#[test]
fn ack_ranges_merge_runs() {
    let pending = vec![5, 3, 4, 10, 4, 12, 11, 0];
    assert_eq!(ack_ranges(&pending), vec![(0, 0), (3, 5), (10, 12)]);
}

#[test]
fn ack_ranges_of_nothing() {
    assert_eq!(ack_ranges(&vec![]), vec![]);
}

#[test]
fn ack_ranges_at_the_top_of_the_range() {
    assert_eq!(ack_ranges(&vec![u32::MAX, u32::MAX - 1, 0]), vec![(0, 0), (u32::MAX - 1, u32::MAX)]);
}

#[test]
fn sorted_unique_drops_duplicates() {
    assert_eq!(sorted_unique(&vec![3, 1, 3, 2, 1]), vec![1, 2, 3]);
}

#[test]
fn runs_of_sorted_numbers() {
    assert_eq!(runs_of(&vec![1, 2, 3, 7, 9, 10]), vec![(1, 3), (7, 7), (9, 10)]);
}

#[test]
fn skipped_datagrams_become_missing() {
    let mut w = ReceiveWindow::new();
    assert_eq!(w.last_received(), -1);
    w.on_datagram(0, 1000);
    assert!(w.missing().is_empty());
    w.on_datagram(4, 1000);
    assert_eq!(w.missing(), &vec![(1, 940), (2, 940), (3, 940)]);
    assert_eq!(w.last_received(), 4);
    w.on_datagram(2, 1010);
    assert_eq!(w.missing(), &vec![(1, 940), (3, 940)]);
    assert_eq!(w.last_received(), 4);
}

#[test]
fn missing_datagrams_stay_within_the_window() {
    let mut w = ReceiveWindow::new();
    w.on_datagram(0, 100);
    w.on_datagram(1000, 100);
    assert_eq!(w.missing().len(), 512);
    assert_eq!(w.missing()[0].0, 488);
    assert_eq!(w.missing()[511].0, 999);
}

#[test]
fn nack_pass_asks_for_due_datagrams() {
    let mut w = ReceiveWindow::new();
    w.on_datagram(0, 1000);
    w.on_datagram(3, 1000);
    w.on_datagram(10, 1100);
    let ranges = w.nack_pass(1050, false);
    assert_eq!(ranges, vec![(1, 2)]);
    assert_eq!(w.missing()[0], (1, 1050));
    assert_eq!(w.missing()[1], (2, 1050));
    assert_eq!(w.missing()[2], (4, 1040));
    let ranges = w.nack_pass(1100, false);
    assert_eq!(ranges, vec![(4, 9)]);
}

#[test]
fn nack_pass_gives_up_unless_blocked() {
    let mut w = ReceiveWindow::new();
    w.on_datagram(0, 1000);
    w.on_datagram(2, 1000);
    let mut blocked = ReceiveWindow::new();
    blocked.on_datagram(0, 1000);
    blocked.on_datagram(2, 1000);
    assert_eq!(w.nack_pass(30_000, false), vec![]);
    assert!(w.missing().is_empty());
    assert_eq!(blocked.nack_pass(30_000, true), vec![(1, 1)]);
    assert_eq!(blocked.missing(), &vec![(1, 30_000)]);
}

#[test]
fn nack_pass_is_capped() {
    let mut w = ReceiveWindow::new();
    let mut seq = 0u32;
    w.on_datagram(seq, 1000);
    for _ in 0..20 {
        seq += 2;
        w.on_datagram(seq, 1000);
    }
    let ranges = w.nack_pass(2000, false);
    assert_eq!(ranges.len(), MAX_NACKS_PER_PASS);
    assert_eq!(ranges[0], (1, 1));
    assert_eq!(ranges[15], (31, 31));
    let next = w.nack_pass(2000, false);
    assert_eq!(next, vec![(33, 33), (35, 35), (37, 37), (39, 39)]);
}

#[test]
fn range_messages_encode_each_range() {
    let msgs = range_messages(ID_ACK, &vec![(5, 5), (7, 0x010203)]);
    assert_eq!(msgs.len(), 2);
    assert_eq!(msgs[0], vec![ID_ACK, 0, 1, 1, 5, 0, 0]);
    assert_eq!(msgs[1], vec![ID_ACK, 0, 1, 0, 7, 0, 0, 0x03, 0x02, 0x01]);
    let nacks = range_messages(ID_NACK, &vec![]);
    assert!(nacks.is_empty());
}

#[test]
fn chunks_wait_for_the_palette_in_order() {
    let mut g: ChunkGate<&str> = ChunkGate::new();
    assert_eq!(g.on_packet("text", false), Some("text"));
    assert_eq!(g.on_packet("chunk1", true), None);
    assert_eq!(g.on_packet("chunk2", true), None);
    assert_eq!(g.next_held(), None);
    g.on_game_started(false);
    assert_eq!(g.next_held(), None);
    g.on_game_started(true);
    assert!(g.palette_ready());
    assert_eq!(g.on_packet("chunk3", true), Some("chunk3"));
    assert_eq!(g.next_held(), Some("chunk1"));
    assert_eq!(g.next_held(), Some("chunk2"));
    assert_eq!(g.next_held(), None);
}
