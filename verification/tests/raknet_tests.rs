use bedrock_client::protocol::raknet::acknowledge::Acknowledge;

use bedrock_client::protocol::raknet::conn_req::ConnReq;
use bedrock_client::protocol::raknet::conn_req_accepted::ConnReqAccepted;
use bedrock_client::protocol::raknet::connected_ping::ConnectedPing;
use bedrock_client::protocol::raknet::connected_pong::ConnectedPong;
use bedrock_client::protocol::raknet::incompatible_protocol::IncompatibleProtocol;
use bedrock_client::protocol::raknet::new_incoming_conn::NewIncomingConn;
use bedrock_client::protocol::raknet::open_conn_reply1::OpenConnReply1;
use bedrock_client::protocol::raknet::open_conn_reply2::OpenConnReply2;
use bedrock_client::protocol::raknet::open_conn_req1::OpenConnReq1;
use bedrock_client::protocol::raknet::packet_ids::{
    ID_CONNECTED_PING, ID_CONN_REQ_ACCEPTED, ID_NACK, ID_OPEN_CONN_REQ1, ID_UNCONNECTED_PING, MAGIC,
};
use bedrock_client::protocol::raknet::unconnected_ping::UnconnectedPing;
use bedrock_client::protocol::raknet::unconnected_pong::UnconnectedPong;
use bedrock_client::utils::address::InternetAddress;
use bedrock_client::wire::ByteReader;

fn v4(text: &str, port: u16) -> InternetAddress {
    InternetAddress::new(4, text.to_string(), port)
}

#[test]
fn unconnected_ping_bytes() {
    let mut out = vec![9, 9];
    UnconnectedPing::create(1, 2).encode(&mut out);
    let mut want = vec![ID_UNCONNECTED_PING, 0, 0, 0, 0, 0, 0, 0, 1];
    want.extend_from_slice(&MAGIC);
    want.extend_from_slice(&[0, 0, 0, 0, 0, 0, 0, 2]);
    assert_eq!(out, want);
    let mut r = ByteReader::new(&out[1..]);
    let p = UnconnectedPing::decode(&mut r).unwrap();
    assert_eq!(p.ping_time, 1);
    assert_eq!(p.client_guid, 2);
}

#[test]
fn unconnected_pong_roundtrip() {
    let mut out = Vec::new();
    let name = "MCPE;Server;712;1.21;0;10;123;World;Survival;1;19132;19133;";
    UnconnectedPong::create(5, 77, name.to_string()).encode(&mut out);
    let mut r = ByteReader::new(&out[1..]);
    let p = UnconnectedPong::decode(&mut r).unwrap();
    assert_eq!(p.pong_time, 5);
    assert_eq!(p.server_id, 77);
    assert_eq!(p.server_name, name);
    assert!(r.feof());
}

#[test]
fn connected_ping_roundtrip() {
    let mut out = Vec::new();
    ConnectedPing::create(0xdead_beef).encode(&mut out);
    assert_eq!(out[0], ID_CONNECTED_PING);
    assert_eq!(out.len(), 9);
    let mut r = ByteReader::new(&out[1..]);
    assert_eq!(ConnectedPing::decode(&mut r).unwrap().ping_time, 0xdead_beef);
}

#[test]
fn conn_req_roundtrip() {
    let mut out = Vec::new();
    ConnReq::new(42, 1000, true).encode(&mut out);
    assert_eq!(out.len(), 18);
    let mut r = ByteReader::new(&out[1..]);
    let p = ConnReq::decode(&mut r).unwrap();
    assert_eq!((p.client_guid, p.request_time, p.secure), (42, 1000, true));
}

#[test]
fn incompatible_protocol_roundtrip() {
    let mut out = Vec::new();
    IncompatibleProtocol::new(11, MAGIC, 99).encode(&mut out);
    let mut r = ByteReader::new(&out[1..]);
    let p = IncompatibleProtocol::decode(&mut r).unwrap();
    assert_eq!(p.server_protocol, 11);
    assert_eq!(p.magic, MAGIC);
    assert_eq!(p.server_guid, 99);
}

#[test]
fn open_conn_req1_pads_to_mtu() {
    let mut out = Vec::new();
    OpenConnReq1::new(MAGIC, 11, 1492).encode(&mut out);
    assert_eq!(out.len(), 1492 - 28);
    assert_eq!(out[0], ID_OPEN_CONN_REQ1);
    assert_eq!(out[17], 11);
    assert!(out[18..].iter().all(|b| *b == 0));
    let mut r = ByteReader::new(&out[1..]);
    let p = OpenConnReq1::decode(&mut r).unwrap();
    assert_eq!(p.protocol, 11);
    assert_eq!(p.mtu_size as usize, out.len() - 18);
}

#[test]
fn open_conn_req1_small_mtu_is_not_padded() {
    let mut out = Vec::new();
    OpenConnReq1::new(MAGIC, 11, 20).encode(&mut out);
    assert_eq!(out.len(), 18);
}

#[test]
fn open_conn_reply1_with_and_without_cookie() {
    let mut out = Vec::new();
    let p = OpenConnReply1 { magic: MAGIC, server_guid: 7, server_security: true, cookie: Some(0x01020304), mtu: 1400 };
    p.encode(&mut out);
    assert_eq!(out.len(), 32);
    let mut r = ByteReader::new(&out[1..]);
    let q = OpenConnReply1::decode(&mut r).unwrap();
    assert_eq!((q.server_guid, q.server_security, q.cookie, q.mtu), (7, true, Some(0x01020304), 1400));

    let p = OpenConnReply1 { magic: MAGIC, server_guid: 7, server_security: false, cookie: None, mtu: 1400 };
    p.encode(&mut out);
    assert_eq!(out.len(), 28);
    let mut r = ByteReader::new(&out[1..]);
    let q = OpenConnReply1::decode(&mut r).unwrap();
    assert_eq!((q.server_security, q.cookie, q.mtu), (false, None, 1400));
}

#[test]
fn open_conn_reply2_roundtrip() {
    let mut out = Vec::new();
    let p = OpenConnReply2 { magic: MAGIC, server_guid: 5, client_address: v4("192.168.0.10", 19132), mtu: 1400, encryption_enabled: false };
    p.encode(&mut out);
    assert_eq!(out.len(), 1 + 16 + 8 + 7 + 2 + 1);
    let mut r = ByteReader::new(&out[1..]);
    let q = OpenConnReply2::decode(&mut r).unwrap();
    assert_eq!(q.client_address.address, "192.168.0.10");
    assert_eq!(q.client_address.port, 19132);
    assert_eq!((q.server_guid, q.mtu, q.encryption_enabled), (5, 1400, false));
}

#[test]
fn conn_req_accepted_roundtrip() {
    let mut system = Vec::new();
    for i in 0..10u16 {
        system.push(v4("10.0.0.1", i));
    }
    let p = ConnReqAccepted { client_address: v4("1.2.3.4", 5000), system_index: 3, system_addresses: system, ping_time: 11, pong_time: 12 };
    assert!(p.is_valid());
    let mut out = Vec::new();
    p.encode(&mut out);
    assert_eq!(out[0], ID_CONN_REQ_ACCEPTED);
    let mut r = ByteReader::new(&out[1..]);
    let q = ConnReqAccepted::decode(&mut r).unwrap();
    assert_eq!(q.client_address.address, "1.2.3.4");
    assert_eq!(q.system_index, 3);
    assert_eq!(q.system_addresses.len(), 10);
    assert_eq!(q.system_addresses[9].port, 9);
    assert_eq!((q.ping_time, q.pong_time), (11, 12));
    assert!(r.feof());
}

#[test]
fn conn_req_accepted_without_system_addresses_uses_loopback() {
    let mut bytes = vec![4u8, !127u8, !0u8, !0u8, !1u8, 0x4a, 0xbc];
    bytes.extend_from_slice(&[0, 1]);
    bytes.extend_from_slice(&[0, 0, 0, 0, 0, 0, 0, 8]);
    bytes.extend_from_slice(&[0, 0, 0, 0, 0, 0, 0, 9]);
    let mut r = ByteReader::new(&bytes);
    let q = ConnReqAccepted::decode(&mut r).unwrap();
    assert_eq!(q.client_address.address, "127.0.0.1");
    assert_eq!(q.client_address.port, 0x4abc);
    assert_eq!(q.system_addresses.len(), 10);
    assert!(q.system_addresses.iter().all(|a| a.address == "127.0.0.1" && a.port == 0 && a.version == 4));
    assert_eq!((q.ping_time, q.pong_time), (8, 9));
}

#[test]
fn new_incoming_conn_roundtrip_with_ipv6() {
    let mut system = Vec::new();
    for i in 0..20u16 {
        if i % 2 == 0 {
            system.push(InternetAddress::new(6, "0:0:0:0:0:0:0:1".to_string(), i));
        } else {
            system.push(v4("255.255.255.255", i));
        }
    }
    let p = NewIncomingConn::new(v4("8.8.8.8", 19132), system, 100, 200);
    assert!(p.is_valid());
    let mut out = Vec::new();
    p.encode(&mut out);
    assert_eq!(out.len(), 1 + 7 + 10 * 29 + 10 * 7 + 16);
    let mut r = ByteReader::new(&out[1..]);
    let q = NewIncomingConn::decode(&mut r).unwrap();
    assert_eq!(q.server_address.address, "8.8.8.8");
    assert_eq!(q.system_addresses[0].address, "0:0:0:0:0:0:0:1");
    assert_eq!(q.system_addresses[0].version, 6);
    assert_eq!(q.system_addresses[19].port, 19);
    assert_eq!((q.ping_time, q.pong_time), (100, 200));
}

#[test]
fn truncated_messages_are_refused() {
    let bytes = [0u8; 5];
    let mut r = ByteReader::new(&bytes);
    assert!(ConnectedPing::decode(&mut r).is_none());
    assert!(ConnReq::decode(&mut r).is_none());
    assert!(UnconnectedPing::decode(&mut r).is_none());
    assert!(NewIncomingConn::decode(&mut r).is_none());
    assert_eq!(r.offset(), 0);
}

#[test]
fn acknowledge_roundtrip() {
    let a = Acknowledge::for_range(ID_NACK, (10, 20));
    assert!(!a.single);
    let mut out = Vec::new();
    a.encode(&mut out);
    assert_eq!(out, vec![ID_NACK, 0, 1, 0, 10, 0, 0, 20, 0, 0]);
    let mut r = ByteReader::new(&out);
    let b = Acknowledge::decode(&mut r).unwrap();
    assert_eq!((b.packet_type, b.record_count, b.single), (ID_NACK, 1, false));
    assert_eq!((b.sequence_number, b.start_index, b.end_index), (None, Some(10), Some(20)));
    let single = Acknowledge::for_range(ID_NACK, (3, 3));
    assert_eq!(single.sequence_number, Some(3));
    let bytes = [0xc0u8, 0, 1, 0, 1, 0];
    let mut r = ByteReader::new(&bytes);
    assert!(Acknowledge::decode(&mut r).is_none());
}

#[test]
fn connected_pong_round_trip() {
    let mut out = Vec::new();
    ConnectedPong::create(0x0102, 7).encode(&mut out);
    assert_eq!(out, vec![0x03, 0, 0, 0, 0, 0, 0, 1, 2, 0, 0, 0, 0, 0, 0, 0, 7]);
    let mut r = ByteReader::new(&out[1..]);
    let p = ConnectedPong::decode(&mut r).unwrap();
    assert_eq!((p.ping_time, p.pong_time), (0x0102, 7));
    let short = [0u8; 15];
    let mut r = ByteReader::new(&short);
    assert!(ConnectedPong::decode(&mut r).is_none());
    assert_eq!(r.offset(), 0);
}

#[test]
fn unconnected_pong_with_non_utf8_name_is_refused() {
    let mut body = vec![0u8; 32];
    body.extend_from_slice(&[0, 2, 0xff, 0xfe]);
    let mut r = ByteReader::new(&body);
    assert!(UnconnectedPong::decode(&mut r).is_none());
    assert_eq!(r.offset(), 0);
}
