//! Identifiers of the RakNet messages and the offline-message magic.

use vstd::prelude::*;

verus! {

/// The sixteen bytes every offline RakNet message carries.
pub const MAGIC: [u8; 16] = [
    0x00, 0xff, 0xff, 0x00, 0xfe, 0xfe, 0xfe, 0xfe, 0xfd, 0xfd, 0xfd, 0xfd, 0x12, 0x34, 0x56, 0x78,
];

pub const ID_CONNECTED_PING: u8 = 0x00;
pub const ID_UNCONNECTED_PING: u8 = 0x01;
pub const ID_CONNECTED_PONG: u8 = 0x03;
pub const ID_OPEN_CONN_REQ1: u8 = 0x05;
pub const ID_OPEN_CONN_REPLY1: u8 = 0x06;
pub const ID_OPEN_CONN_REQ2: u8 = 0x07;
pub const ID_OPEN_CONN_REPLY2: u8 = 0x08;
pub const ID_CONN_REQ: u8 = 0x09;
pub const ID_CONN_REQ_ACCEPTED: u8 = 0x10;
pub const ID_NEW_INCOMING_CONN: u8 = 0x13;
pub const ID_DISCONNECTION_NOTIFICATION: u8 = 0x15;
pub const ID_INCOMPATIBLE_PROTOCOL: u8 = 0x19;
pub const ID_UNCONNECTED_PONG: u8 = 0x1c;
pub const ID_NACK: u8 = 0xa0;
pub const ID_ACK: u8 = 0xc0;
pub const ID_GAME: u8 = 0xfe;

} // verus!
