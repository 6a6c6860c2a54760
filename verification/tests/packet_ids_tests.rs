use bedrock_client::protocol::game::bedrock_packet_ids::BedrockPacketType;

#[test]
fn known_ids_map_both_ways() {
    assert_eq!(BedrockPacketType::from_byte(0x01), BedrockPacketType::Login);
    assert_eq!(BedrockPacketType::Login.get_byte(), 0x01);
    assert_eq!(BedrockPacketType::from_byte(0x4f), BedrockPacketType::CommandOutput);
    assert_eq!(BedrockPacketType::CommandOutput.get_byte(), 0x4f);
    assert_eq!(BedrockPacketType::Disconnect.get_byte(), 0x05);
}

#[test]
fn unknown_id_is_unknown() {
    assert_eq!(BedrockPacketType::from_byte(0x7fff), BedrockPacketType::Unknown);
    assert_eq!(BedrockPacketType::Unknown.get_byte(), 0);
    assert_eq!(BedrockPacketType::get_packet_name(0x7fff), "Unknown Packet");
}

#[test]
fn names_of_packets() {
    assert_eq!(BedrockPacketType::get_packet_name(0x01), "Login");
    assert_eq!(BedrockPacketType::get_packet_name(0x4f), "Command Output");
}

#[test]
fn every_listed_id_comes_back() {
    for id in 0u16..0x200 {
        let t = BedrockPacketType::from_byte(id);
        if t != BedrockPacketType::Unknown {
            assert_eq!(t.get_byte(), id);
        }
    }
}
