use bedrock_client::protocol::bedrock::batch::split_batch;
use bedrock_client::protocol::bedrock::command_output::CommandOutput;
use bedrock_client::protocol::bedrock::serializer::packet_serializer::PacketSerializer;
use bedrock_client::protocol::bedrock::types::command::command_origin_data::CommandOriginData;
use bedrock_client::protocol::bedrock::types::command::command_output_message::CommandOutputMessage;
use bedrock_client::protocol::bedrock::types::inventory::item_stack::ItemStack;
use bedrock_client::protocol::bedrock::types::inventory::item_stack_wrapper::ItemStackWrapper;
use bedrock_client::wire::ByteReader;

const UUID_TEXT: &str = "00112233-4455-6677-8899-aabbccddeeff";

#[test]
fn string_roundtrip_and_prefix() {
    let mut out = Vec::new();
    PacketSerializer::put_string(&mut out, "héllo");
    assert_eq!(out[0], 6);
    let mut r = ByteReader::new(&out);
    assert_eq!(PacketSerializer::get_string(&mut r), Some("héllo".to_string()));
    assert!(r.feof());
}

#[test]
fn invalid_utf8_string_is_read_lossily() {
    let bytes = [3u8, b'a', 0xff, b'b'];
    let mut r = ByteReader::new(&bytes);
    assert_eq!(PacketSerializer::get_string(&mut r), Some("a\u{fffd}b".to_string()));
}

#[test]
fn short_string_is_refused() {
    let bytes = [5u8, b'a', b'b'];
    let mut r = ByteReader::new(&bytes);
    assert_eq!(PacketSerializer::get_string(&mut r), None);
    assert_eq!(r.remaining_byte_count(), 3);
}

#[test]
fn byte_string_roundtrip() {
    let mut out = Vec::new();
    let data: Vec<u8> = (0..200u8).collect();
    PacketSerializer::put_byte_string(&mut out, &data);
    assert_eq!(&out[..2], &[200, 1]);
    let mut r = ByteReader::new(&out);
    assert_eq!(PacketSerializer::get_byte_string(&mut r), Some(data));
}

#[test]
fn uuid_halves_are_reversed_on_the_wire() {
    let mut out = Vec::new();
    assert!(PacketSerializer::is_uuid(UUID_TEXT));
    PacketSerializer::put_uuid(&mut out, UUID_TEXT);
    assert_eq!(
        out,
        vec![0x77, 0x66, 0x55, 0x44, 0x33, 0x22, 0x11, 0x00, 0xff, 0xee, 0xdd, 0xcc, 0xbb, 0xaa, 0x99, 0x88]
    );
    let mut r = ByteReader::new(&out);
    assert_eq!(PacketSerializer::get_uuid(&mut r), Some(UUID_TEXT.to_string()));
}

#[test]
fn uppercase_uuid_reads_back_lowercase() {
    let mut out = Vec::new();
    PacketSerializer::put_uuid(&mut out, "00112233-4455-6677-8899-AABBCCDDEEFF");
    let mut r = ByteReader::new(&out);
    assert_eq!(PacketSerializer::get_uuid(&mut r), Some(UUID_TEXT.to_string()));
}

#[test]
fn malformed_uuid_text_is_not_a_uuid() {
    assert!(!PacketSerializer::is_uuid("not-a-uuid"));
    assert!(!PacketSerializer::is_uuid(""));
}

#[test]
fn actor_ids_and_block_pos() {
    let mut out = Vec::new();
    PacketSerializer::put_actor_unique_id(&mut out, -5);
    PacketSerializer::put_actor_runtime_id(&mut out, 300);
    PacketSerializer::put_block_pos(&mut out, &vec![1, -64, 1_000_000]);
    assert_eq!(&out[..3], &[0x09, 0xac, 0x02]);
    let mut r = ByteReader::new(&out);
    assert_eq!(PacketSerializer::get_actor_unique_id(&mut r), Some(-5));
    assert_eq!(PacketSerializer::get_actor_runtime_id(&mut r), Some(300));
    assert_eq!(PacketSerializer::get_block_pos(&mut r), Some(vec![1, -64, 1_000_000]));
}

#[test]
fn net_ids_roundtrip() {
    let mut out = Vec::new();
    PacketSerializer::write_recipe_net_id(&mut out, 7);
    PacketSerializer::write_creative_item_net_id(&mut out, 8);
    PacketSerializer::write_item_stack_net_id_variant(&mut out, -9);
    PacketSerializer::write_item_stack_request_id(&mut out, 10);
    PacketSerializer::write_legacy_item_stack_request_id(&mut out, -11);
    PacketSerializer::write_server_item_stack_id(&mut out, 12);
    let mut r = ByteReader::new(&out);
    assert_eq!(PacketSerializer::read_recipe_net_id(&mut r), Some(7));
    assert_eq!(PacketSerializer::read_creative_item_net_id(&mut r), Some(8));
    assert_eq!(PacketSerializer::read_item_stack_net_id_variant(&mut r), Some(-9));
    assert_eq!(PacketSerializer::read_item_stack_request_id(&mut r), Some(10));
    assert_eq!(PacketSerializer::read_legacy_item_stack_request_id(&mut r), Some(-11));
    assert_eq!(PacketSerializer::read_server_item_stack_id(&mut r), Some(12));
    assert!(r.feof());
}

#[test]
fn item_stack_without_stack_id_roundtrip() {
    let stack = ItemStack::new(5, 2, 64, 1234, vec![1, 2, 3]);
    let mut out = Vec::new();
    PacketSerializer::put_item_stack_without_stack_id(&mut out, &stack);
    let mut r = ByteReader::new(&out);
    let back = PacketSerializer::get_item_stack_without_stack_id(&mut r).unwrap();
    assert_eq!((back.id, back.meta, back.count, back.block_runtime_id), (5, 2, 64, 1234));
    assert_eq!(back.raw_extra_data, vec![1, 2, 3]);
}

#[test]
fn empty_item_stack_layout() {
    let stack = ItemStack::new(0, 0, 0, 0, vec![]);
    let mut out = Vec::new();
    PacketSerializer::put_item_stack_without_stack_id(&mut out, &stack);
    assert_eq!(out, vec![0, 0, 0, 0, 0, 0]);
    let mut r = ByteReader::new(&out);
    let back = PacketSerializer::get_item_stack_without_stack_id(&mut r).unwrap();
    assert_eq!(back.id, 0);
}

#[test]
fn network_item_descriptor_roundtrip() {
    for stack_id in [0, 17] {
        let w = ItemStackWrapper { stack_id, item_stack: ItemStack::new(300, 1, 3, -7, vec![9]) };
        let mut out = Vec::new();
        PacketSerializer::put_network_item_stack_descriptor(&mut out, &w);
        let mut r = ByteReader::new(&out);
        let back = PacketSerializer::get_network_item_stack_descriptor(&mut r).unwrap();
        assert_eq!(back.stack_id, stack_id);
        assert_eq!(back.item_stack.id, 300);
        assert_eq!(back.item_stack.block_runtime_id, -7);
        assert_eq!(back.item_stack.raw_extra_data, vec![9]);
        assert!(r.feof());
    }
}

fn origin() -> CommandOriginData {
    CommandOriginData {
        origin_type: "player".to_string(),
        uuid: UUID_TEXT.to_string(),
        request_id: "req".to_string(),
        player_actor_unique_id: -3,
    }
}

#[test]
fn command_origin_roundtrip() {
    let mut out = Vec::new();
    PacketSerializer::put_command_origin_data(&mut out, &origin());
    let mut r = ByteReader::new(&out);
    let back = PacketSerializer::get_command_origin_data(&mut r).unwrap();
    assert_eq!(back.origin_type, "player");
    assert_eq!(back.uuid, UUID_TEXT);
    assert_eq!(back.request_id, "req");
    assert_eq!(back.player_actor_unique_id, -3);
}

#[test]
fn command_output_roundtrip() {
    let packet = CommandOutput {
        origin_data: origin(),
        output_type: CommandOutput::TYPE_ALL.to_string(),
        success_count: 2,
        messages: vec![
            CommandOutputMessage { message_id: "commands.generic.unknown".to_string(), is_internal: false, parameters: vec!["foo".to_string()] },
            CommandOutputMessage { message_id: "x".to_string(), is_internal: true, parameters: vec![] },
        ],
        data: Some("payload".to_string()),
    };
    assert_eq!(packet.id(), 0x4f);
    let mut out = Vec::new();
    assert!(packet.try_encode(&mut out));
    let mut r = ByteReader::new(&out);
    let back = CommandOutput::decode(&mut r).unwrap();
    assert_eq!(back.output_type, "alloutput");
    assert_eq!(back.success_count, 2);
    assert_eq!(back.messages.len(), 2);
    assert_eq!(back.messages[0].parameters, vec!["foo".to_string()]);
    assert!(back.messages[1].is_internal);
    assert_eq!(back.data, Some("payload".to_string()));
    assert!(r.feof());
}

#[test]
fn command_output_with_bad_uuid_is_not_encoded() {
    let mut o = origin();
    o.uuid = "nope".to_string();
    let packet = CommandOutput { origin_data: o, output_type: "silent".to_string(), success_count: 0, messages: vec![], data: None };
    let mut out = vec![1, 2, 3];
    assert!(!packet.try_encode(&mut out));
    assert_eq!(out, vec![1, 2, 3]);
}

#[test]
fn batch_splits_into_packets() {
    let mut body = Vec::new();
    PacketSerializer::put_byte_string(&mut body, &[0x01, 0xaa]);
    PacketSerializer::put_byte_string(&mut body, &[]);
    PacketSerializer::put_byte_string(&mut body, &[7; 200]);
    let packets = split_batch(&body).unwrap();
    assert_eq!(packets, vec![vec![0x01, 0xaa], vec![], vec![7; 200]]);
    assert_eq!(split_batch(&[]), Some(vec![]));
    assert_eq!(split_batch(&[3, 1, 2]), None);
}

#[test]
fn optional_string_written_with_flag() {
    let mut w: Vec<u8> = Vec::new();
    PacketSerializer::write_optional(&mut w, &Some("ab".to_string()), |s, v| PacketSerializer::put_string(s, v));
    assert_eq!(w, vec![1, 2, b'a', b'b']);
    let mut n: Vec<u8> = Vec::new();
    PacketSerializer::write_optional(&mut n, &None::<String>, |s, v| PacketSerializer::put_string(s, v));
    assert_eq!(n, vec![0]);
}

#[test]
fn optional_string_read_back() {
    let bytes = [1u8, 2, b'a', b'b', 9];
    let mut r = ByteReader::new(&bytes);
    let got = PacketSerializer::read_optional(&mut r, |s| PacketSerializer::get_string(s));
    assert_eq!(got, Some(Some("ab".to_string())));
    assert_eq!(r.offset(), 4);

    let absent = [0u8, 7];
    let mut r = ByteReader::new(&absent);
    assert_eq!(PacketSerializer::read_optional(&mut r, |s| PacketSerializer::get_string(s)), Some(None));
    assert_eq!(r.offset(), 1);
}

#[test]
fn optional_read_failure_leaves_reader() {
    let empty: [u8; 0] = [];
    let mut r = ByteReader::new(&empty);
    assert_eq!(PacketSerializer::read_optional(&mut r, |s| PacketSerializer::get_string(s)), None);
    assert_eq!(r.offset(), 0);

    let short = [1u8, 5, b'a'];
    let mut r = ByteReader::new(&short);
    assert_eq!(PacketSerializer::read_optional(&mut r, |s| PacketSerializer::get_string(s)), None);
    assert_eq!(r.offset(), 0);
}

#[test]
fn double_optional_round_trip() {
    let mut w: Vec<u8> = Vec::new();
    PacketSerializer::write_double_optional(&mut w, &Some(vec![7u8]), |s, v| PacketSerializer::put_byte_string(s, v));
    assert_eq!(w, vec![1, 1, 1, 7]);
    let mut r = ByteReader::new(&w);
    assert_eq!(
        PacketSerializer::read_double_optional(&mut r, |s| PacketSerializer::get_byte_string(s)),
        Some(Some(vec![7u8]))
    );
    assert_eq!(r.offset(), 4);

    let mut n: Vec<u8> = Vec::new();
    PacketSerializer::write_double_optional(&mut n, &None::<Vec<u8>>, |s, v| PacketSerializer::put_byte_string(s, v));
    assert_eq!(n, vec![1, 0]);
    let mut r = ByteReader::new(&n);
    assert_eq!(PacketSerializer::read_double_optional(&mut r, |s| PacketSerializer::get_byte_string(s)), Some(None));
    assert_eq!(r.offset(), 2);

    let outer_absent = [0u8];
    let mut r = ByteReader::new(&outer_absent);
    assert_eq!(PacketSerializer::read_double_optional(&mut r, |s| PacketSerializer::get_byte_string(s)), Some(None));
    assert_eq!(r.offset(), 1);

    let cut = [1u8, 1, 3, 0];
    let mut r = ByteReader::new(&cut);
    assert_eq!(PacketSerializer::read_double_optional(&mut r, |s| PacketSerializer::get_byte_string(s)), None);
    assert_eq!(r.offset(), 0);
}
