use bedrock_client::protocol::bedrock::types::inventory::full_container_name::FullContainerName;
use bedrock_client::protocol::bedrock::types::inventory::stack_request::destroy_stack_request_action::DestroyStackRequestAction;
use bedrock_client::protocol::bedrock::types::inventory::stack_request::item_stack_request_slot_info::ItemStackRequestSlotInfo;
use bedrock_client::protocol::bedrock::types::sub_chunk_entry_common::SubChunkEntryCommon;
use bedrock_client::protocol::bedrock::types::sub_chunk_height_map_info::SubChunkHeightMapInfo;
use bedrock_client::protocol::bedrock::types::sub_chunk_height_map_type::SubChunkHeightMapType;
use bedrock_client::protocol::bedrock::types::sub_chunk_position_offset::SubChunkPositionOffset;
use bedrock_client::wire::ByteReader;

#[test]
fn full_container_name_bytes() {
    let mut out = Vec::new();
    FullContainerName::new(7, None).write(&mut out);
    assert_eq!(out, vec![7, 0]);
    out.clear();
    FullContainerName::new(7, Some(0x01020304)).write(&mut out);
    assert_eq!(out, vec![7, 1, 4, 3, 2, 1]);
    let mut r = ByteReader::new(&out);
    assert_eq!(FullContainerName::read(&mut r), Some(FullContainerName::new(7, Some(0x01020304))));
}

#[test]
fn destroy_action_roundtrip() {
    let slot = ItemStackRequestSlotInfo::new(FullContainerName::new(12, None), 3, -42);
    let action = DestroyStackRequestAction::new(5, slot);
    let mut out = Vec::new();
    action.write(&mut out);
    assert_eq!(out, vec![5, 12, 0, 3, 0xd6, 0xff, 0xff, 0xff]);
    let mut r = ByteReader::new(&out);
    assert_eq!(DestroyStackRequestAction::read(&mut r), Some(action));
    assert!(r.feof());
}

#[test]
fn slot_info_short_input() {
    let bytes = [1u8, 0, 2, 0xff];
    let mut r = ByteReader::new(&bytes);
    assert_eq!(ItemStackRequestSlotInfo::read(&mut r), None);
    assert_eq!(r.remaining_byte_count(), 4);
}

#[test]
fn position_offset_is_signed() {
    let mut out = Vec::new();
    SubChunkPositionOffset::new(-1, 0, 127).write(&mut out);
    assert_eq!(out, vec![0xff, 0, 0x7f]);
    let mut r = ByteReader::new(&out);
    assert_eq!(SubChunkPositionOffset::read(&mut r), Some(SubChunkPositionOffset::new(-1, 0, 127)));
}

#[test]
fn height_map_classification() {
    assert!(SubChunkHeightMapInfo::all_too_low().is_all_too_low());
    assert!(!SubChunkHeightMapInfo::all_too_low().is_all_too_high());
    assert!(SubChunkHeightMapInfo::all_too_high().is_all_too_high());
    assert_eq!(SubChunkHeightMapInfo::all_too_high().heights()[0], 16);
    assert_eq!(SubChunkHeightMapInfo::all_too_low().heights()[255], -1);
    let mut h = vec![-1i8; 256];
    h[10] = 3;
    let m = SubChunkHeightMapInfo::new(h).unwrap();
    assert!(!m.is_all_too_low());
    assert!(!m.is_all_too_high());
    assert!(SubChunkHeightMapInfo::new(vec![0; 255]).is_none());
}

fn data_map() -> SubChunkHeightMapInfo {
    let mut h = vec![0i8; 256];
    h[0] = -5;
    h[255] = 20;
    SubChunkHeightMapInfo::new(h).unwrap()
}

#[test]
fn sub_chunk_entry_roundtrip() {
    let e = SubChunkEntryCommon::new(SubChunkPositionOffset::new(1, -2, 3), 1, Some(vec![9, 8, 7]), Some(data_map()), Some(SubChunkHeightMapInfo::all_too_high()));
    let mut out = Vec::new();
    e.write(&mut out);
    assert_eq!(out.len(), 3 + 1 + 1 + 1 + 3 + 2 + 256 + 2);
    let mut r = ByteReader::new(&out);
    let back = SubChunkEntryCommon::read(&mut r).unwrap();
    assert_eq!(back.offset, SubChunkPositionOffset::new(1, -2, 3));
    assert_eq!(back.terrain_data, Some(vec![9, 8, 7]));
    assert_eq!(back.height_map.unwrap().heights(), data_map().heights());
    assert!(back.render_height_map.unwrap().is_all_too_high());
    assert!(r.feof());
}

#[test]
fn missing_render_map_reads_back_as_copy() {
    let e = SubChunkEntryCommon::new(SubChunkPositionOffset::new(0, 0, 0), 1, None, Some(data_map()), None);
    let mut out = Vec::new();
    e.write(&mut out);
    assert_eq!(out[out.len() - 2], SubChunkHeightMapType::ALL_COPIED);
    let mut r = ByteReader::new(&out);
    let back = SubChunkEntryCommon::read(&mut r).unwrap();
    assert_eq!(back.render_height_map.unwrap().heights(), data_map().heights());
}

#[test]
fn map_below_reads_back_as_all_too_low() {
    let e = SubChunkEntryCommon::new(SubChunkPositionOffset::new(0, 0, 0), 0, None, Some(SubChunkHeightMapInfo::new(vec![-7i8; 256]).unwrap()), None);
    let mut out = Vec::new();
    e.write(&mut out);
    assert_eq!(out, vec![0, 0, 0, 0, 0, SubChunkHeightMapType::ALL_TOO_LOW, 0, SubChunkHeightMapType::ALL_COPIED, 0]);
    let mut r = ByteReader::new(&out);
    let back = SubChunkEntryCommon::read(&mut r).unwrap();
    assert_eq!(back.height_map.unwrap().heights()[0], -1);
}

#[test]
fn unknown_height_map_kind_is_refused() {
    let bytes = [0u8, 0, 0, 0, 0, 9, 0, 0, 0];
    let mut r = ByteReader::new(&bytes);
    assert!(SubChunkEntryCommon::read(&mut r).is_none());
    assert_eq!(r.offset(), 0);
}

#[test]
fn all_copied_height_map_kind_is_refused_for_the_height_map() {
    let bytes = [0u8, 0, 0, 0, 0, 4, 0, 0, 0];
    let mut r = ByteReader::new(&bytes);
    assert!(SubChunkEntryCommon::read(&mut r).is_none());
}
