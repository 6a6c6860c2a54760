use bedrock_client::protocol::bedrock::serializer::packet_serializer::PacketSerializer;
use bedrock_client::protocol::bedrock::types::skin::{
    PersonaPieceTintColor, PersonaSkinPiece, SkinAnimation, SkinData, SkinImage, COLOR_COUNT,
};
use bedrock_client::wire::ByteReader;

fn image(w: u32, h: u32, data: Vec<u8>) -> SkinImage {
    SkinImage { width: w, height: h, data }
}

fn sample() -> SkinData {
    SkinData {
        skin_id: "skin".to_string(),
        play_fab_id: "pf".to_string(),
        resource_patch: "{}".to_string(),
        skin_image: image(2, 1, vec![1, 2, 3, 4, 5, 6, 7, 8]),
        animations: vec![SkinAnimation {
            image: image(1, 1, vec![9, 9, 9, 9]),
            animation_type: 1,
            frames: 2.0f32.to_bits(),
            expression_type: 0,
        }],
        cape_image: Some(image(0, 0, vec![])),
        geometry_data: "geo".to_string(),
        geometry_data_engine_version: "1.0".to_string(),
        animation_data: "".to_string(),
        cape_id: "cape".to_string(),
        full_skin_id: Some("full".to_string()),
        arm_size: 7,
        skin_color: -2,
        persona_pieces: vec![PersonaSkinPiece {
            piece_id: "piece".to_string(),
            piece_type: 3,
            pack_id: "00112233-4455-6677-8899-aabbccddeeff".to_string(),
            is_default_piece: true,
            product_id: "prod".to_string(),
        }],
        piece_tint_colors: vec![PersonaPieceTintColor { piece_type: "hair".to_string(), colors: vec![1, -1, 2, -2] }],
        is_verified: true,
        premium: true,
        persona: false,
        persona_cape_on_classic: true,
        is_primary_user: false,
        is_override: true,
        trusted_skin_flag: "t".to_string(),
        profile_hash: "h".to_string(),
    }
}

#[test]
fn skin_writes_and_reads_back() {
    let s = sample();
    assert_eq!(COLOR_COUNT, 4);
    let mut w: Vec<u8> = Vec::new();
    PacketSerializer::put_skin(&mut w, &s);
    w.push(0xab);
    let mut r = ByteReader::new(&w);
    let back = PacketSerializer::get_skin(&mut r).unwrap();
    assert_eq!(r.offset(), w.len() - 1);
    assert_eq!(back.skin_id, "skin");
    assert_eq!(back.skin_image.data, vec![1, 2, 3, 4, 5, 6, 7, 8]);
    assert_eq!(back.animations.len(), 1);
    assert_eq!(f32::from_bits(back.animations[0].frames), 2.0);
    assert_eq!(back.cape_image.as_ref().map(|c| c.width), Some(0));
    assert_eq!(back.full_skin_id, Some("full".to_string()));
    assert_eq!(back.arm_size, 7);
    assert_eq!(back.skin_color, -2);
    assert_eq!(back.persona_pieces[0].pack_id, "00112233-4455-6677-8899-aabbccddeeff");
    assert!(back.persona_pieces[0].is_default_piece);
    assert_eq!(back.piece_tint_colors[0].colors, vec![1, -1, 2, -2]);
    assert_eq!(
        (back.premium, back.persona, back.persona_cape_on_classic, back.is_primary_user, back.is_override),
        (true, false, true, false, true)
    );
    assert_eq!(back.profile_hash, "h");
}

#[test]
fn skin_image_bytes_on_the_wire() {
    let mut s = sample();
    s.animations.clear();
    s.persona_pieces.clear();
    s.piece_tint_colors.clear();
    let mut w: Vec<u8> = Vec::new();
    PacketSerializer::put_skin(&mut w, &s);
    // "skin", "pf", "{}" then the image: width 2, height 1 (little-endian), 8 bytes.
    assert_eq!(&w[..12], &[4, b's', b'k', b'i', b'n', 2, b'p', b'f', 2, b'{', b'}', 2]);
    assert_eq!(&w[12..20], &[0, 0, 0, 1, 0, 0, 0, 8]);
}

#[test]
fn truncated_skin_is_refused() {
    let s = sample();
    let mut w: Vec<u8> = Vec::new();
    PacketSerializer::put_skin(&mut w, &s);
    w.pop();
    let mut r = ByteReader::new(&w);
    assert!(PacketSerializer::get_skin(&mut r).is_none());
    assert_eq!(r.offset(), 0);
}

#[test]
fn missing_cape_writes_nothing() {
    let mut s = sample();
    let mut with: Vec<u8> = Vec::new();
    PacketSerializer::put_skin(&mut with, &s);
    s.cape_image = None;
    let mut without: Vec<u8> = Vec::new();
    PacketSerializer::put_skin(&mut without, &s);
    // The empty cape image takes 4 + 4 + 1 bytes.
    assert_eq!(with.len(), without.len() + 9);
}
