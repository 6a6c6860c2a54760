//! A slot named in an item stack request: its container, slot and stack id.

use vstd::prelude::*;
use crate::protocol::bedrock::types::inventory::full_container_name::{
    full_container_name_bytes, lemma_full_container_name_roundtrip, parse_full_container_name,
    FullContainerName,
};
use crate::wire::{
    le_bytes, lemma_i32_le_roundtrip, parse_i32_le, put_i32_le, put_u8, twos, ByteReader,
};

verus! {

#[derive(Clone, Copy, Debug, PartialEq, Eq, Structural)]
pub struct ItemStackRequestSlotInfo {
    pub container_name: FullContainerName,
    pub slot_id: u8,
    pub stack_id: i32,
}

/// The container name, the slot as one byte, then the stack id as 32
/// little-endian bits.
pub open spec fn slot_info_bytes(v: ItemStackRequestSlotInfo) -> Seq<u8> {
    full_container_name_bytes(v.container_name) + seq![v.slot_id] + le_bytes(
        twos(v.stack_id as int, 4),
        4,
    )
}

/// The slot at the start of `s`, and what follows it.
pub open spec fn parse_slot_info(s: Seq<u8>) -> Option<(ItemStackRequestSlotInfo, Seq<u8>)> {
    match parse_full_container_name(s) {
        None => None,
        Some((container_name, s1)) => if s1.len() < 1 {
            None
        } else {
            match parse_i32_le(s1.skip(1)) {
                None => None,
                Some((stack_id, n)) => Some(
                    (
                        ItemStackRequestSlotInfo { container_name, slot_id: s1[0], stack_id },
                        s1.skip(1).skip(n as int),
                    ),
                ),
            }
        },
    }
}

/// A slot written out reads back as itself, whatever follows it.
pub proof fn lemma_slot_info_roundtrip(v: ItemStackRequestSlotInfo, t: Seq<u8>)
    ensures
        parse_slot_info(slot_info_bytes(v) + t) == Some((v, t)),
{
    let a = full_container_name_bytes(v.container_name);
    let c = le_bytes(twos(v.stack_id as int, 4), 4);
    let s1 = seq![v.slot_id] + c + t;
    assert(slot_info_bytes(v) + t =~= a + s1);
    lemma_full_container_name_roundtrip(v.container_name, s1);
    assert(s1.skip(1) =~= c + t);
    lemma_i32_le_roundtrip(v.stack_id, t);
    assert((c + t).skip(4) =~= t);
}

impl ItemStackRequestSlotInfo {
    pub fn new(container_name: FullContainerName, slot_id: u8, stack_id: i32) -> (r: ItemStackRequestSlotInfo)
        ensures
            r == (ItemStackRequestSlotInfo { container_name, slot_id, stack_id }),
    {
        ItemStackRequestSlotInfo { container_name, slot_id, stack_id }
    }

    /// Reads a slot; on too short an input returns `None` and leaves
    /// `stream` as it was.
    pub fn read(stream: &mut ByteReader) -> (r: Option<ItemStackRequestSlotInfo>)
        ensures
            match parse_slot_info(old(stream).rest()) {
                Some((v, rest)) => r == Some(v) && final(stream).rest() == rest,
                None => r is None && final(stream).rest() == old(stream).rest(),
            },
    {
        let mut cur = *stream;
        let container_name = match FullContainerName::read(&mut cur) {
            Some(v) => v,
            None => return None,
        };
        let slot_id = match cur.get_u8() {
            Some(v) => v,
            None => return None,
        };
        let stack_id = match cur.get_i32_le() {
            Some(v) => v,
            None => return None,
        };
        *stream = cur;
        Some(ItemStackRequestSlotInfo { container_name, slot_id, stack_id })
    }

    /// Appends the slot.
    pub fn write(&self, stream: &mut Vec<u8>)
        ensures
            final(stream)@ == old(stream)@ + slot_info_bytes(*self),
    {
        self.container_name.write(stream);
        put_u8(stream, self.slot_id);
        put_i32_le(stream, self.stack_id);
        assert(final(stream)@ =~= old(stream)@ + slot_info_bytes(*self));
    }
}

} // verus!
