//! The request action that destroys items: how many, and from which slot.

use vstd::prelude::*;
use crate::protocol::bedrock::types::inventory::stack_request::item_stack_request_slot_info::{
    lemma_slot_info_roundtrip, parse_slot_info, slot_info_bytes, ItemStackRequestSlotInfo,
};
use crate::wire::{put_u8, ByteReader};

verus! {

#[derive(Clone, Copy, Debug, PartialEq, Eq, Structural)]
pub struct DestroyStackRequestAction {
    pub count: u8,
    pub source: ItemStackRequestSlotInfo,
}

/// The count as one byte, then the source slot.
pub open spec fn destroy_action_bytes(v: DestroyStackRequestAction) -> Seq<u8> {
    seq![v.count] + slot_info_bytes(v.source)
}

/// The action at the start of `s`, and what follows it.
pub open spec fn parse_destroy_action(s: Seq<u8>) -> Option<(DestroyStackRequestAction, Seq<u8>)> {
    if s.len() < 1 {
        None
    } else {
        match parse_slot_info(s.skip(1)) {
            None => None,
            Some((source, rest)) => Some((DestroyStackRequestAction { count: s[0], source }, rest)),
        }
    }
}

/// An action written out reads back as itself, whatever follows it.
pub proof fn lemma_destroy_action_roundtrip(v: DestroyStackRequestAction, t: Seq<u8>)
    ensures
        parse_destroy_action(destroy_action_bytes(v) + t) == Some((v, t)),
{
    assert((destroy_action_bytes(v) + t).skip(1) =~= slot_info_bytes(v.source) + t);
    lemma_slot_info_roundtrip(v.source, t);
}

impl DestroyStackRequestAction {
    pub fn new(count: u8, source: ItemStackRequestSlotInfo) -> (r: DestroyStackRequestAction)
        ensures
            r == (DestroyStackRequestAction { count, source }),
    {
        DestroyStackRequestAction { count, source }
    }

    /// Reads an action; on too short an input returns `None` and leaves
    /// `stream` as it was.
    pub fn read(stream: &mut ByteReader) -> (r: Option<DestroyStackRequestAction>)
        ensures
            match parse_destroy_action(old(stream).rest()) {
                Some((v, rest)) => r == Some(v) && final(stream).rest() == rest,
                None => r is None && final(stream).rest() == old(stream).rest(),
            },
    {
        let mut cur = *stream;
        let count = match cur.get_u8() {
            Some(v) => v,
            None => return None,
        };
        let source = match ItemStackRequestSlotInfo::read(&mut cur) {
            Some(v) => v,
            None => return None,
        };
        *stream = cur;
        Some(DestroyStackRequestAction { count, source })
    }

    /// Appends the action.
    pub fn write(&self, stream: &mut Vec<u8>)
        ensures
            final(stream)@ == old(stream)@ + destroy_action_bytes(*self),
    {
        put_u8(stream, self.count);
        self.source.write(stream);
        assert(final(stream)@ =~= old(stream)@ + destroy_action_bytes(*self));
    }
}

} // verus!
