//! An item stack as the network carries it.

use vstd::prelude::*;

verus! {

pub struct ItemStack {
    pub id: i32,
    pub meta: u32,
    pub count: u16,
    pub block_runtime_id: i32,
    pub raw_extra_data: Vec<u8>,
}

pub struct ItemStackView {
    pub id: i32,
    pub meta: u32,
    pub count: u16,
    pub block_runtime_id: i32,
    pub raw_extra_data: Seq<u8>,
}

impl View for ItemStack {
    type V = ItemStackView;

    open spec fn view(&self) -> ItemStackView {
        ItemStackView {
            id: self.id,
            meta: self.meta,
            count: self.count,
            block_runtime_id: self.block_runtime_id,
            raw_extra_data: self.raw_extra_data@,
        }
    }
}

impl ItemStack {
    pub fn new(id: i32, meta: u32, count: u16, block_runtime_id: i32, raw_extra_data: Vec<u8>) -> (r: ItemStack)
        ensures
            r == (ItemStack { id, meta, count, block_runtime_id, raw_extra_data }),
    {
        ItemStack { id, meta, count, block_runtime_id, raw_extra_data }
    }
}

} // verus!
