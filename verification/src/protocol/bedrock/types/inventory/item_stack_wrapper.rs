//! An item stack together with the network id of the stack.

use vstd::prelude::*;
use crate::protocol::bedrock::types::inventory::item_stack::{ItemStack, ItemStackView};

verus! {

pub struct ItemStackWrapper {
    pub stack_id: i32,
    pub item_stack: ItemStack,
}

pub struct ItemStackWrapperView {
    pub stack_id: i32,
    pub item_stack: ItemStackView,
}

impl View for ItemStackWrapper {
    type V = ItemStackWrapperView;

    open spec fn view(&self) -> ItemStackWrapperView {
        ItemStackWrapperView { stack_id: self.stack_id, item_stack: self.item_stack@ }
    }
}

} // verus!
