pub mod destroy_stack_request_action;
pub mod item_stack_request_slot_info;
