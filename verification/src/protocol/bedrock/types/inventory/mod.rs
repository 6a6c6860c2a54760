pub mod full_container_name;
pub mod item_stack;
pub mod item_stack_wrapper;
pub mod stack_request;
