pub mod command;
pub mod inventory;
pub mod skin;
pub mod sub_chunk_entry_common;
pub mod sub_chunk_height_map_info;
pub mod sub_chunk_height_map_type;
pub mod sub_chunk_position_offset;
