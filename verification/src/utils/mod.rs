pub mod resource_pack;
pub mod text;
pub mod address;
