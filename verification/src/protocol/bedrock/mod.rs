pub mod batch;
pub mod command_output;
pub mod serializer;
pub mod types;
