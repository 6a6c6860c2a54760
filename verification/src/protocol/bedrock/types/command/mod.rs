pub mod command_origin_data;
pub mod command_output_message;
