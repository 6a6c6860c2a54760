pub mod bedrock_packet_ids;
