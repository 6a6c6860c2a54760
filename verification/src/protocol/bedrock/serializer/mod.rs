pub mod packet_serializer;
