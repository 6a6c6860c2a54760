pub mod acknowledge;
pub mod conn_req;
pub mod conn_req_accepted;
pub mod connected_ping;
pub mod connected_pong;
pub mod incompatible_protocol;
pub mod new_incoming_conn;
pub mod packet_ids;
pub mod unconnected_ping;
pub mod unconnected_pong;
pub mod open_conn_reply1;
pub mod open_conn_reply2;
pub mod open_conn_req1;
