pub mod appstate;
pub mod interface;
pub mod packet_count;
