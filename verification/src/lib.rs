pub mod connection;
pub mod packet;
pub mod protocol;
pub mod testing;
