//! Yaoi TcpPool

pub mod tcp_client_pool;
