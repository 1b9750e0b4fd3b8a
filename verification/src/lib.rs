//! Yaoi: io_uring TCP streams, pools and listeners, with their strategies,
//! capacities, slot states and stream cursors stated and proved.

pub mod blueprints;
pub mod capacity;
pub mod cmaps;
pub mod error;
pub mod hugetlb;
pub mod outside;
pub mod strategy;
pub mod tcp_listener;
pub mod tcp_pool;
pub mod tcp_stream;

pub use error::YaoiError;
pub use tcp_stream::{EntConnected, EntHugeTlb, PeerAddr, TcpStream};
