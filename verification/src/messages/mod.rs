//! What strategies and the data server say to each other.

pub mod data_server_messaging;
pub mod framing;
pub mod stream_ids;
