//! Lifecycle, control and frame relay of a live media capture session.

pub mod capture;
pub mod error;
pub mod frame;
pub mod main_loop;
pub mod pipeline;
pub mod relay;
pub mod rtp_stream;
pub mod rtp_stream_record;
pub mod rtp_udp_client_record;
pub mod rtp_udp_server;
pub mod runloop;
pub mod trace;
