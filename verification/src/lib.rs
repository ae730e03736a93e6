//! Verified core of an EDL (CMX3600 edit decision list) generator driven by
//! live LTC timecode and HTTP edit events.

pub mod cut_log;
pub mod display;
pub mod edl;
pub mod edl_writer;
pub mod frame_queue;
pub mod ltc;
pub mod ltc_decoder;
pub mod server;
pub mod state;
pub mod text;
pub mod timecode;
pub mod update_version;
pub mod utils;
