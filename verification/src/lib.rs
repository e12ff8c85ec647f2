//! Decision and data logic of an Open Media Transport (OMT) plugin for OBS Studio:
//! receive bandwidth policy, send modes, timestamp conversion, settings, frame layout,
//! and the state machines that drive senders and receivers.

pub mod bandwidth;
pub mod channel;
pub mod clock;
pub mod config;
pub mod filter;
pub mod format;
pub mod graphics_capture;
pub mod ids;
pub mod media_mode;
pub mod output;
pub mod preview;
pub mod receive;
pub mod send_session;
pub mod text;
