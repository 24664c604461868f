//! The Linux producer: a headless client that renders offscreen and serves
//! consumers over a unix socket.

pub mod atlas;
pub mod client;
pub mod clock;
pub mod window;
