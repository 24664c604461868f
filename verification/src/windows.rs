//! The Windows producer: windows render with Direct3D into textures shared with the
//! consumer, which it talks to over a named pipe.

pub mod embed_window;
pub mod pipe;
