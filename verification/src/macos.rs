//! The macOS producer: windows render with Metal into a texture that is read back
//! or into surfaces that the consumer samples directly.

pub mod clock;
pub mod embed_window;
pub mod iosurface;
pub mod menu;
pub mod menu_bar;
pub mod platform;
pub mod prompt;
pub mod session;
pub mod version;
