pub mod capture;
pub mod clipboard;
pub mod connection;
pub mod cursor;
pub mod display;
pub mod dmabuf;
pub mod embed_palette;
pub mod events;
pub mod input;
pub mod input_state;
pub mod linux;
pub mod macos;
pub mod memory;
pub mod pixels;
pub mod poc;
pub mod protocol;
pub mod scale;
pub mod slop2;
pub mod stream;
pub mod text;
pub mod window;
pub mod windows;
pub mod win32;
pub mod wire;
