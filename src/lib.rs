//! Verified core of a VR overlay binding: session reference counting,
//! texture upload planning, controller input decoding and toggle debouncing.
//! The runtime and GPU calls themselves are made by the host around it.
pub mod error;
pub mod handles;
pub mod buffers;
pub mod texture;
pub mod upload;
pub mod session;
pub mod input;
pub mod controller;
pub mod matrix;
pub mod text;
