//! The decision logic of an RDP-to-web gateway: what a browser event means as
//! RDP input, how H.264 packets become browser video frames, how the server is
//! configured, and what each network event makes the gateway do next.
pub mod config;
pub mod config_laws;
pub mod connector;
pub mod egfx;
pub mod h264;
pub mod h264_laws;
pub mod input;
pub mod input_laws;
pub mod lifecycle;
pub mod progressive;
pub mod rdp;
pub mod scancode;
pub mod scancode_laws;
pub mod session;
pub mod session_laws;
pub mod text;
pub mod tls;
pub mod web;
