//! What passes between the browser and an RDP session.
use vstd::prelude::*;

pub use crate::h264::{
    annex_b_to_video_frame, avc_to_video_frame, encode_video_frame, find_annex_b_start_code,
    is_annex_b_stream, VideoError, VideoFrame,
};
pub use crate::progressive::{
    progressive_bitmap_with_context, progressive_context_prefix, progressive_has_context,
};

verus! {

/// What a person did in the browser.
#[derive(Debug)]
pub enum ClientEvent {
    Pointer { action: PointerAction, x: u16, y: u16, button: Option<u8>, delta_y: Option<i16> },
    Key { down: bool, code: String, key: Option<String> },
    Resize { width: u16, height: u16 },
}

/// What was done with the pointer.
#[derive(Debug)]
pub enum PointerAction {
    Move,
    Down,
    Up,
    Wheel,
}

/// What a session tells the browser.
#[derive(Debug)]
pub enum ServerEvent {
    Status(ServerStatus),
    Video(VideoFrame),
}

/// The state of a session.
#[derive(Debug)]
pub enum ServerStatus {
    Connecting,
    Connected,
    DesktopSize { width: u32, height: u32 },
    Disconnected { reason: String },
    Error { message: String },
}

}
