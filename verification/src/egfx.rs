//! The graphics channel: what is offered to the RDP server, and what its
//! messages mean for the browser.
use crate::h264;
use crate::h264::{avc_to_video_frame, VideoError};
use crate::lifecycle;
use crate::rdp::{ServerEvent, ServerStatus};
use vstd::prelude::*;

verus! {

/// The codec number of RemoteFX Progressive.
pub const REMOTE_FX_PROGRESSIVE: u16 = 0x0009;

/// Bits of a version 8.1 capability set.
pub const CAPS_V81_SMALL_CACHE: u32 = 0x02;

pub const CAPS_V81_AVC420_ENABLED: u32 = 0x10;

/// A capability set that the client offers.
#[derive(Debug, Clone, Copy, PartialEq, Eq, Structural)]
pub enum CapabilitySet {
    V8_1 { flags: u32 },
}

/// Follows the messages of the graphics channel.
#[derive(Debug)]
pub struct EgfxHandler {
    pub progressive_updates_seen: u64,
}

/// How many updates count as seen behind one more.
pub open spec fn one_more(seen: u64) -> u64 {
    if seen < u64::MAX {
        (seen + 1) as u64
    } else {
        seen
    }
}

/// Whether a bitmap update is reported to the browser as an error: the first
/// one that uses RemoteFX Progressive is.
pub open spec fn is_reported(seen: u64, codec_id: u16) -> bool {
    codec_id == REMOTE_FX_PROGRESSIVE && seen == 0
}

/// How many updates count as seen behind an update.
pub open spec fn seen_behind(seen: u64, codec_id: u16) -> u64 {
    if codec_id == REMOTE_FX_PROGRESSIVE {
        one_more(seen)
    } else {
        seen
    }
}

/// What the browser is told when the server sets the size of its output.
pub open spec fn reset_event(width: u32, height: u32) -> ServerEvent {
    ServerEvent::Status(ServerStatus::DesktopSize { width, height })
}

impl EgfxHandler {
    /// A handler that has seen nothing yet.
    pub fn new() -> (handler: EgfxHandler)
        ensures
            handler.progressive_updates_seen == 0,
    {
        EgfxHandler { progressive_updates_seen: 0 }
    }

    /// What the client offers: H.264 in 4:2:0 and a small cache, and nothing in
    /// which 4:4:4 could be negotiated.
    pub fn capabilities(&self) -> (sets: Vec<CapabilitySet>)
        ensures
            sets@ == seq![
                CapabilitySet::V8_1 { flags: CAPS_V81_AVC420_ENABLED | CAPS_V81_SMALL_CACHE },
            ],
    {
        vec![CapabilitySet::V8_1 { flags: CAPS_V81_AVC420_ENABLED | CAPS_V81_SMALL_CACHE }]
    }

    /// The server set the size of its output.
    pub fn on_reset_graphics(&self, width: u32, height: u32) -> (event: ServerEvent)
        ensures
            event == reset_event(width, height),
            lifecycle::is_graphics(event),
    {
        ServerEvent::Status(ServerStatus::DesktopSize { width, height })
    }

    /// The server sent an H.264 picture. A picture that cannot be read is
    /// dropped, for the reason given.
    pub fn on_avc420_frame(&self, data: &[u8]) -> (result: Result<ServerEvent, VideoError>)
        ensures
            match result {
                Ok(event) => {
                    &&& lifecycle::is_graphics(event)
                    &&& event matches ServerEvent::Video(frame)
                    &&& h264::packet_frame(data@) == Ok::<(bool, Seq<u8>), VideoError>(
                        (frame.key, frame.data@),
                    )
                },
                Err(error) => h264::packet_frame(data@) == Err::<(bool, Seq<u8>), VideoError>(
                    error,
                ),
            },
    {
        match avc_to_video_frame(data) {
            Ok(frame) => Ok(ServerEvent::Video(frame)),
            Err(error) => Err(error),
        }
    }

    /// The server sent a bitmap update with the given codec. Only H.264 is shown:
    /// the first update that uses RemoteFX Progressive is reported.
    pub fn on_wire_to_surface2(&mut self, codec_id: u16) -> (event: Option<ServerEvent>)
        ensures
            final(self).progressive_updates_seen == seen_behind(
                old(self).progressive_updates_seen,
                codec_id,
            ),
            match event {
                Some(event) => {
                    &&& is_reported(old(self).progressive_updates_seen, codec_id)
                    &&& lifecycle::is_graphics(event)
                    &&& event matches ServerEvent::Status(ServerStatus::Error { message })
                    &&& message@
                        == "RDP server negotiated RemoteFX Progressive; direct AVC/H.264 is required"@
                },
                None => !is_reported(old(self).progressive_updates_seen, codec_id),
            },
    {
        if codec_id != REMOTE_FX_PROGRESSIVE {
            return None;
        }
        self.progressive_updates_seen = self.progressive_updates_seen.saturating_add(1);
        if self.progressive_updates_seen == 1 {
            Some(
                ServerEvent::Status(
                    ServerStatus::Error {
                        message:
                            "RDP server negotiated RemoteFX Progressive; direct AVC/H.264 is required".to_owned(),
                    },
                ),
            )
        } else {
            None
        }
    }
}

/// How many of the updates are reported, if `seen` went before.
pub open spec fn reports(seen: u64, codec_ids: Seq<u16>) -> int
    decreases codec_ids.len(),
{
    if codec_ids.len() == 0 {
        0
    } else {
        (if is_reported(seen, codec_ids[0]) {
            1int
        } else {
            0int
        }) + reports(seen_behind(seen, codec_ids[0]), codec_ids.drop_first())
    }
}

proof fn lemma_no_more_reports(seen: u64, codec_ids: Seq<u16>)
    requires
        seen > 0,
    ensures
        reports(seen, codec_ids) == 0,
    decreases codec_ids.len(),
{
    if codec_ids.len() > 0 {
        lemma_no_more_reports(seen_behind(seen, codec_ids[0]), codec_ids.drop_first());
    }
}

/// Of any series of updates, one is reported if one uses RemoteFX Progressive,
/// and none otherwise, however many there are.
pub proof fn law_progressive_is_reported_once(codec_ids: Seq<u16>)
    ensures
        reports(0, codec_ids) == if codec_ids.contains(REMOTE_FX_PROGRESSIVE) {
            1int
        } else {
            0int
        },
    decreases codec_ids.len(),
{
    if codec_ids.len() > 0 {
        let rest = codec_ids.drop_first();
        if codec_ids[0] == REMOTE_FX_PROGRESSIVE {
            assert(codec_ids.contains(codec_ids[0]));
            lemma_no_more_reports(1, rest);
        } else {
            law_progressive_is_reported_once(rest);
            if rest.contains(REMOTE_FX_PROGRESSIVE) {
                let i = choose|i: int| 0 <= i < rest.len() && rest[i] == REMOTE_FX_PROGRESSIVE;
                assert(codec_ids[i + 1] == REMOTE_FX_PROGRESSIVE);
            }
            if codec_ids.contains(REMOTE_FX_PROGRESSIVE) {
                let i = choose|i: int|
                    0 <= i < codec_ids.len() && codec_ids[i] == REMOTE_FX_PROGRESSIVE;
                assert(rest[i - 1] == REMOTE_FX_PROGRESSIVE);
            }
        }
    }
}

/// The browser is told the width and the height that the server set.
pub proof fn law_desktop_size_is_passed_on(width: u32, height: u32)
    ensures
        reset_event(width, height) matches ServerEvent::Status(
            ServerStatus::DesktopSize { width: told_width, height: told_height },
        ) && told_width == width && told_height == height,
{
}

/// Every update that uses RemoteFX Progressive is counted once, and no other.
pub proof fn law_progressive_updates_are_counted(seen: u64, codec_id: u16)
    ensures
        codec_id == 9 && seen < u64::MAX ==> seen_behind(seen, codec_id) == seen + 1,
        codec_id == 9 && seen == u64::MAX ==> seen_behind(seen, codec_id) == seen,
        codec_id != 9 ==> seen_behind(seen, codec_id) == seen,
        is_reported(seen, codec_id) <==> codec_id == 9 && seen == 0,
{
}

/// The bits offered to the server: a small cache and H.264 in 4:2:0, and no other.
pub proof fn law_offered_bits()
    ensures
        CAPS_V81_AVC420_ENABLED | CAPS_V81_SMALL_CACHE == 0x12,
{
    assert(0x10u32 | 0x02u32 == 0x12u32) by (bit_vector);
}

}
