//! H.264 packets: length-prefixed AVC and Annex B byte streams, both turned
//! into Annex B frames whose NAL units all carry the four-byte start code.
use vstd::prelude::*;

verus! {

/// One encoded picture as it is sent to the browser.
#[derive(Debug, Clone, PartialEq, Eq)]
pub struct VideoFrame {
    /// Whether the picture can be decoded without an earlier one.
    pub key: bool,
    /// An Annex B byte stream.
    pub data: Vec<u8>,
}

/// Why a packet could not be turned into a frame.
#[derive(Debug, Clone, Copy, PartialEq, Eq, Structural)]
pub enum VideoError {
    NalLengthOverflow,
    InvalidNalLength,
    TrailingBytes,
    NoAvcNalUnits,
    NoAnnexBNalUnits,
}

impl VideoError {
    /// The text that describes the error.
    pub open spec fn text(self) -> Seq<char> {
        match self {
            VideoError::NalLengthOverflow => "AVC NAL length overflow"@,
            VideoError::InvalidNalLength => "AVC packet contains an invalid NAL length"@,
            VideoError::TrailingBytes => "AVC packet has trailing bytes"@,
            VideoError::NoAvcNalUnits => "AVC packet contained no NAL units"@,
            VideoError::NoAnnexBNalUnits => "Annex B H.264 packet contained no NAL units"@,
        }
    }

    /// The message shown for the error.
    pub fn message(&self) -> (message: String)
        ensures
            message@ == self.text(),
    {
        match self {
            VideoError::NalLengthOverflow => "AVC NAL length overflow".to_owned(),
            VideoError::InvalidNalLength => "AVC packet contains an invalid NAL length".to_owned(),
            VideoError::TrailingBytes => "AVC packet has trailing bytes".to_owned(),
            VideoError::NoAvcNalUnits => "AVC packet contained no NAL units".to_owned(),
            VideoError::NoAnnexBNalUnits => {
                "Annex B H.264 packet contained no NAL units".to_owned()
            },
        }
    }
}

/// The length of the start code that begins at `i`, or 0 if none begins there.
pub open spec fn start_code_len(data: Seq<u8>, i: int) -> int {
    if 0 <= i && i + 4 <= data.len() && data[i] == 0 && data[i + 1] == 0 && data[i + 2] == 0
        && data[i + 3] == 1 {
        4
    } else if 0 <= i && i + 3 <= data.len() && data[i] == 0 && data[i + 1] == 0 && data[i + 2]
        == 1 {
        3
    } else {
        0
    }
}

/// Where the first start code at or behind `from` begins, and how long it is.
pub open spec fn next_start_code(data: Seq<u8>, from: int) -> Option<(int, int)>
    decreases data.len() - from,
{
    if from + 3 > data.len() {
        None
    } else if start_code_len(data, from) > 0 {
        Some((from, start_code_len(data, from)))
    } else {
        next_start_code(data, from + 1)
    }
}

/// `next_start_code` finds a start code, skips none, and misses none.
pub proof fn lemma_next_start_code(data: Seq<u8>, from: int)
    ensures
        match next_start_code(data, from) {
            Some((start, len)) => {
                &&& from <= start
                &&& start + len <= data.len()
                &&& 3 <= len <= 4
                &&& len == start_code_len(data, start)
                &&& forall|i: int| from <= i < start ==> #[trigger] start_code_len(data, i) == 0
            },
            None => forall|i: int| from <= i ==> #[trigger] start_code_len(data, i) == 0,
        },
    decreases data.len() - from,
{
    if from + 3 <= data.len() && start_code_len(data, from) == 0 {
        lemma_next_start_code(data, from + 1);
    }
}

/// Where a NAL unit that begins at `begin` ends: at the next start code, or at
/// the end of the stream.
pub open spec fn nal_end(data: Seq<u8>, begin: int) -> int {
    match next_start_code(data, begin) {
        Some((next, _)) => next,
        None => data.len() as int,
    }
}

/// The NAL units of an Annex B stream from `from` on, the empty ones left out.
pub open spec fn annex_b_nals(data: Seq<u8>, from: int) -> Seq<Seq<u8>>
    decreases data.len() - from,
{
    match next_start_code(data, from) {
        Some((start, len)) => {
            let begin = start + len;
            let end = nal_end(data, begin);
            proof {
                lemma_next_start_code(data, from);
                lemma_next_start_code(data, begin);
            }
            if begin < end {
                seq![data.subrange(begin, end)] + annex_b_nals(data, end)
            } else {
                annex_b_nals(data, end)
            }
        },
        None => Seq::empty(),
    }
}

/// Whether `data` is an Annex B stream: nothing but zeros before its first
/// start code.
pub open spec fn is_annex_b(data: Seq<u8>) -> bool {
    match next_start_code(data, 0) {
        Some((start, _)) => forall|i: int| 0 <= i < start ==> data[i] == 0,
        None => false,
    }
}

/// The number that the four bytes at `i` spell, most significant byte first.
pub open spec fn be32_at(data: Seq<u8>, i: int) -> int {
    data[i] * 0x100_0000 + data[i + 1] * 0x1_0000 + data[i + 2] * 0x100 + data[i + 3]
}

/// The NAL units of a length-prefixed stream from `from` on, or the error of
/// the first place where the stream is malformed.
pub open spec fn avc_nals(data: Seq<u8>, from: int) -> Result<Seq<Seq<u8>>, VideoError>
    decreases data.len() - from,
{
    if from + 4 > data.len() {
        if from == data.len() {
            Ok(Seq::empty())
        } else {
            Err(VideoError::TrailingBytes)
        }
    } else {
        let begin = from + 4;
        let end = begin + be32_at(data, from);
        if end > usize::MAX {
            Err(VideoError::NalLengthOverflow)
        } else if end <= begin || end > data.len() {
            Err(VideoError::InvalidNalLength)
        } else {
            match avc_nals(data, end) {
                Ok(rest) => Ok(seq![data.subrange(begin, end)] + rest),
                Err(error) => Err(error),
            }
        }
    }
}

/// The four-byte start code.
pub open spec fn start_code() -> Seq<u8> {
    seq![0u8, 0u8, 0u8, 1u8]
}

/// The Annex B stream that holds `nals`, each behind a four-byte start code.
pub open spec fn annex_b_stream(nals: Seq<Seq<u8>>) -> Seq<u8>
    decreases nals.len(),
{
    if nals.len() == 0 {
        Seq::empty()
    } else {
        start_code() + nals[0] + annex_b_stream(nals.drop_first())
    }
}

/// Whether the NAL unit is a slice of an IDR picture (type 5).
pub open spec fn is_idr(nal: Seq<u8>) -> bool {
    nal.len() > 0 && nal[0] % 32 == 5
}

/// Whether one of the NAL units belongs to an IDR picture.
pub open spec fn has_idr(nals: Seq<Seq<u8>>) -> bool {
    exists|i: int| 0 <= i < nals.len() && is_idr(#[trigger] nals[i])
}

/// The frame made of `nals`, or `error` if there are none.
pub open spec fn frame_of(nals: Seq<Seq<u8>>, error: VideoError) -> Result<
    (bool, Seq<u8>),
    VideoError,
> {
    if nals.len() == 0 {
        Err(error)
    } else {
        Ok((has_idr(nals), annex_b_stream(nals)))
    }
}

/// The frame of an Annex B stream.
pub open spec fn annex_b_frame(data: Seq<u8>) -> Result<(bool, Seq<u8>), VideoError> {
    frame_of(annex_b_nals(data, 0), VideoError::NoAnnexBNalUnits)
}

/// The frame of a packet in either framing.
pub open spec fn packet_frame(data: Seq<u8>) -> Result<(bool, Seq<u8>), VideoError> {
    if is_annex_b(data) {
        annex_b_frame(data)
    } else {
        match avc_nals(data, 0) {
            Ok(nals) => frame_of(nals, VideoError::NoAvcNalUnits),
            Err(error) => Err(error),
        }
    }
}

/// Key flag and bytes of a conversion's result.
pub open spec fn frame_view(result: Result<VideoFrame, VideoError>) -> Result<
    (bool, Seq<u8>),
    VideoError,
> {
    match result {
        Ok(frame) => Ok((frame.key, frame.data@)),
        Err(error) => Err(error),
    }
}

proof fn lemma_has_idr_cons(nal: Seq<u8>, rest: Seq<Seq<u8>>)
    ensures
        has_idr(seq![nal] + rest) == (is_idr(nal) || has_idr(rest)),
{
    let all = seq![nal] + rest;
    if is_idr(nal) {
        assert(is_idr(all[0]));
    }
    if has_idr(rest) {
        let i = choose|i: int| 0 <= i < rest.len() && is_idr(#[trigger] rest[i]);
        assert(is_idr(all[i + 1]));
    }
    if has_idr(all) {
        let i = choose|i: int| 0 <= i < all.len() && is_idr(#[trigger] all[i]);
        if i > 0 {
            assert(is_idr(rest[i - 1]));
        }
    }
}

proof fn lemma_annex_b_stream_cons(nal: Seq<u8>, rest: Seq<Seq<u8>>)
    ensures
        annex_b_stream(seq![nal] + rest) == start_code() + nal + annex_b_stream(rest),
{
    assert((seq![nal] + rest).drop_first() =~= rest);
}

/// Finds the first start code at or behind `from`: its position and length.
pub fn find_annex_b_start_code(data: &[u8], from: usize) -> (found: Option<(usize, usize)>)
    ensures
        match found {
            Some((start, len)) => {
                &&& next_start_code(data@, from as int) == Some((start as int, len as int))
                &&& from <= start
                &&& len == start_code_len(data@, start as int)
                &&& len > 0
                &&& forall|i: int| from <= i < start ==> #[trigger] start_code_len(data@, i) == 0
            },
            None => {
                &&& next_start_code(data@, from as int) is None
                &&& forall|i: int| from <= i ==> #[trigger] start_code_len(data@, i) == 0
            },
        },
{
    proof {
        lemma_next_start_code(data@, from as int);
    }
    let mut offset: usize = from;
    while offset <= data.len() && data.len() - offset >= 3
        invariant
            from <= offset,
            next_start_code(data@, from as int) == next_start_code(data@, offset as int),
            match next_start_code(data@, from as int) {
                Some((start, len)) => {
                    &&& from <= start
                    &&& len == start_code_len(data@, start)
                    &&& forall|i: int| from <= i < start ==> #[trigger] start_code_len(data@, i)
                        == 0
                },
                None => forall|i: int| from <= i ==> #[trigger] start_code_len(data@, i) == 0,
            },
        decreases data.len() - offset,
    {
        if data.len() - offset >= 4 && data[offset] == 0 && data[offset + 1] == 0 && data[offset
            + 2] == 0 && data[offset + 3] == 1 {
            return Some((offset, 4));
        }
        if data[offset] == 0 && data[offset + 1] == 0 && data[offset + 2] == 1 {
            return Some((offset, 3));
        }
        offset += 1;
    }
    None
}

/// Whether `data` is an Annex B stream rather than a length-prefixed one.
pub fn is_annex_b_stream(data: &[u8]) -> (annex_b: bool)
    ensures
        annex_b == is_annex_b(data@),
{
    match find_annex_b_start_code(data, 0) {
        Some((start, _)) => {
            let mut i: usize = 0;
            proof {
                lemma_next_start_code(data@, 0);
            }
            while i < start
                invariant
                    start <= data.len(),
                    next_start_code(data@, 0) matches Some((s, _)) && s == start,
                    forall|j: int| 0 <= j < i ==> data@[j] == 0,
                decreases start - i,
            {
                if data[i] != 0 {
                    return false;
                }
                i += 1;
            }
            true
        },
        None => false,
    }
}

/// Appends the start code and `nal` to the stream.
fn push_nal(stream: &mut Vec<u8>, nal: &[u8])
    ensures
        final(stream)@ == old(stream)@ + (start_code() + nal@),
{
    stream.extend_from_slice(&[0u8, 0u8, 0u8, 1u8]);
    stream.extend_from_slice(nal);
    assert(stream@ =~= old(stream)@ + (start_code() + nal@));
}

/// Whether the first byte of a NAL unit gives it type 5.
fn starts_idr(header: u8) -> (idr: bool)
    ensures
        idr == (header % 32 == 5),
{
    assert(header & 0x1f == header % 32) by (bit_vector);
    (header & 0x1f) == 5
}

/// Gives every NAL unit of an Annex B stream a four-byte start code.
pub fn annex_b_to_video_frame(data: &[u8]) -> (result: Result<VideoFrame, VideoError>)
    ensures
        frame_view(result) == annex_b_frame(data@),
{
    let ghost nals = annex_b_nals(data@, 0);
    let mut normalized: Vec<u8> = Vec::with_capacity(data.len());
    let mut key = false;
    let mut offset: usize = 0;
    loop
        invariant_except_break
            offset <= data.len(),
            nals == annex_b_nals(data@, 0),
            annex_b_stream(nals) == normalized@ + annex_b_stream(annex_b_nals(data@, offset as int)),
            has_idr(nals) == (key || has_idr(annex_b_nals(data@, offset as int))),
            normalized@.len() == 0 ==> nals == annex_b_nals(data@, offset as int),
            normalized@.len() > 0 ==> nals.len() > 0,
        ensures
            annex_b_stream(nals) == normalized@,
            has_idr(nals) == key,
            normalized@.len() == 0 <==> nals.len() == 0,
        decreases data.len() - offset,
    {
        match find_annex_b_start_code(data, offset) {
            Some((start_code_begin, start_code_length)) => {
                proof {
                    lemma_next_start_code(data@, offset as int);
                }
                let nal_begin: usize = start_code_begin + start_code_length;
                proof {
                    lemma_next_start_code(data@, nal_begin as int);
                }
                let nal_stop: usize = match find_annex_b_start_code(data, nal_begin) {
                    Some((next, _)) => next,
                    None => data.len(),
                };
                if nal_begin < nal_stop {
                    let nal = &data[nal_begin..nal_stop];
                    let ghost rest = annex_b_nals(data@, nal_stop as int);
                    proof {
                        lemma_has_idr_cons(nal@, rest);
                        lemma_annex_b_stream_cons(nal@, rest);
                        assert(annex_b_nals(data@, offset as int) == seq![nal@] + rest);
                        assert(normalized@ + (start_code() + nal@ + annex_b_stream(rest))
                            =~= normalized@ + (start_code() + nal@) + annex_b_stream(rest));
                    }
                    key = key || starts_idr(nal[0]);
                    push_nal(&mut normalized, nal);
                    assert(nals.len() > 0);
                }
                offset = nal_stop;
            },
            None => {
                assert(annex_b_nals(data@, offset as int) =~= Seq::empty());
                assert(normalized@ + annex_b_stream(Seq::empty()) =~= normalized@);
                break;
            },
        }
    }
    if normalized.is_empty() {
        return Err(VideoError::NoAnnexBNalUnits);
    }
    Ok(VideoFrame { key, data: normalized })
}

/// Turns a packet, length-prefixed or Annex B, into a frame for the browser.
pub fn avc_to_video_frame(data: &[u8]) -> (result: Result<VideoFrame, VideoError>)
    ensures
        frame_view(result) == packet_frame(data@),
{
    if is_annex_b_stream(data) {
        return annex_b_to_video_frame(data);
    }
    let ghost whole = avc_nals(data@, 0);
    let mut annex_b: Vec<u8> = Vec::with_capacity(data.len());
    let mut key = false;
    let mut offset: usize = 0;
    while offset <= data.len() && data.len() - offset >= 4
        invariant
            offset <= data.len(),
            whole == avc_nals(data@, 0),
            !is_annex_b(data@),
            match avc_nals(data@, offset as int) {
                Ok(rest) => {
                    &&& whole matches Ok(nals)
                    &&& annex_b_stream(nals) == annex_b@ + annex_b_stream(rest)
                    &&& has_idr(nals) == (key || has_idr(rest))
                    &&& (annex_b@.len() == 0 ==> nals == rest)
                    &&& (annex_b@.len() > 0 ==> nals.len() > 0)
                },
                Err(error) => whole == Err::<Seq<Seq<u8>>, VideoError>(error),
            },
        decreases data.len() - offset,
    {
        let length: u32 = (data[offset] as u32) * 0x100_0000 + (data[offset + 1] as u32) * 0x1_0000
            + (data[offset + 2] as u32) * 0x100 + (data[offset + 3] as u32);
        assert(length == be32_at(data@, offset as int));
        let begin: usize = offset + 4;
        let end: usize = match begin.checked_add(length as usize) {
            Some(end) => end,
            None => {
                return Err(VideoError::NalLengthOverflow);
            },
        };
        if length == 0 || end > data.len() {
            return Err(VideoError::InvalidNalLength);
        }
        let nal = &data[begin..end];
        proof {
            if let Ok(rest) = avc_nals(data@, end as int) {
                lemma_has_idr_cons(nal@, rest);
                lemma_annex_b_stream_cons(nal@, rest);
                assert(annex_b@ + (start_code() + nal@ + annex_b_stream(rest)) =~= annex_b@ + (
                start_code() + nal@) + annex_b_stream(rest));
            }
        }
        key = key || starts_idr(nal[0]);
        push_nal(&mut annex_b, nal);
        offset = end;
    }
    if offset != data.len() {
        return Err(VideoError::TrailingBytes);
    }
    assert(annex_b@ + annex_b_stream(Seq::empty()) =~= annex_b@);
    if annex_b.is_empty() {
        return Err(VideoError::NoAvcNalUnits);
    }
    Ok(VideoFrame { key, data: annex_b })
}

/// The binary message that carries a frame: the message kind 1, the key flag,
/// then the Annex B bytes.
pub open spec fn video_packet(key: bool, data: Seq<u8>) -> Seq<u8> {
    seq![
        1u8,
        if key {
            1u8
        } else {
            0u8
        },
    ] + data
}

/// Encodes a frame as the binary message that the browser decodes.
pub fn encode_video_frame(frame: &VideoFrame) -> (packet: Vec<u8>)
    ensures
        packet@ == video_packet(frame.key, frame.data@),
{
    let mut packet: Vec<u8> = Vec::new();
    packet.push(1);
    packet.push(
        if frame.key {
            1
        } else {
            0
        },
    );
    packet.extend_from_slice(&frame.data);
    packet
}

}
