use rdp2web::h264::{
    annex_b_to_video_frame, avc_to_video_frame, encode_video_frame, find_annex_b_start_code,
    is_annex_b_stream, VideoError, VideoFrame,
};

fn length_prefixed(nal: &[u8]) -> Vec<u8> {
    let mut data = Vec::with_capacity(nal.len() + 4);
    data.extend_from_slice(&u32::try_from(nal.len()).unwrap().to_be_bytes());
    data.extend_from_slice(nal);
    data
}

#[test]
fn avc_video_frame_is_annex_b_and_marks_idr_as_key() {
    let sps = [0x67, 0x42, 0xe0, 0x1f];
    let idr = [0x65, 0x88, 0x84];
    let avc = [length_prefixed(&sps), length_prefixed(&idr)].concat();

    let frame = avc_to_video_frame(&avc).expect("convert AVC packet");

    assert!(frame.key);
    assert_eq!(
        frame.data,
        [&[0, 0, 0, 1][..], &sps[..], &[0, 0, 0, 1][..], &idr[..]].concat()
    );
}

#[test]
fn annex_b_video_frame_is_accepted_and_marks_idr_as_key() {
    let sps = [0x67, 0x42, 0xe0, 0x1f];
    let idr = [0x65, 0x88, 0x84];
    let annex_b = [&[0, 0, 1][..], &sps[..], &[0, 0, 0, 1][..], &idr[..]].concat();

    let frame = avc_to_video_frame(&annex_b).expect("convert Annex B packet");

    assert!(frame.key);
    assert_eq!(
        frame.data,
        [&[0, 0, 0, 1][..], &sps[..], &[0, 0, 0, 1][..], &idr[..]].concat()
    );
}

#[test]
fn direct_video_wire_format_uses_binary_h264_header() {
    let packet = encode_video_frame(&VideoFrame {
        key: true,
        data: vec![0, 0, 0, 1, 0x65],
    });

    assert_eq!(&packet[..2], &[1, 1]);
    assert_eq!(&packet[2..], &[0, 0, 0, 1, 0x65]);
}

#[test]
fn a_frame_that_is_no_key_has_a_zero_flag() {
    let frame = VideoFrame {
        key: false,
        data: vec![9],
    };
    assert_eq!(encode_video_frame(&frame), vec![1, 0, 9]);
    let key = VideoFrame {
        key: true,
        data: vec![9],
    };
    assert_ne!(encode_video_frame(&frame), encode_video_frame(&key));
}

#[test]
fn a_packet_without_idr_is_no_key() {
    let avc = length_prefixed(&[0x41, 0x9a, 0x00]);
    let frame = avc_to_video_frame(&avc).unwrap();
    assert!(!frame.key);
    assert_eq!(frame.data, vec![0, 0, 0, 1, 0x41, 0x9a, 0x00]);
    assert_eq!(frame.data.len(), avc.len());
}

#[test]
fn each_malformed_packet_has_its_error() {
    assert_eq!(avc_to_video_frame(&[]), Err(VideoError::NoAvcNalUnits));
    assert_eq!(
        avc_to_video_frame(&[0, 0, 0, 0]),
        Err(VideoError::InvalidNalLength)
    );
    assert_eq!(
        avc_to_video_frame(&[0, 0, 0, 9, 0x65]),
        Err(VideoError::InvalidNalLength)
    );
    assert_eq!(
        avc_to_video_frame(&[0, 0, 0, 2, 0x65, 0x88, 7]),
        Err(VideoError::TrailingBytes)
    );
    assert_eq!(
        avc_to_video_frame(&[0, 0, 1]),
        Err(VideoError::NoAnnexBNalUnits)
    );
    assert_eq!(
        annex_b_to_video_frame(&[1, 2, 3]),
        Err(VideoError::NoAnnexBNalUnits)
    );
}

#[test]
fn errors_describe_themselves() {
    assert_eq!(
        VideoError::NalLengthOverflow.message(),
        "AVC NAL length overflow"
    );
    assert_eq!(
        VideoError::InvalidNalLength.message(),
        "AVC packet contains an invalid NAL length"
    );
    assert_eq!(
        VideoError::TrailingBytes.message(),
        "AVC packet has trailing bytes"
    );
    assert_eq!(
        VideoError::NoAvcNalUnits.message(),
        "AVC packet contained no NAL units"
    );
    assert_eq!(
        VideoError::NoAnnexBNalUnits.message(),
        "Annex B H.264 packet contained no NAL units"
    );
}

#[test]
fn start_codes_are_found_from_a_position_on() {
    let data = [9, 0, 0, 0, 1, 7, 0, 0, 1];
    assert_eq!(find_annex_b_start_code(&data, 0), Some((1, 4)));
    assert_eq!(find_annex_b_start_code(&data, 2), Some((2, 3)));
    assert_eq!(find_annex_b_start_code(&data, 3), Some((6, 3)));
    assert_eq!(find_annex_b_start_code(&data, 7), None);
    assert_eq!(find_annex_b_start_code(&data, usize::MAX), None);
    assert!(!is_annex_b_stream(&data));
    assert!(is_annex_b_stream(&[0, 0, 0, 0, 0, 1, 5]));
    assert!(!is_annex_b_stream(&[0, 0, 0]));
}

#[test]
fn empty_nal_units_are_left_out() {
    let frame = annex_b_to_video_frame(&[0, 0, 1, 0, 0, 1, 0x41, 0, 0, 0, 1]).unwrap();
    assert!(!frame.key);
    assert_eq!(frame.data, vec![0, 0, 0, 1, 0x41]);
}

#[test]
fn converting_a_frame_again_changes_nothing() {
    let frame = avc_to_video_frame(&[0, 0, 1, 0x67, 0x42, 0, 0, 1, 0x65, 0x88]).unwrap();
    let again = avc_to_video_frame(&frame.data).unwrap();
    assert_eq!(frame, again);
    assert_eq!(&frame.data[..4], &[0, 0, 0, 1]);
}

#[test]
fn a_length_that_reads_as_a_start_code_is_taken_for_one() {
    let one = length_prefixed(&[0x65]);
    assert!(is_annex_b_stream(&one));
    let long = length_prefixed(&vec![0x65; 300]);
    assert!(is_annex_b_stream(&long));
    let longer = length_prefixed(&vec![0x65; 512]);
    assert!(!is_annex_b_stream(&longer));
    assert_eq!(avc_to_video_frame(&longer).unwrap().data.len(), 516);
}

#[test]
fn a_zero_byte_before_a_short_start_code_belongs_to_the_code() {
    let frame = avc_to_video_frame(&[0, 0, 1, 0x41, 0, 0, 0, 1, 0x42]).unwrap();
    assert_eq!(frame.data, vec![0, 0, 0, 1, 0x41, 0, 0, 0, 1, 0x42]);
}
