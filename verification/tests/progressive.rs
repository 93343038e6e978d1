use rdp2web::progressive::{
    progressive_bitmap_with_context, progressive_context_prefix, progressive_has_context,
    RFX_PROGRESSIVE_BLOCK_HEADER_SIZE, RFX_PROGRESSIVE_CONTEXT_BLOCK, RFX_PROGRESSIVE_SYNC_BLOCK,
};
use std::borrow::Cow;

fn block(block_type: u16, body: &[u8]) -> Vec<u8> {
    let mut data = Vec::with_capacity(RFX_PROGRESSIVE_BLOCK_HEADER_SIZE + body.len());
    data.extend_from_slice(&block_type.to_le_bytes());
    data.extend_from_slice(
        &u32::try_from(RFX_PROGRESSIVE_BLOCK_HEADER_SIZE + body.len())
            .unwrap()
            .to_le_bytes(),
    );
    data.extend_from_slice(body);
    data
}

#[test]
fn progressive_context_prefix_is_reused_for_incremental_streams() {
    let first = [
        block(RFX_PROGRESSIVE_SYNC_BLOCK, &[1, 2, 3, 4, 5, 6]),
        block(RFX_PROGRESSIVE_CONTEXT_BLOCK, &[7, 8, 9, 10]),
        block(0xCCC1, &[11, 12, 13, 14, 15, 16]),
    ]
    .concat();
    let incremental = block(0xCCC1, &[21, 22, 23, 24, 25, 26]);
    let prefix = progressive_context_prefix(&first).expect("context prefix");

    let repaired = progressive_bitmap_with_context(&incremental, Some(&prefix));

    assert_eq!(prefix.len(), 22);
    assert!(progressive_has_context(&first));
    assert!(!progressive_has_context(&incremental));
    assert_eq!(&repaired[..prefix.len()], prefix.as_slice());
    assert_eq!(&repaired[prefix.len()..], incremental.as_slice());
}

#[test]
fn a_stream_with_context_or_without_a_prefix_is_borrowed() {
    let with = block(RFX_PROGRESSIVE_CONTEXT_BLOCK, &[]);
    let without = block(0xCCC1, &[]);
    assert!(matches!(
        progressive_bitmap_with_context(&with, Some(&[1, 2])),
        Cow::Borrowed(bytes) if bytes == with.as_slice()
    ));
    assert!(matches!(
        progressive_bitmap_with_context(&without, None),
        Cow::Borrowed(bytes) if bytes == without.as_slice()
    ));
    assert!(matches!(
        progressive_bitmap_with_context(&without, Some(&[1, 2])),
        Cow::Owned(_)
    ));
}

#[test]
fn the_prefix_of_a_prefix_is_the_prefix_and_a_repair_lasts() {
    let first = [
        block(0xCCC1, &[1]),
        block(RFX_PROGRESSIVE_CONTEXT_BLOCK, &[2]),
        block(RFX_PROGRESSIVE_SYNC_BLOCK, &[3]),
        block(0xCCC1, &[4]),
        block(RFX_PROGRESSIVE_SYNC_BLOCK, &[5]),
    ]
    .concat();
    let prefix = progressive_context_prefix(&first).unwrap();
    assert_eq!(
        prefix,
        [
            block(RFX_PROGRESSIVE_CONTEXT_BLOCK, &[2]),
            block(RFX_PROGRESSIVE_SYNC_BLOCK, &[3])
        ]
        .concat()
    );
    assert_eq!(progressive_context_prefix(&prefix), Some(prefix.clone()));
    let bare = block(0xCCC1, &[6]);
    let once = progressive_bitmap_with_context(&bare, Some(&prefix)).into_owned();
    assert!(progressive_has_context(&once));
    let twice = progressive_bitmap_with_context(&once, Some(&prefix)).into_owned();
    assert_eq!(once, twice);
}

#[test]
fn a_broken_block_ends_the_stream() {
    let mut short = block(RFX_PROGRESSIVE_CONTEXT_BLOCK, &[1, 2]);
    short.pop();
    assert_eq!(progressive_context_prefix(&short), None);
    let mut tiny = block(RFX_PROGRESSIVE_CONTEXT_BLOCK, &[]);
    tiny[2] = 5;
    assert_eq!(progressive_context_prefix(&tiny), None);
    assert_eq!(progressive_context_prefix(&[]), None);
}
