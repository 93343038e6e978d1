//! RemoteFX Progressive bitmap streams: the sync and context blocks that set a
//! decoder up, and their reuse for a stream that comes without them.
use std::borrow::Cow;
use vstd::prelude::*;

verus! {

pub const RFX_PROGRESSIVE_SYNC_BLOCK: u16 = 0xCCC0;

pub const RFX_PROGRESSIVE_CONTEXT_BLOCK: u16 = 0xCCC3;

pub const RFX_PROGRESSIVE_BLOCK_HEADER_SIZE: usize = 6;

/// The number that the two bytes at `i` spell, least significant byte first.
pub open spec fn le16_at(data: Seq<u8>, i: int) -> int {
    data[i] + data[i + 1] * 0x100
}

/// The number that the four bytes at `i` spell, least significant byte first.
pub open spec fn le32_at(data: Seq<u8>, i: int) -> int {
    data[i] + data[i + 1] * 0x100 + data[i + 2] * 0x1_0000 + data[i + 3] * 0x100_0000
}

/// A block: a two-byte type, the four-byte length of the whole block, a body.
pub open spec fn is_block(block: Seq<u8>) -> bool {
    block.len() >= 6 && le32_at(block, 2) == block.len()
}

/// The blocks that stand one behind the other from `from` on, up to the first
/// place where no whole block stands.
pub open spec fn blocks_from(data: Seq<u8>, from: int) -> Seq<Seq<u8>>
    decreases data.len() - from,
{
    let end = from + le32_at(data, from + 2);
    if from + 6 > data.len() || end < from + 6 || end > data.len() {
        Seq::empty()
    } else {
        seq![data.subrange(from, end)] + blocks_from(data, end)
    }
}

/// The block is a context block.
pub open spec fn is_context(block: Seq<u8>) -> bool {
    le16_at(block, 0) == 0xCCC3
}

/// The block is a sync block or a context block.
pub open spec fn is_setup(block: Seq<u8>) -> bool {
    le16_at(block, 0) == 0xCCC0 || is_context(block)
}

/// One of the blocks is a context block.
pub open spec fn any_context(blocks: Seq<Seq<u8>>) -> bool {
    exists|i: int| 0 <= i < blocks.len() && is_context(#[trigger] blocks[i])
}

/// The setup blocks before the first other block that follows a context block;
/// `seen` says whether a context block went before.
pub open spec fn setup_blocks(blocks: Seq<Seq<u8>>, seen: bool) -> Seq<Seq<u8>>
    decreases blocks.len(),
{
    if blocks.len() == 0 {
        Seq::empty()
    } else if is_setup(blocks[0]) {
        seq![blocks[0]] + setup_blocks(blocks.drop_first(), seen || is_context(blocks[0]))
    } else if seen {
        Seq::empty()
    } else {
        setup_blocks(blocks.drop_first(), seen)
    }
}

/// The stream holds a context block.
pub open spec fn has_context(data: Seq<u8>) -> bool {
    any_context(blocks_from(data, 0))
}

/// The setup blocks of a stream that holds a context block.
pub open spec fn context_prefix(data: Seq<u8>) -> Option<Seq<u8>> {
    if has_context(data) {
        Some(setup_blocks(blocks_from(data, 0), false).flatten())
    } else {
        None
    }
}

/// The stream with `prefix` put before it if it holds no context block itself.
pub open spec fn with_context(data: Seq<u8>, prefix: Option<Seq<u8>>) -> Seq<u8> {
    match prefix {
        Some(prefix) if !has_context(data) => prefix + data,
        _ => data,
    }
}

/// The bytes of a borrowed or an owned slice.
pub open spec fn cow_bytes(cow: Cow<'_, [u8]>) -> Seq<u8> {
    match cow {
        Cow::Borrowed(bytes) => bytes@,
        Cow::Owned(bytes) => bytes@,
    }
}

proof fn lemma_any_context_cons(block: Seq<u8>, rest: Seq<Seq<u8>>)
    ensures
        any_context(seq![block] + rest) == (is_context(block) || any_context(rest)),
{
    let all = seq![block] + rest;
    if is_context(block) {
        assert(is_context(all[0]));
    }
    if any_context(rest) {
        let i = choose|i: int| 0 <= i < rest.len() && is_context(#[trigger] rest[i]);
        assert(is_context(all[i + 1]));
    }
    if any_context(all) {
        let i = choose|i: int| 0 <= i < all.len() && is_context(#[trigger] all[i]);
        if i > 0 {
            assert(is_context(rest[i - 1]));
        }
    }
}

proof fn lemma_flatten_cons(block: Seq<u8>, rest: Seq<Seq<u8>>)
    ensures
        (seq![block] + rest).flatten() == block + rest.flatten(),
{
    assert((seq![block] + rest).drop_first() =~= rest);
}

/// The sync and context blocks at the head of a stream, if there is a context
/// block among its blocks.
pub fn progressive_context_prefix(bitmap_data: &[u8]) -> (found: Option<Vec<u8>>)
    ensures
        match found {
            Some(prefix) => context_prefix(bitmap_data@) == Some(prefix@),
            None => context_prefix(bitmap_data@) is None,
        },
{
    let ghost all = blocks_from(bitmap_data@, 0);
    let mut offset: usize = 0;
    let mut prefix: Vec<u8> = Vec::new();
    let mut has_context = false;
    loop
        invariant_except_break
            offset <= bitmap_data.len(),
            all == blocks_from(bitmap_data@, 0),
            setup_blocks(all, false).flatten() == prefix@ + setup_blocks(
                blocks_from(bitmap_data@, offset as int),
                has_context,
            ).flatten(),
            any_context(all) == (has_context || any_context(
                blocks_from(bitmap_data@, offset as int),
            )),
        ensures
            any_context(all) == has_context,
            has_context ==> setup_blocks(all, false).flatten() == prefix@,
        decreases bitmap_data.len() - offset,
    {
        let ghost here = blocks_from(bitmap_data@, offset as int);
        assert(prefix@ + Seq::<Seq<u8>>::empty().flatten() =~= prefix@);
        if bitmap_data.len() - offset < RFX_PROGRESSIVE_BLOCK_HEADER_SIZE {
            assert(here =~= Seq::empty());
            break;
        }
        let block_type: u16 = (bitmap_data[offset] as u16) + (bitmap_data[offset + 1] as u16)
            * 0x100;
        let length: u32 = (bitmap_data[offset + 2] as u32) + (bitmap_data[offset + 3] as u32)
            * 0x100 + (bitmap_data[offset + 4] as u32) * 0x1_0000 + (bitmap_data[offset
            + 5] as u32) * 0x100_0000;
        let block_len: usize = length as usize;
        assert(length == le32_at(bitmap_data@, offset + 2));
        if block_len < RFX_PROGRESSIVE_BLOCK_HEADER_SIZE || block_len > bitmap_data.len() - offset {
            assert(here =~= Seq::empty());
            break;
        }
        let block_end: usize = offset + block_len;
        let block = &bitmap_data[offset..block_end];
        let ghost rest = blocks_from(bitmap_data@, block_end as int);
        proof {
            assert(here =~= seq![block@] + rest);
            assert(here.drop_first() =~= rest);
            assert(block_type == le16_at(block@, 0));
            lemma_any_context_cons(block@, rest);
        }
        if block_type == RFX_PROGRESSIVE_SYNC_BLOCK || block_type == RFX_PROGRESSIVE_CONTEXT_BLOCK {
            let ghost before = prefix@;
            prefix.extend_from_slice(block);
            has_context = has_context || block_type == RFX_PROGRESSIVE_CONTEXT_BLOCK;
            proof {
                let tail = setup_blocks(rest, has_context);
                lemma_flatten_cons(block@, tail);
                assert(before + (block@ + tail.flatten()) =~= prefix@ + tail.flatten());
            }
        } else if has_context {
            break;
        }
        offset = block_end;
    }
    if has_context {
        Some(prefix)
    } else {
        None
    }
}

/// Whether the stream holds a context block.
pub fn progressive_has_context(bitmap_data: &[u8]) -> (present: bool)
    ensures
        present == has_context(bitmap_data@),
{
    progressive_context_prefix(bitmap_data).is_some()
}

/// Puts the setup blocks of an earlier stream before one that has none.
pub fn progressive_bitmap_with_context<'a>(
    bitmap_data: &'a [u8],
    context_prefix: Option<&[u8]>,
) -> (repaired: Cow<'a, [u8]>)
    ensures
        cow_bytes(repaired) == with_context(
            bitmap_data@,
            match context_prefix {
                Some(prefix) => Some(prefix@),
                None => None,
            },
        ),
        repaired is Borrowed <==> has_context(bitmap_data@) || context_prefix is None,
{
    if progressive_has_context(bitmap_data) {
        return Cow::Borrowed(bitmap_data);
    }
    match context_prefix {
        Some(prefix) => {
            let mut data: Vec<u8> = Vec::new();
            data.extend_from_slice(prefix);
            data.extend_from_slice(bitmap_data);
            Cow::Owned(data)
        },
        None => Cow::Borrowed(bitmap_data),
    }
}

proof fn lemma_blocks_shift(p: Seq<u8>, s: Seq<u8>, k: int)
    requires
        0 <= k <= s.len(),
    ensures
        blocks_from(p + s, p.len() + k) == blocks_from(s, k),
    decreases s.len() - k,
{
    let whole = p + s;
    if k + 6 <= s.len() {
        let end = k + le32_at(s, k + 2);
        assert(le32_at(whole, p.len() + k + 2) == le32_at(s, k + 2));
        if k + 6 <= end && end <= s.len() {
            lemma_blocks_shift(p, s, end);
            assert(whole.subrange(p.len() + k, p.len() + end) =~= s.subrange(k, end));
        }
    }
}

proof fn lemma_blocks_of_flatten(blocks: Seq<Seq<u8>>, tail: Seq<u8>)
    requires
        forall|i: int| 0 <= i < blocks.len() ==> is_block(#[trigger] blocks[i]),
    ensures
        blocks_from(blocks.flatten() + tail, 0) == blocks + blocks_from(tail, 0),
    decreases blocks.len(),
{
    let s = blocks.flatten() + tail;
    if blocks.len() == 0 {
        assert(s =~= tail);
        assert(blocks + blocks_from(tail, 0) =~= blocks_from(tail, 0));
    } else {
        let block = blocks[0];
        let more = blocks.drop_first();
        assert forall|i: int| 0 <= i < more.len() implies is_block(#[trigger] more[i]) by {
            assert(more[i] == blocks[i + 1]);
        }
        lemma_blocks_of_flatten(more, tail);
        assert(seq![block] + more =~= blocks);
        lemma_flatten_cons(block, more);
        let rest = more.flatten() + tail;
        assert(s =~= block + rest);
        lemma_blocks_shift(block, rest, 0);
        assert(is_block(block));
        assert(le32_at(s, 2) == le32_at(block, 2));
        assert(s.subrange(0, block.len() as int) =~= block);
        assert(seq![block] + (more + blocks_from(tail, 0)) =~= blocks + blocks_from(tail, 0));
    }
}

proof fn lemma_blocks_are_blocks(data: Seq<u8>, from: int)
    requires
        0 <= from,
    ensures
        forall|i: int|
            0 <= i < blocks_from(data, from).len() ==> is_block(
                #[trigger] blocks_from(data, from)[i],
            ),
    decreases data.len() - from,
{
    let end = from + le32_at(data, from + 2);
    if !(from + 6 > data.len() || end < from + 6 || end > data.len()) {
        lemma_blocks_are_blocks(data, end);
        let block = data.subrange(from, end);
        let rest = blocks_from(data, end);
        assert(le32_at(block, 2) == le32_at(data, from + 2));
        let all = seq![block] + rest;
        assert forall|i: int| 0 <= i < all.len() implies is_block(#[trigger] all[i]) by {
            if i > 0 {
                assert(all[i] == rest[i - 1]);
            }
        }
    }
}

proof fn lemma_blocks_lead(data: Seq<u8>, from: int)
    requires
        0 <= from <= data.len(),
    ensures
        blocks_from(data, from).flatten().is_prefix_of(data.subrange(from, data.len() as int)),
    decreases data.len() - from,
{
    let end = from + le32_at(data, from + 2);
    let here = data.subrange(from, data.len() as int);
    if from + 6 > data.len() || end < from + 6 || end > data.len() {
        assert(blocks_from(data, from) =~= Seq::empty());
        assert(blocks_from(data, from).flatten() =~= here.take(0));
    } else {
        let block = data.subrange(from, end);
        let rest = blocks_from(data, end);
        lemma_blocks_lead(data, end);
        lemma_flatten_cons(block, rest);
        assert(here =~= block + data.subrange(end, data.len() as int));
        assert((block + rest.flatten()).is_prefix_of(here)) by {
            let behind = data.subrange(end, data.len() as int);
            assert(here.subrange(0, (block + rest.flatten()).len() as int) =~= block
                + behind.subrange(0, rest.flatten().len() as int));
        }
    }
}

proof fn lemma_setup_blocks(blocks: Seq<Seq<u8>>, seen: bool)
    requires
        forall|i: int| 0 <= i < blocks.len() ==> is_block(#[trigger] blocks[i]),
    ensures
        forall|i: int|
            0 <= i < setup_blocks(blocks, seen).len() ==> {
                &&& is_block(#[trigger] setup_blocks(blocks, seen)[i])
                &&& is_setup(setup_blocks(blocks, seen)[i])
            },
        !seen ==> any_context(setup_blocks(blocks, seen)) == any_context(blocks),
    decreases blocks.len(),
{
    if blocks.len() > 0 {
        let more = blocks.drop_first();
        assert forall|i: int| 0 <= i < more.len() implies is_block(#[trigger] more[i]) by {
            assert(more[i] == blocks[i + 1]);
        }
        let now = seen || is_context(blocks[0]);
        lemma_setup_blocks(more, now);
        assert(seq![blocks[0]] + more =~= blocks);
        lemma_any_context_cons(blocks[0], more);
        if is_setup(blocks[0]) {
            let rest = setup_blocks(more, now);
            let all = seq![blocks[0]] + rest;
            lemma_any_context_cons(blocks[0], rest);
            assert forall|i: int| 0 <= i < all.len() implies is_block(#[trigger] all[i])
                && is_setup(all[i]) by {
                if i > 0 {
                    assert(all[i] == rest[i - 1]);
                }
            }
        }
    }
}

proof fn lemma_setup_blocks_fixed(blocks: Seq<Seq<u8>>, seen: bool)
    requires
        forall|i: int| 0 <= i < blocks.len() ==> is_setup(#[trigger] blocks[i]),
    ensures
        setup_blocks(blocks, seen) == blocks,
    decreases blocks.len(),
{
    if blocks.len() == 0 {
        assert(setup_blocks(blocks, seen) =~= blocks);
    } else {
        let more = blocks.drop_first();
        assert forall|i: int| 0 <= i < more.len() implies is_setup(#[trigger] more[i]) by {
            assert(more[i] == blocks[i + 1]);
        }
        lemma_setup_blocks_fixed(more, seen || is_context(blocks[0]));
        assert(is_setup(blocks[0]));
        assert(seq![blocks[0]] + more =~= blocks);
    }
}

/// A stream made of blocks is read back as those blocks, whatever stands behind
/// them: blocks that stand there follow, and bytes that are no block are not
/// read.
pub proof fn law_blocks_are_read_back(blocks: Seq<Seq<u8>>, tail: Seq<u8>)
    requires
        forall|i: int| 0 <= i < blocks.len() ==> is_block(#[trigger] blocks[i]),
    ensures
        blocks_from(blocks.flatten() + tail, 0) == blocks + blocks_from(tail, 0),
        blocks_from(blocks.flatten(), 0) == blocks,
{
    lemma_blocks_of_flatten(blocks, tail);
    lemma_blocks_of_flatten(blocks, Seq::empty());
    assert(blocks.flatten() + Seq::<u8>::empty() =~= blocks.flatten());
    assert(blocks + blocks_from(Seq::<u8>::empty(), 0) =~= blocks);
}

/// What is read of any stream is blocks, and they stand at its beginning.
pub proof fn law_only_blocks_are_read(data: Seq<u8>)
    ensures
        forall|i: int|
            0 <= i < blocks_from(data, 0).len() ==> is_block(#[trigger] blocks_from(data, 0)[i]),
        blocks_from(data, 0).flatten().is_prefix_of(data),
{
    lemma_blocks_are_blocks(data, 0);
    lemma_blocks_lead(data, 0);
    assert(data.subrange(0, data.len() as int) =~= data);
}

/// A context prefix is the context prefix of itself.
pub proof fn law_context_prefix_of_prefix(data: Seq<u8>)
    ensures
        context_prefix(data) matches Some(prefix) ==> context_prefix(prefix) == Some(prefix),
{
    if let Some(prefix) = context_prefix(data) {
        let blocks = blocks_from(data, 0);
        let setup = setup_blocks(blocks, false);
        lemma_blocks_are_blocks(data, 0);
        lemma_setup_blocks(blocks, false);
        law_blocks_are_read_back(setup, Seq::empty());
        lemma_setup_blocks_fixed(setup, false);
    }
}

/// Any stream that is repaired with the context prefix of another stream holds
/// a context block.
pub proof fn law_repaired_has_context(data: Seq<u8>, earlier: Seq<u8>)
    requires
        context_prefix(earlier) is Some,
    ensures
        has_context(with_context(data, context_prefix(earlier))),
{
    if !has_context(data) {
        let blocks = blocks_from(earlier, 0);
        let setup = setup_blocks(blocks, false);
        lemma_blocks_are_blocks(earlier, 0);
        lemma_setup_blocks(blocks, false);
        lemma_blocks_of_flatten(setup, data);
        let i = choose|i: int| 0 <= i < setup.len() && is_context(#[trigger] setup[i]);
        assert(is_context((setup + blocks_from(data, 0))[i]));
    }
}

/// Repairing a stream a second time changes nothing.
pub proof fn law_repair_idempotent(data: Seq<u8>, earlier: Seq<u8>, other: Option<Seq<u8>>)
    requires
        context_prefix(earlier) is Some,
    ensures
        with_context(with_context(data, context_prefix(earlier)), other) == with_context(
            data,
            context_prefix(earlier),
        ),
{
    law_repaired_has_context(data, earlier);
}

/// A block of the given type with the given body: the type and the length of the
/// whole block, least significant byte first, and the body.
pub open spec fn made_block(kind: int, body: Seq<u8>) -> Seq<u8> {
    let len = body.len() + 6;
    seq![
        (kind % 0x100) as u8,
        (kind / 0x100) as u8,
        (len % 0x100) as u8,
        (len / 0x100 % 0x100) as u8,
        (len / 0x1_0000 % 0x100) as u8,
        (len / 0x100_0000) as u8,
    ] + body
}

/// What is made as a block is read as one, sets a decoder up exactly if its type
/// is 0xCCC0 or 0xCCC3, and holds a context exactly if its type is 0xCCC3.
pub proof fn law_made_blocks(kind: int, body: Seq<u8>)
    requires
        0 <= kind <= 0xffff,
        body.len() + 6 <= 0xffff_ffff,
    ensures
        is_block(made_block(kind, body)),
        is_context(made_block(kind, body)) <==> kind == 0xCCC3,
        is_setup(made_block(kind, body)) <==> kind == 0xCCC0 || kind == 0xCCC3,
        blocks_from(made_block(kind, body), 0) == seq![made_block(kind, body)],
{
    let block = made_block(kind, body);
    let len = body.len() as int + 6;
    let high = len / 0x100;
    let higher = len / 0x1_0000;
    assert(high / 0x100 == higher);
    assert(higher / 0x100 == len / 0x100_0000);
    assert(block.len() == len);
    assert(0 <= len / 0x100_0000 < 0x100);
    assert(le32_at(block, 2) == len);
    assert(block.subrange(0, len) =~= block);
    assert(blocks_from(block, len) =~= Seq::empty());
    assert(seq![block] + blocks_from(block, len) =~= seq![block]);
}

/// A context block, by its first two bytes.
pub open spec fn starts_context(block: Seq<u8>) -> bool {
    block[0] == 0xc3 && block[1] == 0xcc
}

/// A sync block, by its first two bytes.
pub open spec fn starts_sync(block: Seq<u8>) -> bool {
    block[0] == 0xc0 && block[1] == 0xcc
}

/// The sync blocks among blocks, in order.
pub open spec fn sync_blocks(blocks: Seq<Seq<u8>>) -> Seq<Seq<u8>>
    decreases blocks.len(),
{
    if blocks.len() == 0 {
        Seq::empty()
    } else if starts_sync(blocks[0]) {
        seq![blocks[0]] + sync_blocks(blocks.drop_first())
    } else {
        sync_blocks(blocks.drop_first())
    }
}

/// No whole block stands at the beginning: there are fewer than six bytes, or the
/// length that they give is less than six or more than there is.
pub open spec fn no_block_at_start(tail: Seq<u8>) -> bool {
    tail.len() < 6 || {
        let len = tail[2] + 0x100 * tail[3] + 0x1_0000 * tail[4] + 0x100_0000 * tail[5];
        len < 6 || len > tail.len()
    }
}

proof fn lemma_flatten_joined(a: Seq<Seq<u8>>, b: Seq<Seq<u8>>)
    ensures
        (a + b).flatten() == a.flatten() + b.flatten(),
    decreases a.len(),
{
    if a.len() == 0 {
        assert(a + b =~= b);
        assert(a.flatten() + b.flatten() =~= b.flatten());
    } else {
        let more = a.drop_first();
        lemma_flatten_joined(more, b);
        assert(a =~= seq![a[0]] + more);
        assert(a + b =~= seq![a[0]] + (more + b));
        lemma_flatten_cons(a[0], more);
        lemma_flatten_cons(a[0], more + b);
        assert(a[0] + (more.flatten() + b.flatten()) =~= a[0] + more.flatten() + b.flatten());
    }
}

proof fn lemma_setup_before_context(before: Seq<Seq<u8>>, rest: Seq<Seq<u8>>)
    requires
        forall|i: int| 0 <= i < before.len() ==> !starts_context(#[trigger] before[i]),
    ensures
        setup_blocks(before + rest, false) == sync_blocks(before) + setup_blocks(rest, false),
    decreases before.len(),
{
    let all = before + rest;
    if before.len() == 0 {
        assert(all =~= rest);
        assert(sync_blocks(before) + setup_blocks(rest, false) =~= setup_blocks(rest, false));
    } else {
        let more = before.drop_first();
        assert forall|i: int| 0 <= i < more.len() implies !starts_context(#[trigger] more[i]) by {
            assert(more[i] == before[i + 1]);
        }
        lemma_setup_before_context(more, rest);
        assert(all.drop_first() =~= more + rest);
        assert(all[0] == before[0]);
        assert(!starts_context(before[0]));
        if starts_sync(before[0]) {
            assert(seq![before[0]] + (sync_blocks(more) + setup_blocks(rest, false)) =~= seq![
                before[0],
            ] + sync_blocks(more) + setup_blocks(rest, false));
        }
    }
}

proof fn lemma_setup_behind_context(setup: Seq<Seq<u8>>, rest: Seq<Seq<u8>>)
    requires
        forall|i: int|
            0 <= i < setup.len() ==> starts_context(#[trigger] setup[i]) || starts_sync(setup[i]),
        rest.len() > 0 ==> !starts_context(rest[0]) && !starts_sync(rest[0]),
    ensures
        setup_blocks(setup + rest, true) == setup,
    decreases setup.len(),
{
    let all = setup + rest;
    if setup.len() == 0 {
        assert(all =~= rest);
        assert(setup_blocks(rest, true) =~= setup);
    } else {
        let more = setup.drop_first();
        assert forall|i: int| 0 <= i < more.len() implies starts_context(#[trigger] more[i])
            || starts_sync(more[i]) by {
            assert(more[i] == setup[i + 1]);
        }
        lemma_setup_behind_context(more, rest);
        assert(all.drop_first() =~= more + rest);
        assert(all[0] == setup[0]);
        assert(seq![setup[0]] + more =~= setup);
    }
}

/// What is kept of a stream: the sync blocks before its first context block, that
/// block, and the sync and context blocks directly behind it, all as they are and
/// in order. Another block ends them, and so does a place where no block stands.
pub proof fn law_what_is_kept_of_a_stream(
    before: Seq<Seq<u8>>,
    context: Seq<u8>,
    setup: Seq<Seq<u8>>,
    tail: Seq<u8>,
)
    requires
        forall|i: int|
            0 <= i < before.len() ==> is_block(#[trigger] before[i]) && !starts_context(before[i]),
        is_block(context),
        starts_context(context),
        forall|i: int|
            0 <= i < setup.len() ==> is_block(#[trigger] setup[i]) && (starts_context(setup[i])
                || starts_sync(setup[i])),
        no_block_at_start(tail) || (tail.len() >= 2 && !starts_context(tail) && !starts_sync(tail)),
    ensures
        context_prefix(before.flatten() + context + setup.flatten() + tail) == Some(
            sync_blocks(before).flatten() + context + setup.flatten(),
        ),
{
    let whole = before.flatten() + context + setup.flatten() + tail;
    let lead = seq![context] + setup;
    let all = before + lead;
    let rest = blocks_from(tail, 0);
    lemma_flatten_joined(before, lead);
    lemma_flatten_cons(context, setup);
    assert(whole =~= all.flatten() + tail);
    assert forall|i: int| 0 <= i < all.len() implies is_block(#[trigger] all[i]) by {
        if i < before.len() {
            assert(all[i] == before[i]);
        } else if i > before.len() {
            assert(all[i] == setup[i - before.len() - 1]);
        }
    }
    lemma_blocks_of_flatten(all, tail);
    assert(all + rest =~= before + (lead + rest));
    lemma_setup_before_context(before, lead + rest);
    assert((lead + rest).drop_first() =~= setup + rest);
    assert((lead + rest)[0] == context);
    if rest.len() > 0 {
        assert(rest[0][0] == tail[0] && rest[0][1] == tail[1]);
    }
    lemma_setup_behind_context(setup, rest);
    assert(setup_blocks(all + rest, false) == sync_blocks(before) + lead);
    assert((all + rest)[before.len() as int] == context);
    assert(is_context((all + rest)[before.len() as int]));
    lemma_flatten_joined(sync_blocks(before), lead);
    assert(sync_blocks(before).flatten() + (context + setup.flatten()) =~= sync_blocks(
        before,
    ).flatten() + context + setup.flatten());
}

/// Nothing is kept of a stream without a context block.
pub proof fn law_nothing_is_kept_without_context(blocks: Seq<Seq<u8>>, tail: Seq<u8>)
    requires
        forall|i: int|
            0 <= i < blocks.len() ==> is_block(#[trigger] blocks[i]) && !starts_context(blocks[i]),
        no_block_at_start(tail),
    ensures
        context_prefix(blocks.flatten() + tail) is None,
{
    assert forall|i: int| 0 <= i < blocks.len() implies is_block(#[trigger] blocks[i]) by {}
    lemma_blocks_of_flatten(blocks, tail);
    assert(blocks_from(tail, 0) =~= Seq::empty());
    assert(blocks + blocks_from(tail, 0) =~= blocks);
    assert forall|i: int| 0 <= i < blocks.len() implies !is_context(#[trigger] blocks[i]) by {
        assert(!starts_context(blocks[i]));
    }
}

/// A repaired stream is the stream itself if it holds a context block or there is
/// nothing to repair it with, and otherwise what is given followed by the stream.
pub proof fn law_what_a_repair_gives(data: Seq<u8>, prefix: Seq<u8>)
    ensures
        with_context(data, None) == data,
        context_prefix(data) is Some ==> with_context(data, Some(prefix)) == data,
        context_prefix(data) is None ==> with_context(data, Some(prefix)) == prefix + data,
{
}

}
