//! What holds of every packet and frame: which streams are read back as the
//! NAL units they were made of, and what a produced frame always is.
use crate::h264;
use crate::h264::VideoError;
use vstd::prelude::*;

verus! {

/// The three bytes of a start code stand at `i`.
pub open spec fn code_at(data: Seq<u8>, i: int) -> bool {
    0 <= i && i + 3 <= data.len() && data[i] == 0 && data[i + 1] == 0 && data[i + 2] == 1
}

/// No start code begins inside the NAL unit.
pub open spec fn code_free(nal: Seq<u8>) -> bool {
    forall|i: int| !(#[trigger] code_at(nal, i))
}

/// A first byte that says that a NAL unit belongs to an IDR picture: its low five
/// bits are 5.
pub open spec fn says_idr(header: u8) -> bool {
    header & 0x1f == 5
}

/// One of the NAL units belongs to an IDR picture.
pub open spec fn some_idr(nals: Seq<Seq<u8>>) -> bool {
    exists|i: int| 0 <= i < nals.len() && says_idr((#[trigger] nals[i])[0])
}

/// Zeros, at least two, and then a one.
pub open spec fn zeros_then_one(data: Seq<u8>) -> bool {
    exists|n: int|
        2 <= n < data.len() && #[trigger] data[n] == 1 && forall|i: int|
            0 <= i < n ==> #[trigger] data[i] == 0
}

/// NAL units that an Annex B stream can carry: none empty, none with a start
/// code inside.
pub open spec fn carriable(nals: Seq<Seq<u8>>) -> bool {
    forall|i: int| 0 <= i < nals.len() ==> (#[trigger] nals[i]).len() > 0 && code_free(nals[i])
}

/// The three-byte start code, or the four-byte one.
pub open spec fn code(long: bool) -> Seq<u8> {
    if long {
        seq![0u8, 0u8, 0u8, 1u8]
    } else {
        seq![0u8, 0u8, 1u8]
    }
}

/// The Annex B stream of `nals` in which `longs` says which start codes have
/// four bytes.
pub open spec fn mixed_stream(nals: Seq<Seq<u8>>, longs: Seq<bool>) -> Seq<u8>
    recommends
        nals.len() == longs.len(),
    decreases nals.len(),
{
    if nals.len() == 0 {
        Seq::empty()
    } else {
        code(longs[0]) + nals[0] + mixed_stream(nals.drop_first(), longs.drop_first())
    }
}

/// The Annex B stream of `nals` in which every start code has four bytes.
pub open spec fn framed(nals: Seq<Seq<u8>>) -> Seq<u8> {
    mixed_stream(nals, Seq::new(nals.len(), |i: int| true))
}

/// A NAL unit that ends in a zero byte is followed by a four-byte start code.
pub open spec fn codes_fit(nals: Seq<Seq<u8>>, longs: Seq<bool>) -> bool {
    forall|i: int|
        0 < i < nals.len() ==> #[trigger] longs[i] || nals[i - 1][nals[i - 1].len() - 1] != 0
}

/// The four bytes of `n`, most significant first.
#[verifier::opaque]
pub open spec fn be32(n: int) -> Seq<u8> {
    seq![
        (n / 0x100_0000) as u8,
        (n / 0x1_0000 % 0x100) as u8,
        (n / 0x100 % 0x100) as u8,
        (n % 0x100) as u8,
    ]
}

/// The stream that holds each NAL unit behind its four-byte length.
pub open spec fn length_prefixed(nals: Seq<Seq<u8>>) -> Seq<u8>
    decreases nals.len(),
{
    if nals.len() == 0 {
        Seq::empty()
    } else {
        be32(nals[0].len() as int) + nals[0] + length_prefixed(nals.drop_first())
    }
}

/// NAL units whose length fits the four-byte prefix and is not zero.
pub open spec fn prefixable(nals: Seq<Seq<u8>>) -> bool {
    forall|i: int| 0 <= i < nals.len() ==> 0 < (#[trigger] nals[i]).len() <= 0xffff_ffff
}

/// A length whose four-byte prefix reads as the beginning of a start code.
pub open spec fn length_looks_like_start_code(len: int) -> bool {
    len == 1 || 0x100 <= len < 0x200
}

/// No start code of either length begins in bytes that hold none.
proof fn lemma_code_free(nal: Seq<u8>)
    ensures
        code_free(nal) <==> forall|i: int| #[trigger] h264::start_code_len(nal, i) == 0,
{
    if code_free(nal) {
        assert forall|i: int| #[trigger] h264::start_code_len(nal, i) == 0 by {
            assert(!code_at(nal, i));
            assert(!code_at(nal, i + 1));
        }
    }
    if forall|i: int| #[trigger] h264::start_code_len(nal, i) == 0 {
        assert forall|i: int| !(#[trigger] code_at(nal, i)) by {
            assert(h264::start_code_len(nal, i) == 0);
        }
    }
}

/// The low five bits of a byte are its remainder by 32.
proof fn lemma_low_bits(header: u8)
    ensures
        says_idr(header) == (header % 32 == 5),
{
    assert(header & 0x1f == header % 32) by (bit_vector);
}

/// What a conversion calls a key frame is one that holds an IDR picture.
proof fn lemma_some_idr(nals: Seq<Seq<u8>>)
    requires
        forall|i: int| 0 <= i < nals.len() ==> (#[trigger] nals[i]).len() > 0,
    ensures
        h264::has_idr(nals) == some_idr(nals),
{
    assert forall|i: int| 0 <= i < nals.len() implies h264::is_idr(#[trigger] nals[i]) == says_idr(
        nals[i][0],
    ) by {
        lemma_low_bits(nals[i][0]);
    }
    if h264::has_idr(nals) {
        let i = choose|i: int| 0 <= i < nals.len() && h264::is_idr(#[trigger] nals[i]);
        assert(says_idr(nals[i][0]));
    }
    if some_idr(nals) {
        let i = choose|i: int| 0 <= i < nals.len() && says_idr((#[trigger] nals[i])[0]);
        assert(h264::is_idr(nals[i]));
    }
}

proof fn lemma_shift_next(p: Seq<u8>, s: Seq<u8>, k: int)
    requires
        0 <= k,
    ensures
        h264::next_start_code(p + s, p.len() + k) == match h264::next_start_code(s, k) {
            Some((start, len)) => Some((p.len() + start, len)),
            None => None,
        },
    decreases s.len() - k,
{
    assert(h264::start_code_len(p + s, p.len() + k) == h264::start_code_len(s, k));
    if k + 3 <= s.len() && h264::start_code_len(s, k) == 0 {
        lemma_shift_next(p, s, k + 1);
    }
}

proof fn lemma_shift_nals(p: Seq<u8>, s: Seq<u8>, k: int)
    requires
        0 <= k,
    ensures
        h264::annex_b_nals(p + s, p.len() + k) == h264::annex_b_nals(s, k),
    decreases s.len() - k,
{
    lemma_shift_next(p, s, k);
    h264::lemma_next_start_code(s, k);
    if let Some((start, len)) = h264::next_start_code(s, k) {
        let begin = start + len;
        lemma_shift_next(p, s, begin);
        h264::lemma_next_start_code(s, begin);
        let end = h264::nal_end(s, begin);
        assert(h264::nal_end(p + s, p.len() + begin) == p.len() + end);
        lemma_shift_nals(p, s, end);
        assert((p + s).subrange(p.len() + begin, p.len() + end) =~= s.subrange(begin, end));
    }
}

/// In `nal` followed by a start code, the first start code is that one.
proof fn lemma_first_code_behind_nal(nal: Seq<u8>, long: bool, rest: Seq<u8>)
    requires
        code_free(nal),
        long || nal.len() == 0 || nal[nal.len() - 1] != 0,
    ensures
        h264::next_start_code(nal + (code(long) + rest), 0) == Some(
            (nal.len() as int, code(long).len() as int),
        ),
{
    let s = nal + (code(long) + rest);
    let n = nal.len() as int;
    lemma_code_free(nal);
    assert(h264::start_code_len(s, n) == code(long).len()) by {
        assert(s[n] == 0 && s[n + 1] == 0);
        if long {
            assert(s[n + 2] == 0 && s[n + 3] == 1);
        } else {
            assert(s[n + 2] == 1);
        }
    }
    assert forall|i: int| 0 <= i < n implies #[trigger] h264::start_code_len(s, i) == 0 by {
        assert(h264::start_code_len(nal, i) == 0);
        assert(h264::start_code_len(nal, i + 1) == 0);
        assert(forall|j: int| n <= j < n + code(long).len() ==> s[j] == code(long)[j - n]);
    }
    h264::lemma_next_start_code(s, 0);
}

/// A code-free tail has no further start code.
proof fn lemma_no_code_in_nal(nal: Seq<u8>)
    requires
        code_free(nal),
    ensures
        h264::next_start_code(nal, 0) is None,
{
    lemma_code_free(nal);
    h264::lemma_next_start_code(nal, 0);
}

/// What stands behind a NAL unit: nothing, or a start code that the NAL unit's
/// last byte does not run into.
spec fn follows(nal: Seq<u8>, rest: Seq<u8>) -> bool {
    rest.len() == 0 || exists|long: bool, tail: Seq<u8>|
        rest == #[trigger] (code(long) + tail) && (long || nal[nal.len() - 1] != 0)
}

proof fn lemma_read_first_nal(long: bool, nal: Seq<u8>, rest: Seq<u8>)
    requires
        nal.len() > 0,
        code_free(nal),
        follows(nal, rest),
    ensures
        h264::annex_b_nals(code(long) + nal + rest, 0) == seq![nal] + h264::annex_b_nals(rest, 0),
{
    let s = code(long) + nal + rest;
    let begin = code(long).len() as int;
    let end = begin + nal.len();
    assert(s.subrange(0, begin) =~= code(long));
    lemma_starts_with_code(s, long);
    assert(s =~= code(long) + (nal + rest));
    lemma_shift_next(code(long), nal + rest, 0);
    if rest.len() == 0 {
        assert(nal + rest =~= nal);
        lemma_no_code_in_nal(nal);
    } else {
        let (next_long, tail) = choose|next_long: bool, tail: Seq<u8>|
            rest == #[trigger] (code(next_long) + tail) && (next_long || nal[nal.len() - 1] != 0);
        lemma_first_code_behind_nal(nal, next_long, tail);
    }
    assert(h264::nal_end(s, begin) == end);
    assert(s.subrange(begin, end) =~= nal);
    assert(s =~= (code(long) + nal) + rest);
    lemma_shift_nals(code(long) + nal, rest, 0);
}

proof fn lemma_mixed_stream_nals(nals: Seq<Seq<u8>>, longs: Seq<bool>)
    requires
        nals.len() == longs.len(),
        carriable(nals),
        codes_fit(nals, longs),
    ensures
        h264::annex_b_nals(mixed_stream(nals, longs), 0) == nals,
    decreases nals.len(),
{
    if nals.len() == 0 {
        assert(h264::annex_b_nals(mixed_stream(nals, longs), 0) =~= nals);
    } else {
        let nal = nals[0];
        let more = nals.drop_first();
        let more_longs = longs.drop_first();
        let rest = mixed_stream(more, more_longs);
        assert(carriable(more)) by {
            assert forall|i: int| 0 <= i < more.len() implies (#[trigger] more[i]).len() > 0
                && code_free(more[i]) by {
                assert(more[i] == nals[i + 1]);
            }
        }
        assert(codes_fit(more, more_longs)) by {
            assert forall|i: int| 0 < i < more.len() implies #[trigger] more_longs[i] || more[i
                - 1][more[i - 1].len() - 1] != 0 by {
                assert(longs[i + 1] == more_longs[i]);
            }
        }
        lemma_mixed_stream_nals(more, more_longs);
        assert(follows(nal, rest)) by {
            if more.len() > 0 {
                let tail = more[0] + mixed_stream(more.drop_first(), more_longs.drop_first());
                assert(longs[1] == more_longs[0]);
                assert(rest =~= code(more_longs[0]) + tail);
            }
        }
        lemma_read_first_nal(longs[0], nal, rest);
        assert(seq![nal] + more =~= nals);
    }
}

proof fn lemma_annex_b_stream_is_mixed(nals: Seq<Seq<u8>>)
    ensures
        h264::annex_b_stream(nals) == mixed_stream(nals, Seq::new(nals.len(), |i: int| true)),
    decreases nals.len(),
{
    if nals.len() > 0 {
        lemma_annex_b_stream_is_mixed(nals.drop_first());
        assert(Seq::new(nals.len(), |i: int| true).drop_first() =~= Seq::new(
            nals.drop_first().len(),
            |i: int| true,
        ));
    }
}

proof fn lemma_annex_b_nals_carriable(data: Seq<u8>, from: int)
    requires
        0 <= from,
    ensures
        carriable(h264::annex_b_nals(data, from)),
    decreases data.len() - from,
{
    h264::lemma_next_start_code(data, from);
    if let Some((start, len)) = h264::next_start_code(data, from) {
        let begin = start + len;
        let end = h264::nal_end(data, begin);
        h264::lemma_next_start_code(data, begin);
        lemma_annex_b_nals_carriable(data, end);
        if begin < end {
            let nal = data.subrange(begin, end);
            assert forall|i: int| #[trigger] h264::start_code_len(nal, i) == 0 by {
                if h264::start_code_len(nal, i) != 0 {
                    assert(h264::start_code_len(data, begin + i) != 0);
                }
            }
            lemma_code_free(nal);
            let rest = h264::annex_b_nals(data, end);
            let all = seq![nal] + rest;
            assert forall|i: int| 0 <= i < all.len() implies (#[trigger] all[i]).len() > 0
                && code_free(all[i]) by {
                if i > 0 {
                    assert(all[i] == rest[i - 1]);
                }
            }
        }
    }
}

proof fn lemma_starts_with_code(s: Seq<u8>, long: bool)
    requires
        s.len() >= code(long).len(),
        s.subrange(0, code(long).len() as int) == code(long),
    ensures
        h264::next_start_code(s, 0) == Some((0int, code(long).len() as int)),
        h264::is_annex_b(s),
{
    assert(s[0] == code(long)[0] && s[1] == code(long)[1] && s[2] == code(long)[2]) by {
        assert(forall|i: int| 0 <= i < code(long).len() ==> s.subrange(0, code(long).len() as int)[i] == s[i]);
    }
    if long {
        assert(s[3] == s.subrange(0, 4)[3]);
    }
}

/// An Annex B stream gives back the NAL units it was made of, whichever start
/// codes it uses: none empty, none with a start code inside, and none that ends
/// in a zero byte before a three-byte start code. The frame then holds those
/// NAL units behind four-byte start codes.
pub proof fn law_annex_b_read_back(nals: Seq<Seq<u8>>, longs: Seq<bool>)
    requires
        nals.len() > 0,
        nals.len() == longs.len(),
        carriable(nals),
        codes_fit(nals, longs),
    ensures
        h264::is_annex_b(mixed_stream(nals, longs)),
        h264::annex_b_nals(mixed_stream(nals, longs), 0) == nals,
        h264::packet_frame(mixed_stream(nals, longs)) == Ok::<(bool, Seq<u8>), VideoError>(
            (some_idr(nals), framed(nals)),
        ),
{
    lemma_mixed_stream_nals(nals, longs);
    lemma_some_idr(nals);
    lemma_annex_b_stream_is_mixed(nals);
    let s = mixed_stream(nals, longs);
    assert(s.subrange(0, code(longs[0]).len() as int) =~= code(longs[0]));
    lemma_starts_with_code(s, longs[0]);
}

/// The NAL units can be read back of the frame that holds them.
pub proof fn law_frame_read_back(nals: Seq<Seq<u8>>)
    requires
        carriable(nals),
    ensures
        h264::annex_b_nals(framed(nals), 0) == nals,
{
    lemma_mixed_stream_nals(nals, Seq::new(nals.len(), |i: int| true));
}

/// Every frame is an Annex B stream that begins with a four-byte start code.
pub proof fn law_frames_are_annex_b(data: Seq<u8>)
    ensures
        h264::packet_frame(data) matches Ok((_, stream)) ==> {
            &&& h264::is_annex_b(stream)
            &&& stream.len() > 4
            &&& stream.subrange(0, 4) == seq![0u8, 0u8, 0u8, 1u8]
        },
{
    if h264::packet_frame(data) is Ok {
        let nals = if h264::is_annex_b(data) {
            h264::annex_b_nals(data, 0)
        } else {
            h264::avc_nals(data, 0)->Ok_0
        };
        if h264::is_annex_b(data) {
            lemma_annex_b_nals_carriable(data, 0);
        } else {
            law_avc_is_length_prefixed(data);
        }
        assert(nals[0].len() > 0);
        let stream = h264::annex_b_stream(nals);
        assert(stream.subrange(0, 4) =~= seq![0u8, 0u8, 0u8, 1u8]);
        lemma_starts_with_code(stream, true);
    }
}

/// Normalizing is idempotent: the frame of an Annex B stream, converted again,
/// is the same frame.
pub proof fn law_annex_b_idempotent(data: Seq<u8>)
    ensures
        h264::annex_b_frame(data) matches Ok((key, stream)) ==> h264::packet_frame(stream) == Ok::<
            (bool, Seq<u8>),
            VideoError,
        >((key, stream)),
{
    if let Ok((key, stream)) = h264::annex_b_frame(data) {
        let nals = h264::annex_b_nals(data, 0);
        lemma_annex_b_nals_carriable(data, 0);
        let longs = Seq::new(nals.len(), |i: int| true);
        lemma_annex_b_stream_is_mixed(nals);
        law_annex_b_read_back(nals, longs);
    }
}

proof fn lemma_split(n: int)
    requires
        0 <= n <= 0xffff_ffff,
    ensures
        n == (n / 0x100_0000) * 0x100_0000 + (n / 0x1_0000 % 0x100) * 0x1_0000 + (n / 0x100 % 0x100)
            * 0x100 + n % 0x100,
        0 <= n / 0x100_0000 < 0x100,
{
    let high = n / 0x100;
    let higher = n / 0x1_0000;
    assert(high / 0x100 == higher);
    assert(higher / 0x100 == n / 0x100_0000);
}

proof fn lemma_compose(a: int, b: int, c: int, d: int)
    requires
        0 <= a < 0x100,
        0 <= b < 0x100,
        0 <= c < 0x100,
        0 <= d < 0x100,
    ensures
        ({
            let n = a * 0x100_0000 + b * 0x1_0000 + c * 0x100 + d;
            &&& 0 <= n <= 0xffff_ffff
            &&& n / 0x100_0000 == a
            &&& n / 0x1_0000 % 0x100 == b
            &&& n / 0x100 % 0x100 == c
            &&& n % 0x100 == d
        }),
{
    let n = a * 0x100_0000 + b * 0x1_0000 + c * 0x100 + d;
    assert(n / 0x100 == a * 0x1_0000 + b * 0x100 + c);
    assert(n / 0x1_0000 == a * 0x100 + b);
}

/// The number that `be32` spells is the one it was made of.
proof fn lemma_be32(n: int)
    requires
        0 <= n <= 0xffff_ffff,
    ensures
        be32(n).len() == 4,
        be32(n)[0] == n / 0x100_0000,
        be32(n)[1] == n / 0x1_0000 % 0x100,
        be32(n)[2] == n / 0x100 % 0x100,
        be32(n)[3] == n % 0x100,
        h264::be32_at(be32(n), 0) == n,
{
    reveal(be32);
    lemma_split(n);
}

proof fn lemma_be32_of(data: Seq<u8>, i: int)
    requires
        0 <= i,
        i + 4 <= data.len(),
    ensures
        0 <= h264::be32_at(data, i) <= 0xffff_ffff,
        be32(h264::be32_at(data, i)) == data.subrange(i, i + 4),
{
    lemma_compose(data[i] as int, data[i + 1] as int, data[i + 2] as int, data[i + 3] as int);
    lemma_be32(h264::be32_at(data, i));
    assert(be32(h264::be32_at(data, i)) =~= data.subrange(i, i + 4));
}

proof fn lemma_avc_nals_of(p: Seq<u8>, nals: Seq<Seq<u8>>)
    requires
        prefixable(nals),
        p.len() + length_prefixed(nals).len() <= usize::MAX,
    ensures
        h264::avc_nals(p + length_prefixed(nals), p.len() as int) == Ok::<Seq<Seq<u8>>, VideoError>(nals),
    decreases nals.len(),
{
    let s = p + length_prefixed(nals);
    let from = p.len() as int;
    if nals.len() == 0 {
        assert(h264::avc_nals(s, from)->Ok_0 =~= nals);
    } else {
        let nal = nals[0];
        let more = nals.drop_first();
        let rest = length_prefixed(more);
        let head = be32(nal.len() as int);
        assert(0 < nals[0].len() <= 0xffff_ffff);
        lemma_be32(nal.len() as int);
        assert(h264::be32_at(s, from) == h264::be32_at(head, 0));
        assert(s =~= (p + head + nal) + rest);
        lemma_prefixable_rest(nals);
        lemma_avc_nals_of(p + head + nal, more);
        let begin = from + 4;
        assert(s.subrange(begin, begin + nal.len()) =~= nal);
        assert(seq![nal] + more =~= nals);
    }
}

proof fn lemma_avc_nals_only(data: Seq<u8>, from: int)
    requires
        0 <= from <= data.len(),
    ensures
        h264::avc_nals(data, from) matches Ok(nals) ==> {
            &&& prefixable(nals)
            &&& data.subrange(from, data.len() as int) == length_prefixed(nals)
        },
    decreases data.len() - from,
{
    if let Ok(nals) = h264::avc_nals(data, from) {
        if from + 4 > data.len() {
            assert(data.subrange(from, data.len() as int) =~= length_prefixed(nals));
        } else {
            let begin = from + 4;
            let end = begin + h264::be32_at(data, from);
            lemma_be32_of(data, from);
            lemma_avc_nals_only(data, end);
            let rest = h264::avc_nals(data, end)->Ok_0;
            let nal = data.subrange(begin, end);
            assert(nals =~= seq![nal] + rest);
            assert(nals.drop_first() =~= rest);
            assert forall|i: int| 0 <= i < nals.len() implies 0 < (#[trigger] nals[i]).len()
                <= 0xffff_ffff by {
                if i > 0 {
                    assert(nals[i] == rest[i - 1]);
                }
            }
            assert(data.subrange(from, data.len() as int) =~= data.subrange(from, begin) + nal
                + data.subrange(end, data.len() as int));
        }
    }
}

/// A length-prefixed stream gives back the NAL units it was made of.
pub proof fn law_length_prefixed_read_back(nals: Seq<Seq<u8>>)
    requires
        prefixable(nals),
        length_prefixed(nals).len() <= usize::MAX,
    ensures
        h264::avc_nals(length_prefixed(nals), 0) == Ok::<Seq<Seq<u8>>, VideoError>(nals),
{
    lemma_avc_nals_of(Seq::empty(), nals);
    assert(Seq::<u8>::empty() + length_prefixed(nals) =~= length_prefixed(nals));
}

/// Nothing but a length-prefixed stream is read as one.
pub proof fn law_avc_is_length_prefixed(data: Seq<u8>)
    ensures
        h264::avc_nals(data, 0) matches Ok(nals) ==> prefixable(nals) && data == length_prefixed(nals),
{
    lemma_avc_nals_only(data, 0);
    assert(data.subrange(0, data.len() as int) =~= data);
}

/// A length-prefixed stream is taken for an Annex B stream exactly if the
/// length of its first NAL unit is 1 or lies from 256 to 511: the prefix then
/// spells a start code.
pub proof fn law_when_lengths_look_like_annex_b(nals: Seq<Seq<u8>>)
    requires
        nals.len() > 0,
        prefixable(nals),
    ensures
        h264::is_annex_b(length_prefixed(nals)) == length_looks_like_start_code(nals[0].len() as int),
{
    let s = length_prefixed(nals);
    let n = nals[0].len() as int;
    assert(0 < nals[0].len() <= 0xffff_ffff);
    lemma_be32(n);
    h264::lemma_next_start_code(s, 0);
    assert(s[0] == be32(n)[0] && s[1] == be32(n)[1] && s[2] == be32(n)[2] && s[3] == be32(n)[3]);
    lemma_split(n);
    if length_looks_like_start_code(n) {
        assert(s[0] == 0 && s[1] == 0);
        assert(h264::start_code_len(s, 0) > 0);
    } else {
        assert(h264::start_code_len(s, 0) == 0);
        if let Some((start, _)) = h264::next_start_code(s, 0) {
            assert(start > 0);
            if h264::is_annex_b(s) {
                if start >= 4 {
                    assert(s[0] == 0 && s[1] == 0 && s[2] == 0 && s[3] == 0);
                } else if start == 1 {
                    assert(s[0] == 0);
                } else if start == 2 {
                    assert(s[0] == 0 && s[1] == 0);
                } else {
                    assert(s[0] == 0 && s[1] == 0 && s[2] == 0);
                }
                assert(false);
            }
        }
    }
}

/// A length-prefixed packet becomes the frame that holds the same NAL units
/// behind four-byte start codes, as long as its first length does not read as
/// a start code. The frame is as long as the packet.
pub proof fn law_avc_packet_to_frame(nals: Seq<Seq<u8>>)
    requires
        nals.len() > 0,
        prefixable(nals),
        length_prefixed(nals).len() <= usize::MAX,
        !length_looks_like_start_code(nals[0].len() as int),
    ensures
        h264::packet_frame(length_prefixed(nals)) == Ok::<(bool, Seq<u8>), VideoError>(
            (some_idr(nals), framed(nals)),
        ),
        framed(nals).len() == length_prefixed(nals).len(),
{
    assert forall|i: int| 0 <= i < nals.len() implies (#[trigger] nals[i]).len() > 0 by {
        assert(0 < nals[i].len() <= 0xffff_ffff);
    }
    lemma_some_idr(nals);
    lemma_annex_b_stream_is_mixed(nals);
    law_length_prefixed_read_back(nals);
    law_when_lengths_look_like_annex_b(nals);
    lemma_stream_lengths(nals);
}

proof fn lemma_prefixable_rest(nals: Seq<Seq<u8>>)
    requires
        nals.len() > 0,
        prefixable(nals),
    ensures
        prefixable(nals.drop_first()),
{
    let more = nals.drop_first();
    assert forall|i: int| 0 <= i < more.len() implies 0 < (#[trigger] more[i]).len()
        <= 0xffff_ffff by {
        assert(more[i] == nals[i + 1]);
    }
}

proof fn lemma_stream_lengths(nals: Seq<Seq<u8>>)
    requires
        prefixable(nals),
    ensures
        h264::annex_b_stream(nals).len() == length_prefixed(nals).len(),
    decreases nals.len(),
{
    if nals.len() > 0 {
        assert(0 < nals[0].len() <= 0xffff_ffff);
        lemma_be32(nals[0].len() as int);
        lemma_prefixable_rest(nals);
        lemma_stream_lengths(nals.drop_first());
    }
}

/// Two frames with the same message are the same frame.
pub proof fn law_video_packet_injective(key1: bool, data1: Seq<u8>, key2: bool, data2: Seq<u8>)
    requires
        h264::video_packet(key1, data1) == h264::video_packet(key2, data2),
    ensures
        key1 == key2,
        data1 == data2,
{
    let p1 = h264::video_packet(key1, data1);
    let p2 = h264::video_packet(key2, data2);
    assert(p1[1] == if key1 {
        1u8
    } else {
        0u8
    });
    assert(p2[1] == if key2 {
        1u8
    } else {
        0u8
    });
    assert(p1.subrange(2, p1.len() as int) =~= data1);
    assert(p2.subrange(2, p2.len() as int) =~= data2);
}

/// What an Annex B stream is: zeros, at least two, and then a one. Anything else
/// is taken for a length-prefixed stream.
pub proof fn law_annex_b_is_zeros_then_one(data: Seq<u8>)
    ensures
        h264::is_annex_b(data) == zeros_then_one(data),
{
    h264::lemma_next_start_code(data, 0);
    if h264::is_annex_b(data) {
        if let Some((start, len)) = h264::next_start_code(data, 0) {
            let n = start + len - 1;
            assert(data[n] == 1);
            assert forall|i: int| 0 <= i < n implies #[trigger] data[i] == 0 by {}
        }
    }
    if zeros_then_one(data) {
        let n = choose|n: int|
            2 <= n < data.len() && #[trigger] data[n] == 1 && forall|i: int|
                0 <= i < n ==> #[trigger] data[i] == 0;
        assert(data[n - 2] == 0 && data[n - 1] == 0);
        assert(h264::start_code_len(data, n - 2) == 3);
    }
}

proof fn lemma_idr_behind_code(data: Seq<u8>, from: int)
    requires
        0 <= from,
    ensures
        h264::has_idr(h264::annex_b_nals(data, from)) <==> exists|p: int|
            from <= p && p + 3 < data.len() && #[trigger] code_at(data, p) && says_idr(data[p + 3]),
    decreases data.len() - from,
{
    h264::lemma_next_start_code(data, from);
    let nals = h264::annex_b_nals(data, from);
    match h264::next_start_code(data, from) {
        None => {
            assert forall|p: int| from <= p implies !(#[trigger] code_at(data, p)) by {
                assert(h264::start_code_len(data, p) == 0);
            }
        },
        Some((start, len)) => {
            let begin = start + len;
            let end = h264::nal_end(data, begin);
            h264::lemma_next_start_code(data, begin);
            lemma_idr_behind_code(data, end);
            let rest = h264::annex_b_nals(data, end);
            assert(code_at(data, begin - 3));
            if begin < end {
                let nal = data.subrange(begin, end);
                lemma_low_bits(data[begin]);
                assert(nals[0] == nal);
                if h264::has_idr(rest) {
                    let i = choose|i: int| 0 <= i < rest.len() && h264::is_idr(#[trigger] rest[i]);
                    assert(nals[i + 1] == rest[i]);
                    assert(h264::is_idr(nals[i + 1]));
                }
                if h264::has_idr(nals) {
                    let i = choose|i: int| 0 <= i < nals.len() && h264::is_idr(#[trigger] nals[i]);
                    if i > 0 {
                        assert(h264::is_idr(rest[i - 1]));
                    }
                }
                if says_idr(data[begin]) {
                    assert(h264::is_idr(nals[0]));
                }
            } else if begin < data.len() {
                assert(data[begin] == 0);
                assert(0u8 & 0x1f == 0) by (bit_vector);
            }
            assert forall|p: int|
                from <= p && p + 3 < data.len() && #[trigger] code_at(data, p) && says_idr(
                    data[p + 3],
                ) implies p == begin - 3 && begin < end || end <= p by {
                if p < begin - 3 {
                    assert(h264::start_code_len(data, p) != 0);
                } else if p == begin - 3 {
                } else if p < begin {
                    assert(data[begin - 1] == 1);
                } else if p < end {
                    assert(h264::start_code_len(data, p) == 0);
                }
            }
        },
    }
}

/// The frame of an Annex B stream is a key frame exactly if behind one of the
/// stream's start codes stands a byte whose low five bits are 5.
pub proof fn law_annex_b_key_frames(data: Seq<u8>)
    requires
        zeros_then_one(data),
    ensures
        h264::packet_frame(data) matches Ok((key, _)) ==> (key <==> exists|p: int|
            p + 3 < data.len() && #[trigger] code_at(data, p) && says_idr(data[p + 3])),
{
    law_annex_b_is_zeros_then_one(data);
    lemma_idr_behind_code(data, 0);
}

/// Any other packet that gives a frame is length-prefixed. Its frame holds the
/// same NAL units, and is a key frame exactly if the first byte of one of them
/// has 5 in its low five bits.
pub proof fn law_other_packets_are_length_prefixed(data: Seq<u8>)
    requires
        !zeros_then_one(data),
        h264::packet_frame(data) is Ok,
    ensures
        exists|nals: Seq<Seq<u8>>|
            nals.len() > 0 && #[trigger] prefixable(nals) && data == length_prefixed(nals)
                && h264::packet_frame(data) == Ok::<(bool, Seq<u8>), VideoError>(
                (some_idr(nals), framed(nals)),
            ),
{
    law_annex_b_is_zeros_then_one(data);
    law_avc_is_length_prefixed(data);
    let nals = h264::avc_nals(data, 0)->Ok_0;
    assert forall|i: int| 0 <= i < nals.len() implies (#[trigger] nals[i]).len() > 0 by {
        assert(0 < nals[i].len() <= 0xffff_ffff);
    }
    lemma_some_idr(nals);
    lemma_annex_b_stream_is_mixed(nals);
}

/// A picture without an IDR slice is never a key frame, whatever else its NAL
/// units say of themselves.
pub proof fn law_delta_pictures_are_no_key_frames(nals: Seq<Seq<u8>>, longs: Seq<bool>)
    requires
        nals.len() > 0,
        nals.len() == longs.len(),
        carriable(nals),
        codes_fit(nals, longs),
        forall|i: int| 0 <= i < nals.len() ==> !says_idr((#[trigger] nals[i])[0]),
    ensures
        h264::packet_frame(mixed_stream(nals, longs)) == Ok::<(bool, Seq<u8>), VideoError>(
            (false, framed(nals)),
        ),
        prefixable(nals) && length_prefixed(nals).len() <= usize::MAX
            && !length_looks_like_start_code(nals[0].len() as int) ==> h264::packet_frame(
            length_prefixed(nals),
        ) == Ok::<(bool, Seq<u8>), VideoError>((false, framed(nals))),
{
    law_annex_b_read_back(nals, longs);
    if prefixable(nals) && length_prefixed(nals).len() <= usize::MAX
        && !length_looks_like_start_code(nals[0].len() as int) {
        law_avc_packet_to_frame(nals);
    }
}

proof fn lemma_avc_nals_before(p: Seq<u8>, nals: Seq<Seq<u8>>, tail: Seq<u8>)
    requires
        prefixable(nals),
        p.len() + length_prefixed(nals).len() + tail.len() <= usize::MAX,
    ensures
        ({
            let whole = p + length_prefixed(nals) + tail;
            let behind = (p + length_prefixed(nals)).len() as int;
            h264::avc_nals(whole, p.len() as int) == match h264::avc_nals(whole, behind) {
                Ok(rest) => Ok::<Seq<Seq<u8>>, VideoError>(nals + rest),
                Err(error) => Err(error),
            }
        }),
    decreases nals.len(),
{
    let whole = p + length_prefixed(nals) + tail;
    let from = p.len() as int;
    let behind = (p + length_prefixed(nals)).len() as int;
    if nals.len() == 0 {
        if let Ok(rest) = h264::avc_nals(whole, behind) {
            assert(nals + rest =~= rest);
        }
    } else {
        let nal = nals[0];
        let more = nals.drop_first();
        let head = be32(nal.len() as int);
        assert(0 < nals[0].len() <= 0xffff_ffff);
        lemma_be32(nal.len() as int);
        let q = p + head + nal;
        assert(whole =~= q + length_prefixed(more) + tail);
        assert(h264::be32_at(whole, from) == h264::be32_at(head, 0));
        lemma_prefixable_rest(nals);
        lemma_avc_nals_before(q, more, tail);
        assert(whole.subrange(from + 4, from + 4 + nal.len()) =~= nal);
        if let Ok(rest) = h264::avc_nals(whole, behind) {
            assert(seq![nal] + (more + rest) =~= nals + rest);
        }
    }
}

/// How a packet that is not Annex B fails, whichever NAL units it begins with:
/// one to three bytes left over are trailing bytes; a length that is zero or
/// runs past the end of the packet is invalid, and one that runs past the end of
/// memory overflows; and a packet without any NAL unit is refused as such.
pub proof fn law_malformed_packets(nals: Seq<Seq<u8>>, tail: Seq<u8>, length: int)
    requires
        prefixable(nals),
        length_prefixed(nals).len() + tail.len() <= usize::MAX,
        !zeros_then_one(length_prefixed(nals) + tail),
        tail.len() >= 4 ==> 0 <= length <= 0xffff_ffff && tail.subrange(0, 4) == be32(length),
    ensures
        0 < tail.len() < 4 ==> h264::packet_frame(length_prefixed(nals) + tail) == Err::<
            (bool, Seq<u8>),
            VideoError,
        >(VideoError::TrailingBytes),
        tail.len() >= 4 && (length == 0 || length > tail.len() - 4) ==> h264::packet_frame(
            length_prefixed(nals) + tail,
        ) == Err::<(bool, Seq<u8>), VideoError>(
            if length_prefixed(nals).len() + 4 + length > usize::MAX {
                VideoError::NalLengthOverflow
            } else {
                VideoError::InvalidNalLength
            },
        ),
        nals.len() == 0 && tail.len() == 0 ==> h264::packet_frame(length_prefixed(nals) + tail)
            == Err::<(bool, Seq<u8>), VideoError>(VideoError::NoAvcNalUnits),
{
    let whole = length_prefixed(nals) + tail;
    let n = length_prefixed(nals).len() as int;
    law_annex_b_is_zeros_then_one(whole);
    lemma_avc_nals_before(Seq::empty(), nals, tail);
    assert(Seq::<u8>::empty() + length_prefixed(nals) =~= length_prefixed(nals));
    if tail.len() >= 4 {
        assert(whole.subrange(n, n + 4) =~= tail.subrange(0, 4));
        let head = tail.subrange(0, 4);
        assert(h264::be32_at(whole, n) == h264::be32_at(head, 0));
        lemma_be32(length);
    }
}

/// Zeros before an Annex B stream change nothing.
pub proof fn law_leading_zeros_change_nothing(data: Seq<u8>)
    requires
        zeros_then_one(data),
    ensures
        zeros_then_one(seq![0u8] + data),
        h264::packet_frame(seq![0u8] + data) == h264::packet_frame(data),
{
    let zero = seq![0u8];
    let whole = zero + data;
    let n = choose|n: int|
        2 <= n < data.len() && #[trigger] data[n] == 1 && forall|i: int|
            0 <= i < n ==> #[trigger] data[i] == 0;
    assert(whole[n + 1] == 1);
    assert forall|i: int| 0 <= i < n + 1 implies #[trigger] whole[i] == 0 by {
        if i > 0 {
            assert(whole[i] == data[i - 1]);
        }
    }
    law_annex_b_is_zeros_then_one(data);
    law_annex_b_is_zeros_then_one(whole);
    h264::lemma_next_start_code(data, 0);
    lemma_shift_next(zero, data, 0);
    if let Some((start, len)) = h264::next_start_code(data, 0) {
        let begin = start + len;
        h264::lemma_next_start_code(whole, 0);
        assert(h264::start_code_len(whole, 1 + start) == len);
        lemma_shift_next(zero, data, begin);
        h264::lemma_next_start_code(data, begin);
        lemma_shift_nals(zero, data, h264::nal_end(data, begin));
        assert(whole.subrange(1 + begin, 1 + h264::nal_end(data, begin)) =~= data.subrange(
            begin,
            h264::nal_end(data, begin),
        ));
        assert(h264::annex_b_nals(whole, 0) == h264::annex_b_nals(data, 0));
    }
}

/// A start code with no NAL unit behind it, before an Annex B stream that begins
/// with a start code, changes nothing.
pub proof fn law_empty_nal_units_are_left_out(long: bool, next: bool, rest: Seq<u8>)
    ensures
        h264::packet_frame(code(long) + (code(next) + rest)) == h264::packet_frame(
            code(next) + rest,
        ),
{
    let data = code(next) + rest;
    let whole = code(long) + data;
    assert(data.subrange(0, code(next).len() as int) =~= code(next));
    assert(whole.subrange(0, code(long).len() as int) =~= code(long));
    lemma_starts_with_code(data, next);
    lemma_starts_with_code(whole, long);
    lemma_shift_next(code(long), data, 0);
    lemma_shift_nals(code(long), data, 0);
}

/// A start code with nothing behind it is no packet.
pub proof fn law_a_bare_start_code_is_refused(long: bool)
    ensures
        h264::packet_frame(code(long)) == Err::<(bool, Seq<u8>), VideoError>(
            VideoError::NoAnnexBNalUnits,
        ),
{
    let data = code(long);
    assert(data.subrange(0, data.len() as int) =~= data);
    lemma_starts_with_code(data, long);
    assert(h264::nal_end(data, data.len() as int) == data.len());
    assert(h264::annex_b_nals(data, data.len() as int) =~= Seq::empty());
}

/// A frame's message is its bytes behind two more: a one, and one or zero for
/// whether it is a key frame.
pub proof fn law_video_packet_bytes(key: bool, data: Seq<u8>, i: int)
    ensures
        h264::video_packet(key, data).len() == data.len() + 2,
        h264::video_packet(key, data)[0] == 1,
        key ==> h264::video_packet(key, data)[1] == 1,
        !key ==> h264::video_packet(key, data)[1] == 0,
        0 <= i < data.len() ==> h264::video_packet(key, data)[i + 2] == data[i],
{
}

/// A start code is found where its three bytes stand first, with the zero before
/// them if there is one and it is searched.
pub proof fn law_start_codes_are_found(data: Seq<u8>, from: int)
    requires
        0 <= from,
    ensures
        match h264::next_start_code(data, from) {
            Some((start, len)) => {
                &&& from <= start
                &&& 3 <= len <= 4
                &&& code_at(data, start + len - 3)
                &&& forall|i: int|
                    from <= i < start + len - 3 ==> !(#[trigger] code_at(data, i))
                &&& len == 4 <==> (start + len - 4 >= from && data[start + len - 4] == 0)
            },
            None => forall|i: int| from <= i ==> !(#[trigger] code_at(data, i)),
        },
{
    h264::lemma_next_start_code(data, from);
    match h264::next_start_code(data, from) {
        Some((start, len)) => {
            assert forall|i: int| from <= i < start + len - 3 implies !(#[trigger] code_at(
                data,
                i,
            )) by {
                if i < start {
                    assert(h264::start_code_len(data, i) == 0);
                }
            }
            if len == 3 && start - 1 >= from {
                assert(h264::start_code_len(data, start - 1) == 0);
            }
        },
        None => {
            assert forall|i: int| from <= i implies !(#[trigger] code_at(data, i)) by {
                assert(h264::start_code_len(data, i) == 0);
            }
        },
    }
}

/// The message of each error.
pub proof fn law_video_error_messages()
    ensures
        VideoError::NalLengthOverflow.text() == "AVC NAL length overflow"@,
        VideoError::InvalidNalLength.text() == "AVC packet contains an invalid NAL length"@,
        VideoError::TrailingBytes.text() == "AVC packet has trailing bytes"@,
        VideoError::NoAvcNalUnits.text() == "AVC packet contained no NAL units"@,
        VideoError::NoAnnexBNalUnits.text() == "Annex B H.264 packet contained no NAL units"@,
{
}

proof fn lemma_mixed_stream_then(nals: Seq<Seq<u8>>, longs: Seq<bool>, next: bool, rest: Seq<u8>)
    requires
        nals.len() == longs.len(),
        carriable(nals),
        codes_fit(nals, longs),
        nals.len() > 0 ==> next || nals[nals.len() - 1][nals[nals.len() - 1].len() - 1] != 0,
    ensures
        h264::annex_b_nals(mixed_stream(nals, longs) + (code(next) + rest), 0) == nals
            + h264::annex_b_nals(code(next) + rest, 0),
    decreases nals.len(),
{
    let tail = code(next) + rest;
    let read = h264::annex_b_nals(tail, 0);
    let whole = mixed_stream(nals, longs) + tail;
    if nals.len() == 0 {
        assert(whole =~= tail);
        assert(nals + read =~= read);
    } else {
        let nal = nals[0];
        let more = nals.drop_first();
        let more_longs = longs.drop_first();
        let behind = mixed_stream(more, more_longs) + tail;
        assert(carriable(more)) by {
            assert forall|i: int| 0 <= i < more.len() implies (#[trigger] more[i]).len() > 0
                && code_free(more[i]) by {
                assert(more[i] == nals[i + 1]);
            }
        }
        assert(codes_fit(more, more_longs)) by {
            assert forall|i: int| 0 < i < more.len() implies #[trigger] more_longs[i] || more[i
                - 1][more[i - 1].len() - 1] != 0 by {
                assert(longs[i + 1] == more_longs[i]);
            }
        }
        lemma_mixed_stream_then(more, more_longs, next, rest);
        assert(follows(nal, behind)) by {
            if more.len() > 0 {
                let later = more[0] + mixed_stream(more.drop_first(), more_longs.drop_first())
                    + tail;
                assert(longs[1] == more_longs[0]);
                assert(behind =~= code(more_longs[0]) + later);
            } else {
                assert(behind =~= code(next) + rest);
            }
        }
        assert(whole =~= code(longs[0]) + nal + behind);
        lemma_read_first_nal(longs[0], nal, behind);
        assert(seq![nal] + (more + read) =~= nals + read);
    }
}

proof fn lemma_joined_frames(a: Seq<Seq<u8>>, b: Seq<Seq<u8>>)
    ensures
        h264::annex_b_stream(a + b) == h264::annex_b_stream(a) + h264::annex_b_stream(b),
        h264::has_idr(a + b) == (h264::has_idr(a) || h264::has_idr(b)),
    decreases a.len(),
{
    if h264::has_idr(a) {
        let i = choose|i: int| 0 <= i < a.len() && h264::is_idr(#[trigger] a[i]);
        assert(h264::is_idr((a + b)[i]));
    }
    if h264::has_idr(b) {
        let i = choose|i: int| 0 <= i < b.len() && h264::is_idr(#[trigger] b[i]);
        assert(h264::is_idr((a + b)[i + a.len()]));
    }
    if h264::has_idr(a + b) {
        let i = choose|i: int| 0 <= i < (a + b).len() && h264::is_idr(#[trigger] (a + b)[i]);
        if i < a.len() {
            assert(h264::is_idr(a[i]));
        } else {
            assert(h264::is_idr(b[i - a.len()]));
        }
    }
    if a.len() == 0 {
        assert(a + b =~= b);
        assert(h264::annex_b_stream(a) + h264::annex_b_stream(b) =~= h264::annex_b_stream(b));
    } else {
        lemma_joined_frames(a.drop_first(), b);
        assert((a + b).drop_first() =~= a.drop_first() + b);
        assert(h264::annex_b_stream(a + b) =~= h264::annex_b_stream(a) + h264::annex_b_stream(b));
    }
}

/// Behind NAL units an Annex B stream may go on as it likes: the frame of the whole
/// is the frame of those NAL units followed by the frame of the rest, a key frame
/// if either is one; a rest without NAL units adds nothing.
pub proof fn law_annex_b_streams_are_joined(
    nals: Seq<Seq<u8>>,
    longs: Seq<bool>,
    next: bool,
    rest: Seq<u8>,
)
    requires
        nals.len() > 0,
        nals.len() == longs.len(),
        carriable(nals),
        codes_fit(nals, longs),
        next || nals[nals.len() - 1][nals[nals.len() - 1].len() - 1] != 0,
    ensures
        h264::packet_frame(mixed_stream(nals, longs) + (code(next) + rest)) == Ok::<
            (bool, Seq<u8>),
            VideoError,
        >(
            match h264::packet_frame(code(next) + rest) {
                Ok((key, stream)) => (some_idr(nals) || key, framed(nals) + stream),
                Err(_) => (some_idr(nals), framed(nals)),
            },
        ),
{
    let tail = code(next) + rest;
    let read = h264::annex_b_nals(tail, 0);
    let whole = mixed_stream(nals, longs) + tail;
    lemma_mixed_stream_then(nals, longs, next, rest);
    assert(whole.subrange(0, code(longs[0]).len() as int) =~= code(longs[0]));
    lemma_starts_with_code(whole, longs[0]);
    assert(tail.subrange(0, code(next).len() as int) =~= code(next));
    lemma_starts_with_code(tail, next);
    lemma_joined_frames(nals, read);
    lemma_some_idr(nals);
    lemma_annex_b_stream_is_mixed(nals);
    if read.len() == 0 {
        assert(nals + read =~= nals);
    }
}

}
