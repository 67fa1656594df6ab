//! The Cap'n Proto stream framing: a segment table, then the segments.
//!
//! The table is a little-endian `u32` holding the number of segments minus
//! one, then one `u32` per segment with its length in 8-byte words, padded
//! with four zero bytes to a whole word; the segments follow it in order.

use crate::wire::{le32, lemma_le32, u32_le};
use vstd::prelude::*;

verus! {

/// How many segments a message may have (`capnp::serialize::SEGMENTS_COUNT_LIMIT`
/// is 512; messages with that many or more are refused).
pub open spec fn segment_count_limit() -> nat {
    512
}

/// The length in bytes of a segment table for `count` segments.
pub open spec fn table_len(count: nat) -> nat {
    8 * (count / 2 + 1)
}

/// The number of words in the first `i` segments, as the segment table at
/// the start of `data` declares them.
pub open spec fn table_words_before(data: Seq<u8>, i: nat) -> nat
    decreases i,
{
    if i == 0 {
        0
    } else {
        table_words_before(data, (i - 1) as nat) + u32_le(data, 4 + 4 * (i - 1))
    }
}

/// The segments of the message that `data` starts with, in stream framing:
/// `None` where the table is cut short, declares no or too many segments, or
/// declares more words than follow it. Bytes after the last segment are not
/// part of the message.
pub open spec fn stream_segments(data: Seq<u8>) -> Option<Seq<Seq<u8>>> {
    if data.len() < 8 {
        None
    } else {
        let count = u32_le(data, 0) + 1;
        let t = table_len(count) as int;
        if count >= segment_count_limit() || data.len() < t {
            None
        } else if data.len() < t + 8 * table_words_before(data, count) {
            None
        } else {
            Some(
                Seq::new(
                    count,
                    |i: int|
                        data.subrange(
                            t + 8 * table_words_before(data, i as nat),
                            t + 8 * table_words_before(data, (i + 1) as nat),
                        ),
                ),
            )
        }
    }
}

/// The segments one after the other.
pub open spec fn concat(segments: Seq<Seq<u8>>) -> Seq<u8>
    decreases segments.len(),
{
    if segments.len() == 0 {
        seq![]
    } else {
        concat(segments.drop_last()) + segments.last()
    }
}

/// The word lengths of the segments, one little-endian `u32` each.
pub open spec fn length_table(segments: Seq<Seq<u8>>) -> Seq<u8>
    decreases segments.len(),
{
    if segments.len() == 0 {
        seq![]
    } else {
        length_table(segments.drop_last()) + le32(segments.last().len() / 8)
    }
}

/// The stream framing of `segments`: what a writer of Cap'n Proto messages
/// (`capnp::serialize::write_message`) puts out.
pub open spec fn frame(segments: Seq<Seq<u8>>) -> Seq<u8> {
    le32((segments.len() - 1) as nat) + length_table(segments) + (if segments.len() % 2 == 0 {
        seq![0u8, 0u8, 0u8, 0u8]
    } else {
        seq![]
    }) + concat(segments)
}

/// Segments that a stream can carry: at least one and fewer than the limit,
/// each a whole number of words, each shorter than 2^32 words.
pub open spec fn frameable(segments: Seq<Seq<u8>>) -> bool {
    &&& 1 <= segments.len() < segment_count_limit()
    &&& forall|i: int|
        0 <= i < segments.len() ==> #[trigger] segments[i].len() % 8 == 0 && segments[i].len() / 8
            < 0x1_0000_0000
}

proof fn lemma_length_table(segments: Seq<Seq<u8>>)
    requires
        frameable(segments) || segments.len() == 0 || (forall|i: int|
            0 <= i < segments.len() ==> #[trigger] segments[i].len() / 8 < 0x1_0000_0000),
    ensures
        length_table(segments).len() == 4 * segments.len(),
        forall|j: int|
            0 <= j < segments.len() ==> u32_le(length_table(segments), 4 * j) == #[trigger] segments[j].len()
                / 8,
    decreases segments.len(),
{
    if segments.len() > 0 {
        let front = segments.drop_last();
        assert forall|i: int| 0 <= i < front.len() implies #[trigger] front[i].len() / 8
            < 0x1_0000_0000 by {
            assert(front[i] == segments[i]);
        }
        lemma_length_table(front);
        let last = segments.last();
        assert(segments[segments.len() - 1] == last);
        lemma_le32(last.len() / 8);
        let t = length_table(segments);
        assert(t == length_table(front) + le32(last.len() / 8));
        assert forall|j: int| 0 <= j < segments.len() implies u32_le(t, 4 * j) == #[trigger] segments[
            j].len() / 8 by {
            if j < front.len() {
                assert(front[j] == segments[j]);
                assert(u32_le(t, 4 * j) == u32_le(length_table(front), 4 * j));
            } else {
                assert(u32_le(t, 4 * j) == u32_le(le32(last.len() / 8), 0));
            }
        }
    }
}

/// The bytes of the first `i` segments.
pub open spec fn offset(segments: Seq<Seq<u8>>, i: int) -> int {
    concat(segments.take(i)).len() as int
}

proof fn lemma_offset_step(segments: Seq<Seq<u8>>, i: int)
    requires
        0 <= i < segments.len(),
    ensures
        concat(segments.take(i + 1)) == concat(segments.take(i)) + segments[i],
        offset(segments, i + 1) == offset(segments, i) + segments[i].len(),
{
    let s = segments.take(i + 1);
    assert(s.drop_last() =~= segments.take(i));
    assert(s.last() == segments[i]);
}

proof fn lemma_concat_parts(segments: Seq<Seq<u8>>)
    ensures
        concat(segments).len() == offset(segments, segments.len() as int),
        forall|i: int|
            0 <= i < segments.len() ==> offset(segments, i) <= offset(segments, i + 1) <= concat(
                segments,
            ).len() && concat(segments).subrange(offset(segments, i), offset(segments, i + 1))
                == #[trigger] segments[i],
    decreases segments.len(),
{
    assert(segments.take(segments.len() as int) =~= segments);
    if segments.len() > 0 {
        let n = segments.len() as int;
        let front = segments.drop_last();
        lemma_concat_parts(front);
        assert forall|i: int|
            0 <= i < segments.len() implies offset(segments, i) <= offset(segments, i + 1)
            <= concat(segments).len() && concat(segments).subrange(
            offset(segments, i),
            offset(segments, i + 1),
        ) == #[trigger] segments[i] by {
            lemma_offset_step(segments, i);
            if i < n - 1 {
                assert(segments.take(i) =~= front.take(i));
                assert(segments.take(i + 1) =~= front.take(i + 1));
                assert(front[i] == segments[i]);
                assert(concat(segments) == concat(front) + segments.last());
                assert(concat(segments).subrange(offset(segments, i), offset(segments, i + 1))
                    =~= concat(front).subrange(offset(front, i), offset(front, i + 1)));
            } else {
                assert(segments.take(i) =~= front);
                assert(segments.last() == segments[i]);
                assert(concat(segments).subrange(offset(segments, i), offset(segments, i + 1))
                    =~= segments[i]);
            }
        }
    }
}

proof fn lemma_table_words(segments: Seq<Seq<u8>>, data: Seq<u8>, i: nat)
    requires
        i <= segments.len(),
        forall|j: int| 0 <= j < segments.len() ==> #[trigger] segments[j].len() % 8 == 0,
        forall|j: int|
            0 <= j < segments.len() ==> u32_le(data, 4 + 4 * j) == #[trigger] segments[j].len() / 8,
    ensures
        8 * table_words_before(data, i) == offset(segments, i as int),
    decreases i,
{
    if i == 0 {
        assert(segments.take(0) =~= Seq::<Seq<u8>>::empty());
    } else {
        let k = (i - 1) as int;
        lemma_table_words(segments, data, (i - 1) as nat);
        lemma_offset_step(segments, k);
        assert(segments[k].len() % 8 == 0);
        assert(u32_le(data, 4 + 4 * k) == segments[k].len() / 8);
    }
}

/// The byte length of the segment table that `frame` writes.
spec fn written_table_len(n: nat) -> int {
    (4 + 4 * n + (if n % 2 == 0 {
        4int
    } else {
        0int
    })) as int
}

proof fn lemma_frame_table(segments: Seq<Seq<u8>>, rest: Seq<u8>)
    requires
        frameable(segments),
    ensures
        ({
            let data = frame(segments) + rest;
            let n = segments.len();
            &&& written_table_len(n) == table_len(n)
            &&& data.len() == written_table_len(n) + concat(segments).len() + rest.len()
            &&& u32_le(data, 0) + 1 == n
            &&& forall|j: int|
                0 <= j < n ==> u32_le(data, 4 + 4 * j) == #[trigger] segments[j].len() / 8
            &&& forall|a: int, b: int|
                0 <= a <= b <= concat(segments).len() ==> #[trigger] data.subrange(
                    written_table_len(n) + a,
                    written_table_len(n) + b,
                ) == concat(segments).subrange(a, b)
        }),
{
    let n = segments.len();
    let data = frame(segments) + rest;
    let head = le32((n - 1) as nat);
    let lengths = length_table(segments);
    let pad: Seq<u8> = if n % 2 == 0 {
        seq![0u8, 0u8, 0u8, 0u8]
    } else {
        seq![]
    };
    let body = concat(segments);
    lemma_le32((n - 1) as nat);
    lemma_length_table(segments);
    let t = written_table_len(n);
    assert(t == table_len(n)) by {
        if n % 2 == 0 {
            assert(n == 2 * (n / 2));
        } else {
            assert(n == 2 * (n / 2) + 1);
        }
    }
    let table = head + lengths + pad;
    assert(table.len() == t);
    assert(data =~= table + body + rest);
    assert(u32_le(data, 0) == u32_le(head, 0));
    assert forall|j: int| 0 <= j < n implies u32_le(data, 4 + 4 * j) == #[trigger] segments[j].len()
        / 8 by {
        assert(u32_le(data, 4 + 4 * j) == u32_le(lengths, 4 * j));
    }
    assert forall|a: int, b: int| 0 <= a <= b <= body.len() implies #[trigger] data.subrange(
        t + a,
        t + b,
    ) == body.subrange(a, b) by {
        assert(data.subrange(t + a, t + b) =~= body.subrange(a, b));
    }
}

/// Reading the stream framing of well-formed segments, followed by any bytes,
/// gives back exactly those segments, whatever their number and size.
#[verifier::rlimit(30)]
pub proof fn lemma_read_framed_segments(segments: Seq<Seq<u8>>, rest: Seq<u8>)
    requires
        frameable(segments),
    ensures
        stream_segments(frame(segments) + rest) == Some(segments),
{
    let n = segments.len();
    let data = frame(segments) + rest;
    let body = concat(segments);
    lemma_frame_table(segments, rest);
    lemma_concat_parts(segments);
    let t = written_table_len(n);
    assert forall|j: int| 0 <= j < n implies #[trigger] segments[j].len() % 8 == 0 by {}
    lemma_table_words(segments, data, n);
    assert(segments.take(n as int) =~= segments);
    assert(8 * table_words_before(data, n) == body.len());
    assert forall|i: int| 0 <= i < n implies data.subrange(
        t + 8 * table_words_before(data, i as nat),
        t + 8 * table_words_before(data, (i + 1) as nat),
    ) == #[trigger] segments[i] by {
        lemma_table_words(segments, data, i as nat);
        lemma_table_words(segments, data, (i + 1) as nat);
        assert(data.subrange(t + offset(segments, i), t + offset(segments, i + 1))
            == body.subrange(offset(segments, i), offset(segments, i + 1)));
    }
    let got = stream_segments(data);
    assert(got is Some);
    assert(got->Some_0 =~= segments);
}

} // verus!
