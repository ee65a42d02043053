//! What a frame can hold after any number of whole writes.
//!
//! A frame starts blank and changes only by strided copies, one whole copy at
//! a time. The laws here say what every such frame looks like, however many
//! writes went before and whatever they carried.

use crate::buffer::frame_len;
use crate::frame::{blank_frame, copied_pixels, strided_copy};
use vstd::prelude::*;

verus! {

/// The frame after the payloads of `writes` were copied into `start`, first to
/// last, each as one whole strided copy.
pub open spec fn replay(start: Seq<u8>, writes: Seq<Seq<u8>>) -> Seq<u8>
    decreases writes.len(),
{
    if writes.len() == 0 {
        start
    } else {
        strided_copy(replay(start, writes.drop_last()), writes.last())
    }
}

/// The frames that whole writes can make of a blank frame of the given
/// dimensions.
pub open spec fn is_published_frame(width: nat, height: nat, bytes: Seq<u8>) -> bool {
    exists|writes: Seq<Seq<u8>>| bytes == #[trigger] replay(
            blank_frame(frame_len(width, height)),
            writes,
        )
}

/// Pixel `p` of `bytes` shows the colour bytes of pixel `p` of `payload`.
pub open spec fn pixel_from(bytes: Seq<u8>, p: int, payload: Seq<u8>) -> bool {
    &&& 3 * p + 2 < payload.len()
    &&& bytes[4 * p] == payload[3 * p]
    &&& bytes[4 * p + 1] == payload[3 * p + 1]
    &&& bytes[4 * p + 2] == payload[3 * p + 2]
}

/// Pixel `p` of `bytes` shows the colour bytes of pixel `p` of `start`.
pub open spec fn pixel_untouched(bytes: Seq<u8>, p: int, start: Seq<u8>) -> bool {
    &&& bytes[4 * p] == start[4 * p]
    &&& bytes[4 * p + 1] == start[4 * p + 1]
    &&& bytes[4 * p + 2] == start[4 * p + 2]
}

/// One more write extends a replay by one strided copy.
pub proof fn lemma_replay_push(start: Seq<u8>, writes: Seq<Seq<u8>>, payload: Seq<u8>)
    ensures
        replay(start, writes.push(payload)) == strided_copy(replay(start, writes), payload),
{
    assert(writes.push(payload).drop_last() =~= writes);
}

/// No run of writes changes the frame's length.
pub proof fn lemma_replay_len(start: Seq<u8>, writes: Seq<Seq<u8>>)
    ensures
        replay(start, writes).len() == start.len(),
    decreases writes.len(),
{
    if writes.len() > 0 {
        lemma_replay_len(start, writes.drop_last());
    }
}

/// No run of writes changes a padding byte.
pub proof fn lemma_replay_keeps_padding(start: Seq<u8>, writes: Seq<Seq<u8>>, p: int)
    requires
        0 <= p,
        4 * p + 3 < start.len(),
    ensures
        replay(start, writes)[4 * p + 3] == start[4 * p + 3],
    decreases writes.len(),
{
    if writes.len() > 0 {
        lemma_replay_len(start, writes.drop_last());
        lemma_replay_keeps_padding(start, writes.drop_last(), p);
    }
}

/// No pixel is ever torn: after any run of whole writes, the three colour
/// bytes of a pixel all come from the same pixel of one and the same write, or
/// all are still what the frame started with. Bytes of two writes never mix
/// within a pixel.
pub proof fn lemma_replay_untorn(start: Seq<u8>, writes: Seq<Seq<u8>>, p: int)
    requires
        0 <= p,
        4 * p + 3 < start.len(),
    ensures
        pixel_untouched(replay(start, writes), p, start) || exists|j: int|
            0 <= j < writes.len() && pixel_from(replay(start, writes), p, #[trigger] writes[j]),
    decreases writes.len(),
{
    if writes.len() > 0 {
        let earlier = writes.drop_last();
        let before = replay(start, earlier);
        let payload = writes.last();
        let after = replay(start, writes);
        lemma_replay_len(start, earlier);
        lemma_replay_untorn(start, earlier, p);
        assert((4 * p) / 4 == p && (4 * p) % 4 == 0);
        assert((4 * p + 1) / 4 == p && (4 * p + 1) % 4 == 1);
        assert((4 * p + 2) / 4 == p && (4 * p + 2) % 4 == 2);
        if p < copied_pixels(before, payload) {
            assert(pixel_from(after, p, writes[writes.len() - 1]));
        } else {
            assert(after[4 * p] == before[4 * p]);
            assert(after[4 * p + 1] == before[4 * p + 1]);
            assert(after[4 * p + 2] == before[4 * p + 2]);
            if !pixel_untouched(before, p, start) {
                let j = choose|j: int|
                    0 <= j < earlier.len() && pixel_from(before, p, #[trigger] earlier[j]);
                assert(earlier[j] == writes[j]);
                assert(pixel_from(after, p, writes[j]));
            }
        }
    }
}

/// After a run of writes, a pixel that the last write covers shows the last
/// write: the frame holds the most recent frame, not a backlog.
pub proof fn lemma_replay_shows_last_write(start: Seq<u8>, writes: Seq<Seq<u8>>, p: int)
    requires
        writes.len() > 0,
        0 <= p,
        4 * p + 3 < start.len(),
        3 * p + 2 < writes.last().len(),
    ensures
        pixel_from(replay(start, writes), p, writes.last()),
{
    lemma_replay_len(start, writes.drop_last());
    assert((4 * p) / 4 == p && (4 * p) % 4 == 0);
    assert((4 * p + 1) / 4 == p && (4 * p + 1) % 4 == 1);
    assert((4 * p + 2) / 4 == p && (4 * p + 2) % 4 == 2);
}

/// Every frame that whole writes can make has the length its dimensions give.
pub proof fn lemma_published_len(width: nat, height: nat, bytes: Seq<u8>)
    requires
        is_published_frame(width, height, bytes),
    ensures
        bytes.len() == width * height * 4,
{
    let writes = choose|writes: Seq<Seq<u8>>|
        bytes == #[trigger] replay(blank_frame(frame_len(width, height)), writes);
    lemma_replay_len(blank_frame(frame_len(width, height)), writes);
}

/// In every frame that whole writes can make, each padding byte is still zero.
pub proof fn lemma_published_padding_zero(width: nat, height: nat, bytes: Seq<u8>, p: int)
    requires
        is_published_frame(width, height, bytes),
        0 <= p < width * height,
    ensures
        bytes[4 * p + 3] == 0,
{
    let start = blank_frame(frame_len(width, height));
    let writes = choose|writes: Seq<Seq<u8>>| bytes == #[trigger] replay(start, writes);
    assert(width * height * 4 == (width * height) * 4);
    lemma_replay_keeps_padding(start, writes, p);
}

} // verus!
