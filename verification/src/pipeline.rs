//! Bookkeeping of the sample buffers that the playback pipelines fill from a
//! decoder: frame counts and how far a skip advances in the buffer at hand.
//! The samples themselves, and the decoder that refills the buffer, stay
//! with the caller.

use vstd::prelude::*;

verus! {

/// Frames in a buffer of interleaved samples; `None` for an empty buffer.
pub open spec fn frames_in(buffered: usize, channels: u16) -> Option<usize> {
    if buffered == 0 {
        None
    } else {
        Some((buffered / (channels as usize)) as usize)
    }
}

/// The frame length a source reports for its current buffer.
pub fn current_frame_len(buffered: usize, channels: u16) -> (r: Option<usize>)
    requires
        buffered > 0 ==> channels > 0,
    ensures
        r == frames_in(buffered, channels),
{
    if buffered == 0 {
        None
    } else {
        Some(buffered / (channels as usize))
    }
}

/// Frames one skip step passes over: the frames still to skip, but no more
/// than the whole frames left in the buffer.
pub open spec fn skip_frames(
    count: u64,
    skipped: u64,
    buffered: usize,
    pos: usize,
    channels: usize,
) -> int {
    let want = count - skipped;
    let avail = (buffered - pos) / (channels as int);
    if want < avail {
        want
    } else {
        avail
    }
}

/// One step of skipping `count` frames of interleaved samples: from buffer
/// position `pos` (in samples) in a buffer of `buffered` samples, with
/// `skipped` frames skipped so far. Returns the new buffer position and the
/// new number of skipped frames. Whole frames only are passed over, so the
/// step either counts at least one frame or stops short of a whole frame
/// before the end of the buffer (the caller then refills it).
pub fn skip_step(count: u64, skipped: u64, buffered: usize, pos: usize, channels: usize) -> (r: (
    usize,
    u64,
))
    requires
        skipped < count,
        pos <= buffered,
        channels > 0,
    ensures
        r.0 == pos + skip_frames(count, skipped, buffered, pos, channels) * channels,
        r.1 == skipped + skip_frames(count, skipped, buffered, pos, channels),
        pos <= r.0 <= buffered,
        skipped <= r.1 <= count,
        r.1 > skipped || r.0 + channels > buffered,
{
    let want: u64 = count - skipped;
    let avail: usize = (buffered - pos) / channels;
    assert(avail * channels <= buffered - pos) by (nonlinear_arith)
        requires
            avail == (buffered - pos) / (channels as int),
            channels > 0,
            pos <= buffered,
    ;
    assert(buffered - pos < (avail + 1) * channels) by (nonlinear_arith)
        requires
            avail == (buffered - pos) / (channels as int),
            channels > 0,
            pos <= buffered,
    ;
    let frames: usize = if (avail as u64) < want {
        avail
    } else {
        want as usize
    };
    assert(frames * channels <= avail * channels) by (nonlinear_arith)
        requires
            frames <= avail,
            channels > 0,
    ;
    if frames == 0 {
        assert(avail == 0);
        assert((avail + 1) * channels == channels) by (nonlinear_arith)
            requires
                avail == 0,
        ;
    }
    (pos + frames * channels, skipped + frames as u64)
}

} // verus!
