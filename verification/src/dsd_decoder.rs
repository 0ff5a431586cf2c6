//! DSD (DSF/DFF) decoder. Opening always fails with
//! `UnsupportedSampleFormat`, so the decoder dispatch falls through to the
//! general decoders.

use vstd::prelude::*;

use crate::error::DecoderError;

verus! {

/// DSD decoder; it refuses every stream as an unsupported sample format.
pub struct DsdDecoder;

impl DsdDecoder {
    /// Opening a DSD file is not supported.
    pub fn open<P>(_path: P) -> (r: Result<Self, DecoderError>)
        ensures
            r matches Err(DecoderError::UnsupportedSampleFormat),
    {
        Err(DecoderError::UnsupportedSampleFormat)
    }

    /// Sample rate: none is known.
    pub fn sample_rate(&self) -> (r: u32)
        ensures
            r == 0,
    {
        0
    }

    /// Channel count: none is known.
    pub fn channels(&self) -> (c: u16)
        ensures
            c == 0,
    {
        0
    }

    /// Seeking is not supported.
    pub fn seek(&mut self, _sample: u64) -> (r: Result<(), DecoderError>)
        ensures
            r matches Err(DecoderError::SeekNotSupported),
    {
        Err(DecoderError::SeekNotSupported)
    }
}

} // verus!
