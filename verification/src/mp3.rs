use vstd::prelude::*;

verus! {

/// The MP3 decoder state of `rmp3`; it keeps the bit reservoir that a frame
/// may borrow from the frames before it.
#[verifier::external_type_specification]
#[verifier::external_body]
pub struct ExRawDecoder(rmp3::RawDecoder);

/// Most interleaved samples that one frame can yield.
pub const MAX_SAMPLES_PER_FRAME: usize = 2304;

/// Most samples per channel that one frame can yield.
pub const MAX_FRAME_SAMPLES: usize = 1152;

/// One frame found by the MP3 decoder.
pub enum DecodedFrame {
    /// PCM audio: `samples` holds `sample_count` samples per channel,
    /// interleaved over `channels` channels.
    Audio { channels: u16, sample_rate: u32, sample_count: usize, samples: Vec<i16> },
    /// ID3 or other data that holds no audio.
    Other,
}

impl DecodedFrame {
    /// What every frame of the decoder satisfies.
    pub open spec fn well_formed(&self) -> bool {
        match self {
            DecodedFrame::Audio { channels, sample_rate, sample_count, samples } => {
                &&& (*channels == 1 || *channels == 2)
                &&& 1 <= *sample_count <= MAX_FRAME_SAMPLES
                &&& 8000 <= *sample_rate <= 48000
                &&& samples@.len() == *sample_count * *channels
                &&& samples@.len() <= MAX_SAMPLES_PER_FRAME
            },
            DecodedFrame::Other => true,
        }
    }
}

/// Calls `rmp3::RawDecoder::new`, which makes a decoder with an empty bit
/// reservoir. Nothing is claimed of the state it holds.
pub assume_specification[ rmp3::RawDecoder::new ]() -> rmp3::RawDecoder;

/// What the MP3 decoder answered for one piece of input: the bytes it was
/// handed and the frame it found in them, if any. Only `decode_next` makes
/// one, so the two always belong together.
pub struct Decoded {
    input: Vec<u8>,
    outcome: Option<(DecodedFrame, usize)>,
}

impl Decoded {
    /// The bytes that were handed to the MP3 decoder.
    pub closed spec fn input(self) -> Seq<u8> {
        self.input@
    }

    /// The frame that the MP3 decoder found in them, with the number of
    /// bytes it consumed, or `None`.
    pub closed spec fn outcome(self) -> Option<(DecodedFrame, usize)> {
        self.outcome
    }

    /// The frame found, with the number of bytes it consumed.
    pub fn outcome_ref(&self) -> (outcome: &Option<(DecodedFrame, usize)>)
        ensures
            *outcome == self.outcome(),
    {
        &self.outcome
    }
}

/// Calls `rmp3::RawDecoder::next` on `data`, decoding the next frame into a
/// scratch buffer, and returns the frame with its samples copied out,
/// together with a copy of `data`. The contract claims what the `rmp3` and
/// minimp3 sources show of every outcome: a frame consumes at least one byte
/// and never more than `data.len()`; an audio frame has one or two channels,
/// a sample rate from 8000 to 48000 Hz, and from 1 to `MAX_FRAME_SAMPLES`
/// samples per channel, interleaved. Which frame comes out depends on the
/// data and on the reservoir that earlier calls left in the decoder, so
/// nothing more is claimed of it.
#[verifier::external_body]
pub fn decode_next(decoder: &mut rmp3::RawDecoder, data: &[u8]) -> (result: Decoded)
    ensures
        result.input() == data@,
        match result.outcome() {
            Some((frame, consumed)) => {
                &&& 1 <= consumed <= data@.len()
                &&& frame.well_formed()
            },
            None => true,
        },
{
    let mut pcm = [0i16; rmp3::MAX_SAMPLES_PER_FRAME];
    let outcome = match decoder.next(data, &mut pcm) {
        Some((rmp3::Frame::Audio(a), n)) => Some((DecodedFrame::Audio {
            channels: a.channels(),
            sample_rate: a.sample_rate(),
            sample_count: a.sample_count(),
            samples: a.samples().to_vec(),
        }, n)),
        Some((rmp3::Frame::Other(_), n)) => Some((DecodedFrame::Other, n)),
        None => None,
    };
    Decoded { input: data.to_vec(), outcome }
}

} // verus!
