use vstd::prelude::*;
use crate::mp3::{decode_next, Decoded, DecodedFrame, MAX_FRAME_SAMPLES};
use crate::packet::{
    buffer_as_slice, buffer_clear, buffer_is_full, buffer_len, buffer_push, buffer_samples, new_buffer, PACKET_SAMPLES,
};
use crate::reader::SliceReader;
use crate::samples::{
    first_channel, scaling_fits, spec_first_channel, spec_volume_level, volume_fits,
    volume_level,
};

verus! {

/// Size of the buffer that MP3 data is read into.
pub const READ_BUF: usize = 512;

/// Packets that circulate between the decoder and the player.
pub const PACKET_QUEUE_SIZE: usize = 5;

/// A run of DAC samples with the sample rate at which they are played.
pub struct AudioPacket {
    pub samples: Box<heapless::Vec<u8, PACKET_SAMPLES>>,
    pub sample_rate: u32,
}

impl AudioPacket {
    /// The samples that the packet holds.
    pub open spec fn contents(&self) -> Seq<u8> {
        buffer_samples(*self.samples)
    }

    /// An empty packet with sample rate 0, as the packet queue starts with.
    pub fn new() -> (packet: AudioPacket)
        ensures
            packet.contents() == Seq::<u8>::empty(),
            packet.sample_rate == 0,
    {
        AudioPacket { samples: Box::new(new_buffer()), sample_rate: 0 }
    }

    /// Empties the packet; its sample rate stays.
    pub fn clear(&mut self)
        ensures
            final(self).contents() == Seq::<u8>::empty(),
            final(self).sample_rate == old(self).sample_rate,
    {
        buffer_clear(&mut self.samples);
    }

    /// Number of samples in the packet.
    pub fn len(&self) -> (len: usize)
        ensures
            len == self.contents().len(),
            len <= PACKET_SAMPLES,
    {
        buffer_len(&self.samples)
    }

    /// The samples, in order.
    pub fn as_slice(&self) -> (samples: &[u8])
        ensures
            samples@ == self.contents(),
    {
        buffer_as_slice(&self.samples)
    }

    /// Whether the packet holds `PACKET_SAMPLES` samples.
    pub fn is_full(&self) -> (full: bool)
        ensures
            full == (self.contents().len() == PACKET_SAMPLES),
    {
        buffer_is_full(&self.samples)
    }

    /// Appends `values[from..]` to the packet one by one and stops right
    /// after the packet becomes full; returns the index after the last value
    /// appended.
    pub fn fill_from(&mut self, values: &Vec<u8>, from: usize) -> (next: usize)
        requires
            from <= values@.len(),
        ensures
            final(self).sample_rate == old(self).sample_rate,
            next == from + fill_count(old(self).contents().len() as int, values@.len() - from),
            final(self).contents().len() <= PACKET_SAMPLES,
            final(self).contents() == old(self).contents() + values@.subrange(from as int, next as int),
    {
        let mut i = from;
        let _held = self.len();
        let ghost start = self.contents();
        let mut full = self.is_full();
        while i < values.len() && !full
            invariant
                from <= i <= values@.len(),
                self.sample_rate == old(self).sample_rate,
                start == old(self).contents(),
                self.contents() == start + values@.subrange(from as int, i as int),
                full == (self.contents().len() == PACKET_SAMPLES),
                self.contents().len() <= PACKET_SAMPLES,
            decreases values@.len() - i,
        {
            let ghost before = self.contents();
            let pushed = buffer_push(&mut self.samples, values[i]);
            assert(pushed is Ok);
            assert(values@.subrange(from as int, i + 1) =~= values@.subrange(from as int, i as int).push(
                values@[i as int],
            ));
            i = i + 1;
            full = self.is_full();
        }
        i
    }
}

/// How many values `fill_from` appends to a packet that holds `held`
/// samples when `available` values are offered.
pub open spec fn fill_count(held: int, available: int) -> int {
    if PACKET_SAMPLES - held < available {
        if PACKET_SAMPLES - held < 0 { 0 } else { PACKET_SAMPLES - held }
    } else {
        available
    }
}

/// What the decoder is about to do on its next step.
#[derive(Debug, PartialEq, Eq, Structural, Clone, Copy)]
pub enum DecoderPhase {
    /// Move the unconsumed bytes to the front, read more and decode a frame.
    Decode,
    /// Append the DAC values of the last audio frame to the packet.
    Push,
    /// Stop if playback was interrupted, else decode on.
    Check,
    /// The recording has ended or playback was interrupted.
    Done,
}

/// What the task that runs the decoder does after a step.
#[derive(Debug, PartialEq, Eq, Structural, Clone, Copy)]
pub enum DecoderAction {
    /// Step again.
    Continue,
    /// The packet is full: send it to the player, receive a recycled packet,
    /// clear it, and step again with it.
    SendPacket,
    /// Send the packet to the player and signal that decoding has ended.
    Finish,
}

/// The buffer after moving its bytes from `consumed` on to the front:
/// byte `i` becomes byte `consumed + i` while there is one, and the bytes
/// behind the moved ones stay as they were.
pub open spec fn compacted(buf: Seq<u8>, consumed: int) -> Seq<u8> {
    Seq::new(buf.len(), |i: int| if i < buf.len() - consumed { buf[consumed + i] } else { buf[i] })
}

/// Where newly read bytes go after compaction: right behind the
/// `READ_BUF - consumed` unconsumed bytes, but never at the very end.
pub open spec fn read_start(consumed: int) -> int {
    if READ_BUF - consumed < READ_BUF - 1 {
        READ_BUF - consumed
    } else {
        READ_BUF - 1
    }
}

/// The smaller of two integers.
pub open spec fn min(a: int, b: int) -> int {
    if a < b { a } else { b }
}

/// What the MP3 decoder can hand back for `window` bytes of input.
pub open spec fn decode_outcome_ok(outcome: Option<(DecodedFrame, usize)>, window: int) -> bool {
    match outcome {
        Some((frame, consumed)) => {
            &&& 1 <= consumed <= window
            &&& frame.well_formed()
        },
        None => true,
    }
}

/// Reads MP3 data into a buffer, decodes it frame by frame, and turns the
/// first channel of every audio frame into DAC values that it appends to
/// packets for the player.
pub struct AudioDecoder {
    buf: Vec<u8>,
    consumed: usize,
    raw: rmp3::RawDecoder,
    pending: Vec<u8>,
    next: usize,
    phase: DecoderPhase,
    decoded: Option<Decoded>,
}

impl AudioDecoder {
    /// The buffer holds `READ_BUF` bytes, at least one and at most all of
    /// them count as consumed,
    /// and no more pending values are appended than there are.
    pub closed spec fn wf(self) -> bool {
        &&& self.buf@.len() == READ_BUF
        &&& 1 <= self.consumed <= READ_BUF
        &&& self.next <= self.pending@.len()
    }

    /// The input buffer.
    pub closed spec fn buffer(self) -> Seq<u8> {
        self.buf@
    }

    /// How many bytes at the front of the buffer the last frame consumed.
    pub closed spec fn consumed(self) -> int {
        self.consumed as int
    }

    /// The DAC values of the last audio frame.
    pub closed spec fn pending(self) -> Seq<u8> {
        self.pending@
    }

    /// How many of the pending values have been appended to packets.
    pub closed spec fn next(self) -> int {
        self.next as int
    }

    /// What the next step does.
    pub closed spec fn phase(self) -> DecoderPhase {
        self.phase
    }

    /// The bytes last handed to the MP3 decoder.
    pub closed spec fn input(self) -> Seq<u8> {
        match self.decoded {
            Some(d) => d.input(),
            None => Seq::empty(),
        }
    }

    /// The MP3 decoder's answer to the bytes last handed to it.
    pub closed spec fn outcome(self) -> Option<(DecodedFrame, usize)> {
        match self.decoded {
            Some(d) => d.outcome(),
            None => None,
        }
    }

    /// A decoder with a zeroed buffer that counts as wholly consumed, so that
    /// its first step reads a full buffer.
    pub fn new() -> (decoder: AudioDecoder)
        ensures
            decoder.buffer() == Seq::new(READ_BUF as nat, |i: int| 0u8),
            decoder.consumed() == READ_BUF,
            decoder.pending() == Seq::<u8>::empty(),
            decoder.next() == 0,
            decoder.phase() == DecoderPhase::Decode,
            decoder.wf(),
    {
        let buf = vec![0u8; READ_BUF];
        assert(buf@ =~= Seq::new(READ_BUF as nat, |i: int| 0u8));
        AudioDecoder {
            buf,
            consumed: READ_BUF,
            raw: rmp3::RawDecoder::new(),
            pending: Vec::new(),
            next: 0,
            phase: DecoderPhase::Decode,
            decoded: None,
        }
    }

}

/// Moves the bytes from `consumed` on to the front of `buf`, one by one.
pub fn compact_buffer(buf: &mut Vec<u8>, consumed: usize)
    requires
        consumed <= old(buf)@.len(),
    ensures
        final(buf)@ == compacted(old(buf)@, consumed as int),
{
    let len = buf.len();
    let unconsumed = len - consumed;
    let ghost start = buf@;
    let mut i: usize = 0;
    while i < unconsumed
        invariant
            buf@.len() == len,
            start.len() == len,
            unconsumed == len - consumed,
            i <= unconsumed,
            forall|j: int| 0 <= j < i ==> buf@[j] == start[consumed + j],
            forall|j: int| i <= j < len ==> buf@[j] == start[j],
        decreases unconsumed - i,
    {
        let b = buf[consumed + i];
        buf.set(i, b);
        i = i + 1;
    }
    assert(buf@ =~= compacted(start, consumed as int));
}

/// What `fill_buffer` leaves in a buffer `buf` when it reads from
/// `remaining` at `start`: the first `min(len - start, remaining.len())`
/// remaining bytes replace the buffer's bytes from `start` on.
pub open spec fn filled(buf: Seq<u8>, start: int, remaining: Seq<u8>) -> Seq<u8> {
    let n = min(buf.len() - start, remaining.len() as int);
    buf.take(start) + remaining.take(n) + buf.skip(start + n)
}

/// Reads from `reader` into `buf[start..]`; see `SliceReader::read`.
pub fn fill_buffer(buf: &mut Vec<u8>, start: usize, reader: &mut SliceReader) -> (read: Option<usize>)
    requires
        start < old(buf)@.len(),
    ensures
        final(buf)@.len() == old(buf)@.len(),
        old(reader).remaining().len() == 0 ==> {
            &&& read is None
            &&& final(buf)@ == old(buf)@
            &&& final(reader).remaining() == old(reader).remaining()
        },
        old(reader).remaining().len() > 0 ==> {
            let n = min(old(buf)@.len() - start, old(reader).remaining().len() as int);
            &&& read == Some(n as usize)
            &&& final(buf)@ == filled(old(buf)@, start as int, old(reader).remaining())
            &&& final(reader).remaining() == old(reader).remaining().skip(n)
        },
{
    let ghost before = buf@;
    let (head, tail) = buf.as_mut_slice().split_at_mut(start);
    let read = reader.read(tail);
    proof {
        let n = min(before.len() - start, old(reader).remaining().len() as int);
        if old(reader).remaining().len() > 0 {
            assert(before.skip(start as int).skip(n) =~= before.skip(start + n));
        }
    }
    assert(buf@ =~= if old(reader).remaining().len() == 0 { before } else { filled(before, start as int, old(reader).remaining()) });
    read
}

/// How a decoder and the sample rate of its packet change when the decoder
/// takes in `outcome`, the answer of the MP3 decoder to a window of input,
/// with samples scaled by `level`: an audio frame becomes the pending DAC
/// values, sets the packet's sample rate and makes the decoder push next;
/// other data, or no frame, leaves it to check for an interruption. The
/// bytes that a frame consumed count as consumed; without a frame, the count
/// stays.
pub open spec fn takes_in(
    before: AudioDecoder,
    after: AudioDecoder,
    rate_before: u32,
    rate_after: u32,
    outcome: Option<(DecodedFrame, usize)>,
    level: Option<i32>,
) -> bool {
    match outcome {
        None => {
            &&& after.consumed() == before.consumed()
            &&& after.pending() == before.pending()
            &&& after.next() == before.next()
            &&& after.phase() == DecoderPhase::Check
            &&& rate_after == rate_before
        },
        Some((DecodedFrame::Other, c)) => {
            &&& after.consumed() == c
            &&& after.pending() == before.pending()
            &&& after.next() == before.next()
            &&& after.phase() == DecoderPhase::Check
            &&& rate_after == rate_before
        },
        Some((DecodedFrame::Audio { channels, sample_rate, sample_count, samples }, c)) => {
            &&& after.consumed() == c
            &&& after.pending() == spec_first_channel(samples@, channels as int, sample_count as int, level)
            &&& after.next() == 0
            &&& after.phase() == DecoderPhase::Push
            &&& rate_after == sample_rate
        },
    }
}

/// A level that `volume_level` accepts scales every sample within `i32`.
proof fn lemma_level_scales_any_sample(raw: Option<u32>, sample: i16)
    requires
        volume_fits(raw),
    ensures
        scaling_fits(sample, spec_volume_level(raw)),
{
    if let Some(l) = raw {
        let v = l as i32;
        assert(-32768 <= v <= 32768) by (nonlinear_arith)
            requires
                i32::MIN <= v * 65535 <= i32::MAX,
        ;
        let w = crate::samples::div_toward_zero(v * 65535, 65535);
        assert(w == v) by (nonlinear_arith)
            requires
                w == crate::samples::div_toward_zero(v * 65535, 65535),
                -32768 <= v <= 32768,
        {
            if v >= 0 {
                assert((v * 65535) / 65535 == v);
            } else {
                assert(-(v * 65535) == (-v) * 65535);
                assert((-(v * 65535)) / 65535 == -v);
            }
        }
        assert(i32::MIN <= sample * v <= i32::MAX) by (nonlinear_arith)
            requires
                -32768 <= v <= 32768,
                -32768 <= sample <= 32767,
        ;
    }
}

/// A step of the `Decode` phase: the decoder moves its unconsumed bytes to
/// the front and reads behind them. When the reader was exhausted it
/// finishes with nothing else changed. Else it decodes the bytes it holds,
/// up to the unconsumed ones plus those read, and takes in what the MP3
/// decoder found (see `takes_in`); the packet's samples stay.
pub open spec fn decodes(
    before: AudioDecoder,
    after: AudioDecoder,
    rem: Seq<u8>,
    rem_after: Seq<u8>,
    packet: AudioPacket,
    packet_after: AudioPacket,
    level: Option<u32>,
    action: DecoderAction,
) -> bool {
    let squeezed = compacted(before.buffer(), before.consumed());
    let start = read_start(before.consumed());
    let n = min(READ_BUF - start, rem.len() as int);
    let window = min(READ_BUF - before.consumed() + n, READ_BUF as int);
    &&& packet_after.contents() == packet.contents()
    &&& rem.len() == 0 ==> {
        &&& action == DecoderAction::Finish
        &&& after.phase() == DecoderPhase::Done
        &&& after.buffer() == squeezed
        &&& after.consumed() == before.consumed()
        &&& after.pending() == before.pending()
        &&& after.next() == before.next()
        &&& after.input() == before.input()
        &&& after.outcome() == before.outcome()
        &&& rem_after == rem
        &&& packet_after.sample_rate == packet.sample_rate
    }
    &&& rem.len() > 0 ==> {
        &&& action == DecoderAction::Continue
        &&& after.buffer() == filled(squeezed, start, rem)
        &&& after.input() == filled(squeezed, start, rem).take(window)
        &&& rem_after == rem.skip(n)
        &&& decode_outcome_ok(after.outcome(), window)
        &&& takes_in(
            before,
            after,
            packet.sample_rate,
            packet_after.sample_rate,
            after.outcome(),
            spec_volume_level(level),
        )
    }
}

/// The bytes that the decoder hands the MP3 decoder: those at the front of
/// `buf`, as many as were unconsumed plus the `read` bytes just read, but no
/// more than the buffer holds.
pub fn decode_window(buf: &Vec<u8>, consumed: usize, read: usize) -> (data: &[u8])
    requires
        buf@.len() == READ_BUF,
        consumed <= READ_BUF,
    ensures
        data@ == buf@.take(min(READ_BUF - consumed + read, READ_BUF as int)),
{
    let unconsumed = READ_BUF - consumed;
    let window = if read < READ_BUF - unconsumed {
        unconsumed + read
    } else {
        READ_BUF
    };
    let (data, _rest) = buf.as_slice().split_at(window);
    data
}

/// One step of the decoder, from `before` to `after`, with the reader's
/// remaining bytes going from `rem` to `rem_after` and the packet from
/// `packet` to `packet_after`, as the phase says:
/// - `Decode`: see `decodes`.
/// - `Push`: append pending values to the packet until it is full or the
///   frame is used up; ask for the packet to be sent when it is full, else
///   check for an interruption next.
/// - `Check`: finish when `interrupted`, else decode on.
/// - `Done`: finish again.
/// Check and Done change nothing but the phase. The decoder is well formed
/// before and after, and the packet never holds more than `PACKET_SAMPLES`.
pub open spec fn steps(
    before: AudioDecoder,
    after: AudioDecoder,
    rem: Seq<u8>,
    rem_after: Seq<u8>,
    packet: AudioPacket,
    packet_after: AudioPacket,
    level: Option<u32>,
    interrupted: bool,
    action: DecoderAction,
) -> bool {
    &&& before.wf()
    &&& after.wf()
    &&& packet_after.contents().len() <= PACKET_SAMPLES
    &&& (before.phase() != DecoderPhase::Decode ==> after.input() == before.input() && after.outcome()
        == before.outcome())
    &&& (before.phase() == DecoderPhase::Decode ==> decodes(
        before,
        after,
        rem,
        rem_after,
        packet,
        packet_after,
        level,
        action,
    ))
    &&& (before.phase() == DecoderPhase::Push ==> {
        let m = fill_count(
            packet.contents().len() as int,
            before.pending().len() - before.next(),
        );
        &&& packet_after.contents() == packet.contents() + before.pending().subrange(
            before.next(),
            before.next() + m,
        )
        &&& after.next() == before.next() + m
        &&& packet_after.sample_rate == packet.sample_rate
        &&& after.buffer() == before.buffer()
        &&& after.consumed() == before.consumed()
        &&& after.pending() == before.pending()
        &&& rem_after == rem
        &&& packet_after.contents().len() == PACKET_SAMPLES ==> {
            &&& action == DecoderAction::SendPacket
            &&& after.phase() == DecoderPhase::Push
        }
        &&& packet_after.contents().len() != PACKET_SAMPLES ==> {
            &&& action == DecoderAction::Continue
            &&& after.phase() == DecoderPhase::Check
        }
    })
    &&& (before.phase() == DecoderPhase::Check || before.phase() == DecoderPhase::Done ==> {
        &&& packet_after == packet
        &&& rem_after == rem
        &&& after.buffer() == before.buffer()
        &&& after.consumed() == before.consumed()
        &&& after.pending() == before.pending()
        &&& after.next() == before.next()
    })
    &&& (before.phase() == DecoderPhase::Check ==> {
        &&& interrupted ==> action == DecoderAction::Finish && after.phase()
            == DecoderPhase::Done
        &&& !interrupted ==> action == DecoderAction::Continue && after.phase()
            == DecoderPhase::Decode
    })
    &&& (before.phase() == DecoderPhase::Done ==> {
        &&& action == DecoderAction::Finish
        &&& after.phase() == DecoderPhase::Done
    })
}

impl AudioDecoder {
    /// One step of decoding, as the phase says:
    /// - `Decode`: move the unconsumed bytes to the front, read behind them;
    ///   when the reader is exhausted, finish; else decode the bytes held and
    ///   take in what the MP3 decoder found (see `takes_in`).
    /// - `Push`: append pending values to the packet until it is full or the
    ///   frame is used up; ask for the packet to be sent when it is full.
    /// - `Check`: finish when `interrupted`, else decode on.
    /// - `Done`: finish again; nothing changes.
    pub fn step(
        &mut self,
        packet: &mut AudioPacket,
        reader: &mut SliceReader,
        level: Option<u32>,
        interrupted: bool,
    ) -> (action: DecoderAction)
        requires
            old(self).wf(),
            volume_fits(level),
        ensures
            final(self).wf(),
            steps(
                *old(self),
                *final(self),
                old(reader).remaining(),
                final(reader).remaining(),
                *old(packet),
                *final(packet),
                level,
                interrupted,
                action,
            ),
    {
        // A packet never holds more than its capacity.
        let _held = packet.len();
        match self.phase {
            DecoderPhase::Decode => self.decode(packet, reader, level),
            DecoderPhase::Push => {
                let next = packet.fill_from(&self.pending, self.next);
                self.next = next;
                if packet.is_full() {
                    DecoderAction::SendPacket
                } else {
                    self.phase = DecoderPhase::Check;
                    DecoderAction::Continue
                }
            },
            DecoderPhase::Check => {
                if interrupted {
                    self.phase = DecoderPhase::Done;
                    DecoderAction::Finish
                } else {
                    self.phase = DecoderPhase::Decode;
                    DecoderAction::Continue
                }
            },
            DecoderPhase::Done => DecoderAction::Finish,
        }
    }

    /// Takes in `outcome`, what the MP3 decoder found in the bytes held, with
    /// samples scaled by the level that `level` gives; see `takes_in`. The
    /// packet's samples stay.
    pub fn take_in(&mut self, packet: &mut AudioPacket, outcome: Option<(DecodedFrame, usize)>, level: Option<u32>)
        requires
            old(self).wf(),
            decode_outcome_ok(outcome, READ_BUF as int),
            volume_fits(level),
        ensures
            final(self).wf(),
            final(self).buffer() == old(self).buffer(),
            final(self).input() == old(self).input(),
            final(self).outcome() == old(self).outcome(),
            takes_in(
                *old(self),
                *final(self),
                old(packet).sample_rate,
                final(packet).sample_rate,
                outcome,
                spec_volume_level(level),
            ),
            final(packet).contents() == old(packet).contents(),
    {
        self.take_in_ref(packet, &outcome, level);
    }

    fn take_in_ref(&mut self, packet: &mut AudioPacket, outcome: &Option<(DecodedFrame, usize)>, level: Option<u32>)
        requires
            old(self).wf(),
            decode_outcome_ok(*outcome, READ_BUF as int),
            volume_fits(level),
        ensures
            final(self).wf(),
            final(self).buffer() == old(self).buffer(),
            final(self).decoded == old(self).decoded,
            takes_in(
                *old(self),
                *final(self),
                old(packet).sample_rate,
                final(packet).sample_rate,
                *outcome,
                spec_volume_level(level),
            ),
            final(packet).contents() == old(packet).contents(),
    {
        let scale = volume_level(level);
        match outcome {
            None => {
                self.phase = DecoderPhase::Check;
            },
            Some((DecodedFrame::Other, c)) => {
                self.consumed = *c;
                self.phase = DecoderPhase::Check;
            },
            Some((DecodedFrame::Audio { channels, sample_rate, sample_count, samples }, c)) => {
                proof {
                    assert forall|i: int| 0 <= i < *sample_count implies #[trigger] scaling_fits(
                        samples@[i * *channels],
                        scale,
                    ) by {
                        lemma_level_scales_any_sample(level, samples@[i * *channels]);
                    }
                }
                self.pending = first_channel(samples, *channels, *sample_count, scale);
                self.next = 0;
                self.consumed = *c;
                packet.sample_rate = *sample_rate;
                self.phase = DecoderPhase::Push;
            },
        }
    }

    fn decode(&mut self, packet: &mut AudioPacket, reader: &mut SliceReader, level: Option<u32>) -> (action:
        DecoderAction)
        requires
            old(self).wf(),
            old(self).phase() == DecoderPhase::Decode,
            volume_fits(level),
        ensures
            final(self).wf(),
            decodes(
                *old(self),
                *final(self),
                old(reader).remaining(),
                final(reader).remaining(),
                *old(packet),
                *final(packet),
                level,
                action,
            ),
    {
        let consumed = self.consumed;
        compact_buffer(&mut self.buf, consumed);
        let unconsumed = READ_BUF - consumed;
        let start = if unconsumed < READ_BUF - 1 {
            unconsumed
        } else {
            READ_BUF - 1
        };
        let read = fill_buffer(&mut self.buf, start, reader);
        match read {
            None => {
                self.phase = DecoderPhase::Done;
                DecoderAction::Finish
            },
            Some(len) => {
                let window = if unconsumed + len < READ_BUF {
                    unconsumed + len
                } else {
                    READ_BUF
                };
                let data = decode_window(&self.buf, consumed, len);
                let decoded = decode_next(&mut self.raw, data);
                self.take_in_ref(packet, decoded.outcome_ref(), level);
                self.decoded = Some(decoded);
                proof {
                    let rem = old(reader).remaining();
                    let st = read_start(old(self).consumed());
                    let n = min(READ_BUF - st, rem.len() as int);
                    let w = min(READ_BUF - old(self).consumed() + n, READ_BUF as int);
                    assert(st == start);
                    assert(n == len);
                    assert(w == window);
                }
                DecoderAction::Continue
            },
        }
    }
}

/// Appending to a packet stops before the offered values run out only when
/// the packet is full, and never appends more than is offered.
pub proof fn lemma_fill_stops_only_when_full(held: int, available: int)
    requires
        0 <= held <= PACKET_SAMPLES,
        0 <= available,
    ensures
        0 <= fill_count(held, available) <= available,
        fill_count(held, available) == available || held + fill_count(held, available) == PACKET_SAMPLES,
{
}

/// The reader is always handed a buffer of 1 to `READ_BUF` bytes: the part
/// of the input buffer from `read_start` on.
pub proof fn lemma_read_buffer_nonempty(consumed: int)
    requires
        0 <= consumed <= READ_BUF,
    ensures
        1 <= READ_BUF - read_start(consumed) <= READ_BUF,
{
}

/// The decoder finishes only when the reader has run out, when playback was
/// interrupted, or when it had already finished; once finished it stays so.
/// It asks for a packet to be sent only when the packet is full, so every
/// packet sent before the last is full.
pub proof fn lemma_when_the_decoder_finishes(
    before: AudioDecoder,
    after: AudioDecoder,
    rem: Seq<u8>,
    rem_after: Seq<u8>,
    packet: AudioPacket,
    packet_after: AudioPacket,
    level: Option<u32>,
    interrupted: bool,
    action: DecoderAction,
)
    requires
        steps(before, after, rem, rem_after, packet, packet_after, level, interrupted, action),
    ensures
        action == DecoderAction::Finish ==> {
            ||| before.phase() == DecoderPhase::Decode && rem.len() == 0
            ||| before.phase() == DecoderPhase::Check && interrupted
            ||| before.phase() == DecoderPhase::Done
        },
        action == DecoderAction::Finish <==> after.phase() == DecoderPhase::Done,
        action == DecoderAction::SendPacket ==> packet_after.contents().len() == PACKET_SAMPLES,
{
}

/// Whether every value is the DAC's mid scale, which is silence.
pub open spec fn all_silent(values: Seq<u8>) -> bool {
    forall|i: int| 0 <= i < values.len() ==> #[trigger] values[i] == 128
}

/// At level 0 the decoder produces silence, whatever bytes it reads: when
/// the packet and the pending values are silent before a step, they are
/// after it.
pub proof fn lemma_silence_at_level_zero(
    before: AudioDecoder,
    after: AudioDecoder,
    rem: Seq<u8>,
    rem_after: Seq<u8>,
    packet: AudioPacket,
    packet_after: AudioPacket,
    interrupted: bool,
    action: DecoderAction,
)
    requires
        before.wf(),
        steps(before, after, rem, rem_after, packet, packet_after, Some(0u32), interrupted, action),
        all_silent(packet.contents()),
        all_silent(before.pending()),
    ensures
        all_silent(packet_after.contents()),
        all_silent(after.pending()),
{
    assert(spec_volume_level(Some(0u32)) == Some(0i32));
    if before.phase() == DecoderPhase::Decode && rem.len() > 0 {
        let outcome = after.outcome();
        if let Some((DecodedFrame::Audio { channels, sample_rate, sample_count, samples }, c)) = outcome {
            assert forall|i: int| 0 <= i < after.pending().len() implies #[trigger] after.pending()[i] == 128 by {
                let x = samples@[i * channels];
                assert(x * 0i32 == 0);
            }
        }
    }
    if before.phase() == DecoderPhase::Push {
        let m = fill_count(packet.contents().len() as int, before.pending().len() - before.next());
        let added = before.pending().subrange(before.next(), before.next() + m);
        assert(0 <= m <= before.pending().len() - before.next());
        assert forall|i: int| 0 <= i < packet_after.contents().len() implies #[trigger] packet_after.contents()[i]
            == 128 by {
            if i < packet.contents().len() {
                assert(packet.contents()[i] == 128);
            } else {
                assert(added[i - packet.contents().len()] == before.pending()[before.next() + i
                    - packet.contents().len()]);
            }
        }
    }
}

/// When playback is interrupted from the start, the decoder finishes
/// within three steps and the packet it finishes with holds at most one
/// frame's values.
pub proof fn lemma_interrupt_sends_at_most_one_frame(
    d0: AudioDecoder,
    d1: AudioDecoder,
    d2: AudioDecoder,
    d3: AudioDecoder,
    r0: Seq<u8>,
    r1: Seq<u8>,
    r2: Seq<u8>,
    r3: Seq<u8>,
    p0: AudioPacket,
    p1: AudioPacket,
    p2: AudioPacket,
    p3: AudioPacket,
    level: Option<u32>,
    a0: DecoderAction,
    a1: DecoderAction,
    a2: DecoderAction,
)
    requires
        d0.phase() == DecoderPhase::Decode,
        p0.contents().len() == 0,
        steps(d0, d1, r0, r1, p0, p1, level, true, a0),
        steps(d1, d2, r1, r2, p1, p2, level, true, a1),
        steps(d2, d3, r2, r3, p2, p3, level, true, a2),
    ensures
        ({
            ||| a0 == DecoderAction::Finish && p1.contents().len() == 0
            ||| a0 == DecoderAction::Continue && a1 == DecoderAction::Finish && p2.contents().len() == 0
            ||| a0 == DecoderAction::Continue && a1 == DecoderAction::Continue && a2 == DecoderAction::Finish
                && p3.contents().len() <= MAX_FRAME_SAMPLES
        }),
{
    if r0.len() > 0 {
        if d1.phase() == DecoderPhase::Push {
            assert(d1.pending().len() <= MAX_FRAME_SAMPLES);
            assert(d1.next() == 0);
            assert(p2.contents() =~= d1.pending());
        }
    }
}

/// A run of decoder steps: step `i` goes from `decoders[i]` to
/// `decoders[i + 1]`, with the reader's remaining bytes going from
/// `remaining[i]` to `remaining[i + 1]` and the packet from `packets[i]` to
/// `results[i]`, at level `level`, interrupted or not as `interrupts[i]`
/// says. Between steps the packet is kept, or, after it was sent, replaced
/// by an empty one.
pub open spec fn decoder_run(
    decoders: Seq<AudioDecoder>,
    remaining: Seq<Seq<u8>>,
    packets: Seq<AudioPacket>,
    results: Seq<AudioPacket>,
    level: Option<u32>,
    interrupts: Seq<bool>,
    actions: Seq<DecoderAction>,
) -> bool {
    &&& decoders.len() == actions.len() + 1
    &&& remaining.len() == actions.len() + 1
    &&& packets.len() == actions.len()
    &&& results.len() == actions.len()
    &&& interrupts.len() == actions.len()
    &&& forall|i: int|
        0 <= i < actions.len() ==> #[trigger] steps(
            decoders[i],
            decoders[i + 1],
            remaining[i],
            remaining[i + 1],
            packets[i],
            results[i],
            level,
            interrupts[i],
            actions[i],
        )
    &&& forall|i: int|
        0 < i < actions.len() ==> #[trigger] packets[i].contents() == results[i - 1].contents()
            || packets[i].contents().len() == 0
}

/// At level 0, a decoder that starts with no pending values (as a new one
/// does) on a silent packet (as a new or cleared one is) fills every packet
/// with silence, whatever bytes it reads: each packet after each step, and
/// so each packet sent, holds only the value 128.
pub proof fn lemma_silent_run(
    decoders: Seq<AudioDecoder>,
    remaining: Seq<Seq<u8>>,
    packets: Seq<AudioPacket>,
    results: Seq<AudioPacket>,
    interrupts: Seq<bool>,
    actions: Seq<DecoderAction>,
)
    requires
        decoder_run(decoders, remaining, packets, results, Some(0u32), interrupts, actions),
        decoders[0].pending().len() == 0,
        actions.len() > 0 ==> all_silent(packets[0].contents()),
    ensures
        forall|i: int| 0 <= i < actions.len() ==> all_silent(#[trigger] results[i].contents()),
{
    lemma_silent_prefix(decoders, remaining, packets, results, interrupts, actions, actions.len() as int);
}

proof fn lemma_silent_prefix(
    decoders: Seq<AudioDecoder>,
    remaining: Seq<Seq<u8>>,
    packets: Seq<AudioPacket>,
    results: Seq<AudioPacket>,
    interrupts: Seq<bool>,
    actions: Seq<DecoderAction>,
    k: int,
)
    requires
        decoder_run(decoders, remaining, packets, results, Some(0u32), interrupts, actions),
        decoders[0].pending().len() == 0,
        actions.len() > 0 ==> all_silent(packets[0].contents()),
        0 <= k <= actions.len(),
    ensures
        forall|i: int| 0 <= i < k ==> all_silent(#[trigger] results[i].contents()),
        all_silent(decoders[k].pending()),
    decreases k,
{
    if k > 0 {
        lemma_silent_prefix(decoders, remaining, packets, results, interrupts, actions, k - 1);
        let i = k - 1;
        assert(steps(
            decoders[i],
            decoders[i + 1],
            remaining[i],
            remaining[i + 1],
            packets[i],
            results[i],
            Some(0u32),
            interrupts[i],
            actions[i],
        ));
        if i > 0 {
            assert(packets[i].contents() == results[i - 1].contents() || packets[i].contents().len() == 0);
            assert(all_silent(results[i - 1].contents()));
        }
        assert(all_silent(packets[i].contents()));
        lemma_silence_at_level_zero(
            decoders[i],
            decoders[i + 1],
            remaining[i],
            remaining[i + 1],
            packets[i],
            results[i],
            interrupts[i],
            actions[i],
        );
    }
}

/// What a decoding step hands the MP3 decoder: the bytes left over from the
/// last frame, followed by those just read, as many as the reader had and
/// the consumed part of the buffer makes room for. What the decoder then
/// takes in is the MP3 decoder's answer to exactly these bytes.
pub proof fn lemma_decoder_sees_carried_over_and_fresh_bytes(
    before: AudioDecoder,
    after: AudioDecoder,
    rem: Seq<u8>,
    rem_after: Seq<u8>,
    packet: AudioPacket,
    packet_after: AudioPacket,
    level: Option<u32>,
    interrupted: bool,
    action: DecoderAction,
)
    requires
        steps(before, after, rem, rem_after, packet, packet_after, level, interrupted, action),
        before.phase() == DecoderPhase::Decode,
        rem.len() > 0,
    ensures
        ({
            let n = min(before.consumed(), rem.len() as int);
            &&& after.input() == before.buffer().skip(before.consumed()) + rem.take(n)
            &&& after.input().len() <= READ_BUF
            &&& rem_after == rem.skip(n)
            &&& takes_in(
                before,
                after,
                packet.sample_rate,
                packet_after.sample_rate,
                after.outcome(),
                spec_volume_level(level),
            )
        }),
{
    let c = before.consumed();
    let squeezed = compacted(before.buffer(), c);
    let start = read_start(c);
    let n = min(READ_BUF - start, rem.len() as int);
    let window = min(READ_BUF - c + n, READ_BUF as int);
    assert(start == READ_BUF - c);
    assert(window == READ_BUF - c + n);
    assert(filled(squeezed, start, rem).take(window) =~= before.buffer().skip(c) + rem.take(n));
}

} // verus!
