use audio_guide::audio::{compact_buffer, decode_window, fill_buffer, AudioDecoder, AudioPacket, DecoderAction, READ_BUF};
use audio_guide::packet::PACKET_SAMPLES;
use audio_guide::reader::SliceReader;
use audio_guide::mp3::DecodedFrame;
use audio_guide::samples::{dac_sample, first_channel, volume_level, watch_level};

fn leak(v: Vec<u8>) -> &'static [u8] {
    Box::leak(v.into_boxed_slice())
}

#[test]
fn reader_hands_out_the_data_in_order() {
    let mut r = SliceReader::new(b"hello world");
    let mut out = [0u8; 4];
    assert_eq!(r.read(&mut out), Some(4));
    assert_eq!(&out, b"hell");
    assert_eq!(r.read(&mut out), Some(4));
    assert_eq!(&out, b"o wo");
    assert_eq!(r.read(&mut out), Some(3));
    assert_eq!(&out, b"rldo");
    assert!(r.is_exhausted());
    out = [9; 4];
    assert_eq!(r.read(&mut out), None);
    assert_eq!(out, [9; 4]);
}

#[test]
fn unscaled_samples_map_onto_the_dac_range() {
    assert_eq!(dac_sample(0, None), 128);
    assert_eq!(dac_sample(-1, None), 128);
    assert_eq!(dac_sample(-256, None), 127);
    assert_eq!(dac_sample(255, None), 128);
    assert_eq!(dac_sample(256, None), 129);
    assert_eq!(dac_sample(i16::MIN, None), 0);
    assert_eq!(dac_sample(i16::MAX, None), 255);
}

#[test]
fn a_level_scales_against_half_the_full_scale() {
    assert_eq!(dac_sample(1000, Some(32767)), 131);
    assert_eq!(dac_sample(1000, Some(0)), 128);
    assert_eq!(dac_sample(-2560, Some(16383)), 124);
    assert_eq!(dac_sample(i16::MAX, Some(65535)), (((32767i32 * 2) / 256 + 128) as u8));
}

#[test]
fn volume_level_keeps_the_raw_level() {
    assert_eq!(volume_level(Some(4095)), Some(4095));
    assert_eq!(volume_level(Some(0)), Some(0));
    assert_eq!(volume_level(None), None);
}

#[test]
fn first_channel_takes_every_other_stereo_sample() {
    let samples = vec![0i16, 9999, 512, -9999, -512, 1];
    assert_eq!(first_channel(&samples, 2, 3, None), vec![128, 130, 126]);
    assert_eq!(first_channel(&samples, 1, 6, None), vec![128, 167, 130, 89, 126, 128]);
}

#[test]
fn packets_fill_up_to_their_capacity() {
    let mut p = AudioPacket::new();
    assert_eq!(p.len(), 0);
    assert_eq!(p.sample_rate, 0);
    let values: Vec<u8> = (0..PACKET_SAMPLES + 10).map(|i| (i % 251) as u8).collect();
    let next = p.fill_from(&values, 5);
    assert_eq!(next, 5 + PACKET_SAMPLES);
    assert!(p.is_full());
    assert_eq!(p.as_slice()[0], 5);
    assert_eq!(p.as_slice()[PACKET_SAMPLES - 1], ((PACKET_SAMPLES + 4) % 251) as u8);
    p.sample_rate = 22050;
    p.clear();
    assert_eq!(p.len(), 0);
    assert_eq!(p.sample_rate, 22050);
    assert_eq!(p.fill_from(&values, next), values.len());
    assert_eq!(p.len(), 5);
    assert!(!p.is_full());
}

#[test]
fn compaction_moves_the_unconsumed_bytes_forward() {
    let mut buf = vec![1u8, 2, 3, 4, 5, 6];
    compact_buffer(&mut buf, 4);
    assert_eq!(buf, vec![5, 6, 3, 4, 5, 6]);
    let mut same = vec![1u8, 2, 3];
    compact_buffer(&mut same, 0);
    assert_eq!(same, vec![1, 2, 3]);
}

#[test]
fn fill_buffer_reads_behind_the_start() {
    let mut buf = vec![0u8; 6];
    let mut r = SliceReader::new(b"abcdefgh");
    assert_eq!(fill_buffer(&mut buf, 2, &mut r), Some(4));
    assert_eq!(buf, b"\0\0abcd".to_vec());
    assert_eq!(fill_buffer(&mut buf, 4, &mut r), Some(2));
    assert_eq!(buf, b"\0\0abef".to_vec());
    assert_eq!(fill_buffer(&mut buf, 0, &mut r), Some(2));
    assert_eq!(buf, b"ghabef".to_vec());
    assert_eq!(fill_buffer(&mut buf, 0, &mut r), None);
}

/// Silent MPEG-1 layer III frames at 128 kb/s, 44.1 kHz, joint stereo.
fn silent_mp3(frames: usize) -> &'static [u8] {
    let mut data = Vec::new();
    for _ in 0..frames {
        data.extend_from_slice(&[0xFF, 0xFB, 0x90, 0x64]);
        data.extend(std::iter::repeat(0u8).take(417 - 4));
    }
    leak(data)
}

fn run(decoder: &mut AudioDecoder, reader: &mut SliceReader, packet: &mut AudioPacket, sent: &mut Vec<Vec<u8>>) -> usize {
    let mut steps = 0;
    loop {
        steps += 1;
        match decoder.step(packet, reader, None, false) {
            DecoderAction::Continue => {}
            DecoderAction::SendPacket => {
                sent.push(packet.as_slice().to_vec());
                packet.clear();
            }
            DecoderAction::Finish => {
                sent.push(packet.as_slice().to_vec());
                return steps;
            }
        }
        assert!(steps < 100_000);
    }
}

#[test]
fn decoding_silence_gives_mid_scale_samples() {
    let mut decoder = AudioDecoder::new();
    let mut reader = SliceReader::new(silent_mp3(12));
    let mut packet = AudioPacket::new();
    let mut sent = Vec::new();
    run(&mut decoder, &mut reader, &mut packet, &mut sent);
    let all: Vec<u8> = sent.concat();
    assert!(!all.is_empty());
    assert_eq!(all.len() % 1152, 0);
    assert!(all.iter().all(|&v| v == 128));
    assert_eq!(packet.sample_rate, 44100);
    for p in &sent[..sent.len() - 1] {
        assert_eq!(p.len(), PACKET_SAMPLES);
    }
}

#[test]
fn an_empty_recording_finishes_at_once() {
    let mut decoder = AudioDecoder::new();
    let mut reader = SliceReader::new(b"");
    let mut packet = AudioPacket::new();
    assert_eq!(decoder.step(&mut packet, &mut reader, None, false), DecoderAction::Finish);
    assert_eq!(decoder.step(&mut packet, &mut reader, None, false), DecoderAction::Finish);
    assert_eq!(packet.len(), 0);
}

#[test]
fn an_interrupt_stops_decoding_after_the_frame() {
    let mut decoder = AudioDecoder::new();
    let mut reader = SliceReader::new(silent_mp3(40));
    let mut packet = AudioPacket::new();
    let mut steps = 0;
    loop {
        steps += 1;
        match decoder.step(&mut packet, &mut reader, Some(4095), steps > 3) {
            DecoderAction::Finish => break,
            DecoderAction::SendPacket => packet.clear(),
            DecoderAction::Continue => {}
        }
        assert!(steps < 1000);
    }
    assert!(steps <= 8);
    assert!(!reader.is_exhausted());
}

#[test]
fn garbage_is_consumed_without_samples() {
    let mut decoder = AudioDecoder::new();
    let mut reader = SliceReader::new(leak(vec![0x55u8; 3 * READ_BUF]));
    let mut packet = AudioPacket::new();
    let mut sent = Vec::new();
    run(&mut decoder, &mut reader, &mut packet, &mut sent);
    assert!(sent.concat().is_empty());
    assert!(reader.is_exhausted());
}

#[test]
fn watch_level_shares_only_changes() {
    assert_eq!(watch_level(10, 10), (10, None));
    assert_eq!(watch_level(10, 11), (11, Some(11)));
}

#[test]
fn the_decode_window_covers_unconsumed_and_read_bytes() {
    let buf: Vec<u8> = (0..READ_BUF).map(|i| (i % 256) as u8).collect();
    assert_eq!(decode_window(&buf, 500, 3).len(), 15);
    assert_eq!(decode_window(&buf, 500, 3)[14], 14);
    assert_eq!(decode_window(&buf, 0, 0).len(), READ_BUF);
    assert_eq!(decode_window(&buf, 100, 200).len(), READ_BUF);
}

#[test]
fn take_in_turns_an_audio_frame_into_pending_values() {
    let mut decoder = AudioDecoder::new();
    let mut packet = AudioPacket::new();
    let frame = DecodedFrame::Audio {
        channels: 2,
        sample_rate: 22050,
        sample_count: 2,
        samples: vec![512, 7, -512, 7],
    };
    decoder.take_in(&mut packet, Some((frame, 300)), None);
    assert_eq!(packet.sample_rate, 22050);
    assert_eq!(packet.len(), 0);
    assert_eq!(decoder.step(&mut packet, &mut SliceReader::new(b""), None, false), DecoderAction::Continue);
    assert_eq!(packet.as_slice(), &[130, 126]);
    decoder.take_in(&mut packet, Some((DecodedFrame::Other, 20)), None);
    assert_eq!(decoder.step(&mut packet, &mut SliceReader::new(b""), None, true), DecoderAction::Finish);
}

#[test]
fn at_level_zero_everything_is_silence() {
    let mut decoder = AudioDecoder::new();
    let mut reader = SliceReader::new(silent_mp3(6));
    let mut packet = AudioPacket::new();
    loop {
        match decoder.step(&mut packet, &mut reader, Some(0), false) {
            DecoderAction::Finish => break,
            DecoderAction::SendPacket => {
                assert!(packet.as_slice().iter().all(|&v| v == 128));
                packet.clear();
            }
            DecoderAction::Continue => {}
        }
    }
    assert!(packet.len() > 0);
    assert!(packet.as_slice().iter().all(|&v| v == 128));
}

#[test]
fn an_interrupt_from_the_start_sends_at_most_one_frame() {
    let mut decoder = AudioDecoder::new();
    let mut reader = SliceReader::new(silent_mp3(20));
    let mut packet = AudioPacket::new();
    let mut steps = 0;
    while decoder.step(&mut packet, &mut reader, None, true) != DecoderAction::Finish {
        steps += 1;
    }
    assert!(steps <= 2);
    assert!(packet.len() <= 1152);
}
