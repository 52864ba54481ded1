use audio_guide::playback::{Player, PlayerAction};

#[test]
fn a_sample_is_written_once_a_period_has_passed() {
    let samples = [10u8, 11, 12, 13, 14, 15];
    // 1 MHz ticks at 100 kHz: 10 ticks per sample.
    let mut p = Player::new(samples.len(), 100_000, 1_000_000, 1000);
    assert_eq!(p.tick(&samples, 1009), PlayerAction::Wait);
    assert_eq!(p.tick(&samples, 1010), PlayerAction::Write(10));
    assert_eq!(p.tick(&samples, 1013), PlayerAction::Wait);
    assert_eq!(p.tick(&samples, 1021), PlayerAction::Write(11));
    // 29 ticks late: two periods, so two samples are passed.
    assert_eq!(p.tick(&samples, 1049), PlayerAction::Write(12));
    assert_eq!(p.tick(&samples, 1050), PlayerAction::Write(14));
    // One left after the written one and one period: the packet is done.
    assert_eq!(p.tick(&samples, 1060), PlayerAction::NeedPacket);
}

#[test]
fn an_empty_packet_ends_playback() {
    let samples = [1u8];
    let mut p = Player::new(1, 8000, 1_000_000, 0);
    assert_eq!(p.tick(&samples, 125), PlayerAction::Write(1));
    assert_eq!(p.tick(&samples, 126), PlayerAction::NeedPacket);
    assert!(p.load(3, 8000, 1_000_000));
    let next = [7u8, 8, 9];
    assert_eq!(p.tick(&next, 200), PlayerAction::Wait);
    assert_eq!(p.tick(&next, 250), PlayerAction::Write(7));
    assert!(!p.load(0, 8000, 1_000_000));
    assert_eq!(p.tick(&[], 400), PlayerAction::NeedPacket);
}
