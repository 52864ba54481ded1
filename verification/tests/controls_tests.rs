use audio_guide::buttons::{probe_mode, ButtonScan, ProbeAction, ScanAction};
use audio_guide::config::Mode;
use audio_guide::leds::{black, indicator_color, red, LedBank};

fn scan(first: &[bool], second: &[bool]) -> Option<usize> {
    let (mut s, mut a) = ButtonScan::start(first.len());
    loop {
        match a {
            ScanAction::Read(i) => (s, a) = s.next(first[i]),
            ScanAction::Confirm(i) => (s, a) = s.next(second[i]),
            ScanAction::Pressed(i) => return Some(i),
            ScanAction::NonePressed => return None,
        }
    }
}

#[test]
fn the_first_button_pressed_twice_is_reported() {
    assert_eq!(scan(&[false, true, true], &[false, true, true]), Some(1));
    assert_eq!(scan(&[true, false, true], &[false, false, true]), Some(2));
    assert_eq!(scan(&[true, true], &[false, false]), None);
    assert_eq!(scan(&[], &[]), None);
}

#[test]
fn a_scan_asks_for_a_confirming_reading() {
    let (s, a) = ButtonScan::start(2);
    assert_eq!(a, ScanAction::Read(0));
    let (s, a) = s.next(true);
    assert_eq!(a, ScanAction::Confirm(0));
    let (s, a) = s.next(false);
    assert_eq!(a, ScanAction::Read(1));
    let (_, a) = s.next(false);
    assert_eq!(a, ScanAction::NonePressed);
}

#[test]
fn the_mode_switch_is_debounced() {
    assert_eq!(probe_mode(&vec![true]), ProbeAction::ReadAgain);
    assert_eq!(probe_mode(&vec![true, true]), ProbeAction::Decided(Mode::Interactive));
    assert_eq!(probe_mode(&vec![false, false]), ProbeAction::Decided(Mode::Qna));
    assert_eq!(probe_mode(&vec![false, true]), ProbeAction::ReadAgain);
    assert_eq!(probe_mode(&vec![false, true, true]), ProbeAction::Decided(Mode::Interactive));
    assert_eq!(probe_mode(&vec![true, false, false]), ProbeAction::Decided(Mode::Qna));
}

#[test]
fn leds_are_lit_unless_black() {
    let mut bank = LedBank::new(3);
    assert_eq!(bank.len(), 3);
    assert_eq!(bank.write(red(), 1), vec![false, true, false]);
    assert_eq!(bank.write(red(), 0), vec![true, true, false]);
    assert_eq!(bank.write(black(), 1), vec![true, false, false]);
}

#[test]
fn the_indicator_is_red_while_a_button_is_held() {
    assert_eq!(indicator_color(Some(0)), red());
    assert_eq!(indicator_color(None), black());
    assert_eq!(red().r, 255);
    assert_eq!(black().r, 0);
}
