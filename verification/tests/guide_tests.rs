use audio_guide::config::{default_config, Mode};
use audio_guide::guide::{GuideAction, GuideController, GuideEvent, Pc, Recording};
use audio_guide::leds::{black, red};

use GuideAction as A;
use GuideEvent as E;

struct Run {
    g: GuideController,
    now: u64,
}

impl Run {
    fn new() -> (Run, GuideAction) {
        let (g, a) = GuideController::new(default_config(), 0);
        (Run { g, now: 0 }, a)
    }

    fn step(&mut self, e: GuideEvent) -> GuideAction {
        self.now += 1;
        self.g.step(e, self.now)
    }

    fn step_at(&mut self, e: GuideEvent, now: u64) -> GuideAction {
        self.now = now;
        self.g.step(e, now)
    }
}

#[test]
fn question_answered_with_its_button_gets_the_correct_answer() {
    let (mut r, a) = Run::new();
    assert_eq!(a, A::ProbeMode);
    assert_eq!(r.step(E::ModeRead(Mode::Qna)), A::Play(Recording::ModeIntro(Mode::Qna)));
    assert_eq!(r.g.recording_name(Recording::ModeIntro(Mode::Qna)), "activate_qna.mp3");
    assert_eq!(r.step(E::Done), A::ScanButtons);
    assert_eq!(r.step(E::Buttons(Some(0))), A::Tick);
    assert_eq!(r.step(E::Done), A::ScanButtons);
    assert_eq!(r.step(E::Buttons(None)), A::WaitPlaybackEnd);
    assert_eq!(r.step(E::Done), A::Play(Recording::Question(0)));
    assert_eq!(r.g.recording_name(Recording::Question(0)), "question_1.mp3");
    assert_eq!(r.step(E::Done), A::CheckPlayback);
    assert_eq!(r.step(E::Playback(false)), A::Sleep);
    assert_eq!(r.step(E::Done), A::ScanButtons);
    assert_eq!(r.step(E::Buttons(Some(0))), A::Interrupt);
    assert_eq!(r.step(E::Done), A::ScanButtons);
    assert_eq!(r.step(E::Buttons(None)), A::CheckPlayback);
    assert_eq!(r.step(E::Playback(false)), A::WaitPlaybackEnd);
    assert_eq!(r.step(E::Done), A::SetLed(red(), 0));
    assert_eq!(r.step(E::Done), A::Play(Recording::CorrectAnswer(0)));
    assert_eq!(r.g.recording_name(Recording::CorrectAnswer(0)), "correct_answer_for_1.mp3");
    assert_eq!(r.step(E::Done), A::ScanButtons);
    assert_eq!(r.step(E::Buttons(None)), A::CheckPlayback);
    assert_eq!(r.step(E::Playback(true)), A::WaitPlaybackEnd);
    assert_eq!(r.step(E::Done), A::SetLed(black(), 0));
    assert_eq!(r.step(E::Done), A::ProbeMode);
    assert_eq!(r.step(E::ModeRead(Mode::Qna)), A::Play(Recording::Question(1)));
}

#[test]
fn no_answer_within_the_timeout_gets_the_wrong_answer() {
    let (mut r, _) = Run::new();
    r.step(E::ModeRead(Mode::Qna));
    r.step(E::Done);
    r.step(E::Buttons(None));
    assert_eq!(r.step(E::Done), A::Play(Recording::Question(0)));
    r.step(E::Done);
    assert_eq!(r.step(E::Playback(true)), A::WaitPlaybackEnd);
    assert_eq!(r.step_at(E::Done, 1_000), A::ScanButtons);
    assert_eq!(r.step(E::Buttons(None)), A::Tick);
    assert_eq!(r.step_at(E::Done, 1_000 + 599_999_999), A::ScanButtons);
    assert_eq!(r.step(E::Buttons(None)), A::Tick);
    assert_eq!(r.step_at(E::Done, 1_000 + 600_000_000), A::SetLed(red(), 0));
    assert_eq!(r.step(E::Done), A::Play(Recording::WrongAnswer(0)));
    assert_eq!(r.g.recording_name(Recording::WrongAnswer(0)), "wrong_answer_1.mp3");
}

#[test]
fn a_wrong_button_gets_the_wrong_answer_and_questions_wrap_around() {
    let (mut r, _) = Run::new();
    r.step(E::ModeRead(Mode::Qna));
    r.step(E::Done);
    r.step(E::Buttons(None));
    for i in 0..4usize {
        let q = i % 3;
        if i > 0 {
            assert_eq!(r.step(E::ModeRead(Mode::Qna)), A::Play(Recording::Question(q)));
        } else {
            assert_eq!(r.step(E::Done), A::Play(Recording::Question(q)));
        }
        r.step(E::Done);
        r.step(E::Playback(true));
        assert_eq!(r.step(E::Done), A::ScanButtons);
        assert_eq!(r.step(E::Buttons(Some(q + 1))), A::SetLed(red(), q));
        assert_eq!(r.step(E::Done), A::Play(Recording::WrongAnswer(q)));
        r.step(E::Done);
        r.step(E::Buttons(None));
        r.step(E::Playback(true));
        assert_eq!(r.step(E::Done), A::SetLed(black(), q));
        assert_eq!(r.step(E::Done), A::ProbeMode);
    }
    assert_eq!(r.step(E::ModeRead(Mode::Interactive)), A::ProbeMode);
    assert_eq!(r.g.current().pc, Pc::ModeProbe);
    assert_eq!(r.step(E::ModeRead(Mode::Interactive)), A::Play(Recording::ModeIntro(Mode::Interactive)));
}

#[test]
fn an_interactive_exhibit_plays_its_recordings_in_turn() {
    let (mut r, _) = Run::new();
    r.step(E::ModeRead(Mode::Interactive));
    r.step(E::Done);
    assert_eq!(r.step(E::Buttons(None)), A::WaitPlaybackEnd);
    assert_eq!(r.step(E::Done), A::Sleep);
    assert_eq!(r.step(E::Done), A::ScanButtons);
    assert_eq!(r.step(E::Buttons(None)), A::Sleep);
    assert_eq!(r.step(E::Done), A::ScanButtons);
    assert_eq!(r.step(E::Buttons(Some(2))), A::SetLed(red(), 2));
    assert_eq!(r.step(E::Done), A::Play(Recording::Exhibit(2, 0)));
    assert_eq!(r.g.recording_name(Recording::Exhibit(2, 0)), "hindbrain_1.mp3");
    assert_eq!(r.step(E::Done), A::CheckPlayback);
    assert_eq!(r.step(E::Playback(true)), A::WaitPlaybackEnd);
    assert_eq!(r.step(E::Done), A::Play(Recording::Exhibit(2, 1)));
    assert_eq!(r.g.recording_name(Recording::Exhibit(2, 1)), "hindbrain_2.mp3");
    r.step(E::Done);
    r.step(E::Playback(true));
    assert_eq!(r.step(E::Done), A::SetLed(black(), 2));
    assert_eq!(r.step(E::Done), A::ProbeMode);
    assert_eq!(r.step(E::ModeRead(Mode::Interactive)), A::Sleep);
}

#[test]
fn pressing_the_same_button_again_only_stops_after_four_seconds() {
    let (mut r, _) = Run::new();
    r.step(E::ModeRead(Mode::Interactive));
    r.step(E::Done);
    r.step(E::Buttons(None));
    r.step(E::Done);
    r.step(E::Done);
    r.step(E::Buttons(Some(0)));
    assert_eq!(r.step_at(E::Done, 100), A::Play(Recording::Exhibit(0, 0)));
    r.step(E::Done);
    assert_eq!(r.step(E::Playback(false)), A::Sleep);
    r.step(E::Done);
    assert_eq!(r.step_at(E::Buttons(Some(0)), 4_000_100), A::CheckPlayback);
    assert_eq!(r.step(E::Playback(false)), A::Sleep);
    r.step(E::Done);
    assert_eq!(r.step_at(E::Buttons(Some(0)), 4_000_200), A::Interrupt);
    assert_eq!(r.step(E::Done), A::ScanButtons);
    assert_eq!(r.step(E::Buttons(None)), A::CheckPlayback);
    assert_eq!(r.step(E::Playback(false)), A::WaitPlaybackEnd);
    assert_eq!(r.step(E::Done), A::SetLed(black(), 0));
}

#[test]
fn another_button_stops_an_exhibit_at_once() {
    let (mut r, _) = Run::new();
    r.step(E::ModeRead(Mode::Interactive));
    r.step(E::Done);
    r.step(E::Buttons(None));
    r.step(E::Done);
    r.step(E::Done);
    r.step(E::Buttons(Some(2)));
    assert_eq!(r.step(E::Done), A::Play(Recording::Exhibit(2, 0)));
    r.step(E::Done);
    r.step(E::Playback(false));
    r.step(E::Done);
    assert_eq!(r.step(E::Buttons(Some(1))), A::Interrupt);
    r.step(E::Done);
    r.step(E::Buttons(None));
    assert_eq!(r.step(E::Playback(false)), A::WaitPlaybackEnd);
    // An interrupted exhibit does not go on to its next recording.
    assert_eq!(r.step(E::Done), A::SetLed(black(), 2));
}

#[test]
fn a_button_without_exhibit_halts_the_guide() {
    let (mut r, _) = Run::new();
    r.step(E::ModeRead(Mode::Interactive));
    r.step(E::Done);
    r.step(E::Buttons(None));
    r.step(E::Done);
    r.step(E::Done);
    assert_eq!(r.step(E::Buttons(Some(7))), A::UnknownButton(7));
    assert_eq!(r.g.current().pc, Pc::Halted);
    assert_eq!(r.step(E::Done), A::UnknownButton(7));
}
