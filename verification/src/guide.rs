use vstd::prelude::*;
use crate::config::{Config, ConfigView, InteractiveEntry, InteractiveEntryView, Mode, mode_recording, spec_mode_recording};
use crate::leds::{Rgb, black, red, spec_black, spec_red};
use vstd::string::*;

verus! {

/// Microseconds within which pressing the button of the playing interactive
/// exhibit again does not stop it.
pub const REPRESS_GUARD_US: u64 = 4_000_000;

/// Microseconds that the guide waits for an answer after a question.
pub const ANSWER_TIMEOUT_US: u64 = 600_000_000;

/// A recording that the guide asks to be played.
#[derive(Debug, PartialEq, Eq, Structural, Clone, Copy)]
pub enum Recording {
    /// The announcement of a mode.
    ModeIntro(Mode),
    /// The question of a question-and-answer exhibit.
    Question(usize),
    /// The answer for a right button.
    CorrectAnswer(usize),
    /// The answer for a wrong button, or for none.
    WrongAnswer(usize),
    /// Recording `part` of an interactive exhibit.
    Exhibit(usize, usize),
}

/// What the task that runs the guide does next, and what it answers with.
#[derive(Debug, PartialEq, Eq, Structural, Clone, Copy)]
pub enum GuideAction {
    /// Read the mode switch; answer `ModeRead`.
    ProbeMode,
    /// Start playing a recording, with a fresh end signal and a fresh
    /// interrupt signal; answer `Done`.
    Play(Recording),
    /// Scan the buttons; answer `Buttons`.
    ScanButtons,
    /// Wait 50 ms; answer `Done`.
    Sleep,
    /// Wait for the next tick of a 50 µs ticker; answer `Done`.
    Tick,
    /// Look whether the playing recording has ended; answer `Playback`.
    CheckPlayback,
    /// Signal the playing recording to stop; answer `Done`.
    Interrupt,
    /// Wait until the playing recording has ended; answer `Done`.
    WaitPlaybackEnd,
    /// Write a color to an LED; answer `Done`.
    SetLed(Rgb, usize),
    /// A button was pressed that no interactive exhibit has: the guide
    /// cannot go on.
    UnknownButton(usize),
}

/// What the task that runs the guide reports back.
#[derive(Debug, PartialEq, Eq, Structural, Clone, Copy)]
pub enum GuideEvent {
    /// The action is done.
    Done,
    /// The mode switch selects this mode.
    ModeRead(Mode),
    /// The button that a scan found pressed, if any.
    Buttons(Option<usize>),
    /// Whether the playing recording has ended.
    Playback(bool),
}

/// The point the guide has reached, named by what it waits for.
#[derive(Debug, PartialEq, Eq, Structural, Clone, Copy)]
pub enum Pc {
    /// Reading the mode switch before announcing the mode.
    ModeProbe,
    /// Starting the mode announcement.
    IntroPlay,
    /// Waiting, tick by tick, for all buttons to be released.
    IntroRelease,
    IntroReleaseTick,
    /// Waiting for the announcement to end.
    IntroEnd,
    /// Starting a question.
    QuestionPlay,
    /// Polling the question until it ends or a button stops it.
    QuestionPoll,
    QuestionSleep,
    QuestionScan,
    QuestionInterrupt,
    QuestionRelease,
    QuestionReleaseTick,
    /// Waiting for the question to end.
    QuestionEnd,
    /// Waiting, tick by tick, for an answer.
    AnswerWait,
    AnswerWaitTick,
    /// Lighting the exhibit's LED.
    AnswerLed,
    /// Starting the answer.
    AnswerPlay,
    /// Waiting for the buttons to be released after the answer started.
    AnswerRelease,
    AnswerReleaseTick,
    /// Polling the answer until it ends or a button stops it.
    AnswerPoll,
    AnswerSleep,
    AnswerScan,
    AnswerInterrupt,
    AnswerInterruptRelease,
    AnswerInterruptTick,
    /// Waiting for the answer to end.
    AnswerEnd,
    /// Turning the exhibit's LED off.
    QnaLedOff,
    /// Reading the mode switch after an exhibit.
    QnaModeCheck,
    /// Waiting 50 ms between scans in interactive mode.
    IdleSleep,
    /// Scanning for a press in interactive mode.
    IdleScan,
    /// Lighting the exhibit's LED.
    ExhibitLed,
    /// Starting a recording of the exhibit.
    ExhibitPlay,
    /// Polling the recording until it ends or a button stops it.
    ExhibitPoll,
    ExhibitSleep,
    ExhibitScan,
    ExhibitInterrupt,
    ExhibitRelease,
    ExhibitReleaseTick,
    /// Waiting for the recording to end.
    ExhibitEnd,
    /// Turning the exhibit's LED off.
    ExhibitLedOff,
    /// Reading the mode switch after an exhibit.
    ExhibitModeCheck,
    /// Stopped on a button that no exhibit has.
    Halted,
}

/// The state of the guide.
#[derive(Debug, PartialEq, Eq, Structural, Clone, Copy)]
pub struct GuideState {
    pub pc: Pc,
    /// The mode announced last.
    pub mode: Mode,
    /// The question-and-answer exhibit in play.
    pub qna: usize,
    /// The button pressed during or after the question.
    pub pressed: Option<usize>,
    /// Whether the guide stopped the playing recording.
    pub interrupted: bool,
    /// When the wait for an answer, or the exhibit's recording, started.
    pub started: u64,
    /// The interactive exhibit in play, its recording and its button.
    pub entry: usize,
    pub part: usize,
    pub button: usize,
    /// The latest time seen.
    pub clock: u64,
}

/// The event that each point waits for.
pub open spec fn accepts(pc: Pc, event: GuideEvent) -> bool {
    match pc {
        Pc::ModeProbe | Pc::QnaModeCheck | Pc::ExhibitModeCheck => event is ModeRead,
        Pc::IntroRelease | Pc::QuestionScan | Pc::QuestionRelease | Pc::AnswerWait | Pc::AnswerRelease
        | Pc::AnswerScan | Pc::AnswerInterruptRelease | Pc::IdleScan | Pc::ExhibitScan
        | Pc::ExhibitRelease => event is Buttons,
        Pc::QuestionPoll | Pc::AnswerPoll | Pc::ExhibitPoll => event is Playback,
        Pc::Halted => true,
        _ => event is Done,
    }
}

/// The index of the first interactive exhibit from `from` on with button
/// `button`.
pub open spec fn exhibit_from(entries: Seq<InteractiveEntryView>, button: usize, from: int) -> Option<usize>
    decreases entries.len() - from,
{
    if from < 0 || from >= entries.len() {
        None
    } else if entries[from].button == button {
        Some(from as usize)
    } else {
        exhibit_from(entries, button, from + 1)
    }
}

/// The index of the first interactive exhibit with button `button`.
pub open spec fn exhibit_for(config: ConfigView, button: usize) -> Option<usize> {
    exhibit_from(config.interactive, button, 0)
}

/// Starts playing question `i`.
pub open spec fn ask(s: GuideState, i: usize, now: u64) -> (GuideState, GuideAction) {
    (
        GuideState { pc: Pc::QuestionPlay, qna: i, pressed: None, interrupted: false, clock: now, ..s },
        GuideAction::Play(Recording::Question(i)),
    )
}

/// The answer that a press earns for exhibit `i`.
pub open spec fn answer_for(config: ConfigView, i: usize, pressed: Option<usize>) -> Recording {
    if pressed == Some(config.qna[i as int].button) {
        Recording::CorrectAnswer(i)
    } else {
        Recording::WrongAnswer(i)
    }
}

/// Moves to `pc` with the clock at `now` and asks for `action`.
pub open spec fn go(s: GuideState, pc: Pc, now: u64, action: GuideAction) -> (GuideState, GuideAction) {
    (GuideState { pc, clock: now, ..s }, action)
}

/// One transition of the guide on `event` at time `now`.
pub open spec fn guide_next(config: ConfigView, s: GuideState, event: GuideEvent, now: u64) -> (
    GuideState,
    GuideAction,
) {
    match s.pc {
        Pc::ModeProbe => match event {
            GuideEvent::ModeRead(m) => (
                GuideState { pc: Pc::IntroPlay, mode: m, interrupted: false, clock: now, ..s },
                GuideAction::Play(Recording::ModeIntro(m)),
            ),
            _ => go(s, Pc::ModeProbe, now, GuideAction::ProbeMode),
        },
        Pc::IntroPlay => go(s, Pc::IntroRelease, now, GuideAction::ScanButtons),
        Pc::IntroRelease => match event {
            GuideEvent::Buttons(Some(_)) => go(s, Pc::IntroReleaseTick, now, GuideAction::Tick),
            _ => go(s, Pc::IntroEnd, now, GuideAction::WaitPlaybackEnd),
        },
        Pc::IntroReleaseTick => go(s, Pc::IntroRelease, now, GuideAction::ScanButtons),
        Pc::IntroEnd => match s.mode {
            Mode::Qna => if config.qna.len() == 0 {
                go(s, Pc::ModeProbe, now, GuideAction::ProbeMode)
            } else {
                ask(s, 0, now)
            },
            Mode::Interactive => go(s, Pc::IdleSleep, now, GuideAction::Sleep),
        },
        Pc::QuestionPlay => go(s, Pc::QuestionPoll, now, GuideAction::CheckPlayback),
        Pc::QuestionPoll => match event {
            GuideEvent::Playback(ended) => if ended || s.interrupted {
                go(s, Pc::QuestionEnd, now, GuideAction::WaitPlaybackEnd)
            } else {
                go(s, Pc::QuestionSleep, now, GuideAction::Sleep)
            },
            _ => go(s, Pc::QuestionEnd, now, GuideAction::WaitPlaybackEnd),
        },
        Pc::QuestionSleep => go(s, Pc::QuestionScan, now, GuideAction::ScanButtons),
        Pc::QuestionScan => match event {
            GuideEvent::Buttons(Some(b)) => (
                GuideState { pc: Pc::QuestionInterrupt, pressed: Some(b), interrupted: true, clock: now, ..s },
                GuideAction::Interrupt,
            ),
            _ => go(s, Pc::QuestionPoll, now, GuideAction::CheckPlayback),
        },
        Pc::QuestionInterrupt => go(s, Pc::QuestionRelease, now, GuideAction::ScanButtons),
        Pc::QuestionRelease => match event {
            GuideEvent::Buttons(Some(_)) => go(s, Pc::QuestionReleaseTick, now, GuideAction::Tick),
            _ => go(s, Pc::QuestionPoll, now, GuideAction::CheckPlayback),
        },
        Pc::QuestionReleaseTick => go(s, Pc::QuestionRelease, now, GuideAction::ScanButtons),
        Pc::QuestionEnd => if s.pressed is None {
            (
                GuideState { pc: Pc::AnswerWait, started: now, clock: now, ..s },
                GuideAction::ScanButtons,
            )
        } else {
            go(s, Pc::AnswerLed, now, GuideAction::SetLed(spec_red(), config.qna[s.qna as int].led))
        },
        Pc::AnswerWait => match event {
            GuideEvent::Buttons(Some(b)) => (
                GuideState { pc: Pc::AnswerLed, pressed: Some(b), clock: now, ..s },
                GuideAction::SetLed(spec_red(), config.qna[s.qna as int].led),
            ),
            _ => go(s, Pc::AnswerWaitTick, now, GuideAction::Tick),
        },
        Pc::AnswerWaitTick => if now - s.started < ANSWER_TIMEOUT_US {
            go(s, Pc::AnswerWait, now, GuideAction::ScanButtons)
        } else {
            go(s, Pc::AnswerLed, now, GuideAction::SetLed(spec_red(), config.qna[s.qna as int].led))
        },
        Pc::AnswerLed => (
            GuideState { pc: Pc::AnswerPlay, interrupted: false, clock: now, ..s },
            GuideAction::Play(answer_for(config, s.qna, s.pressed)),
        ),
        Pc::AnswerPlay => go(s, Pc::AnswerRelease, now, GuideAction::ScanButtons),
        Pc::AnswerRelease => match event {
            GuideEvent::Buttons(Some(_)) => go(s, Pc::AnswerReleaseTick, now, GuideAction::Tick),
            _ => go(s, Pc::AnswerPoll, now, GuideAction::CheckPlayback),
        },
        Pc::AnswerReleaseTick => go(s, Pc::AnswerRelease, now, GuideAction::ScanButtons),
        Pc::AnswerPoll => match event {
            GuideEvent::Playback(ended) => if ended || s.interrupted {
                go(s, Pc::AnswerEnd, now, GuideAction::WaitPlaybackEnd)
            } else {
                go(s, Pc::AnswerSleep, now, GuideAction::Sleep)
            },
            _ => go(s, Pc::AnswerEnd, now, GuideAction::WaitPlaybackEnd),
        },
        Pc::AnswerSleep => go(s, Pc::AnswerScan, now, GuideAction::ScanButtons),
        Pc::AnswerScan => match event {
            GuideEvent::Buttons(Some(_)) => (
                GuideState { pc: Pc::AnswerInterrupt, interrupted: true, clock: now, ..s },
                GuideAction::Interrupt,
            ),
            _ => go(s, Pc::AnswerPoll, now, GuideAction::CheckPlayback),
        },
        Pc::AnswerInterrupt => go(s, Pc::AnswerInterruptRelease, now, GuideAction::ScanButtons),
        Pc::AnswerInterruptRelease => match event {
            GuideEvent::Buttons(Some(_)) => go(s, Pc::AnswerInterruptTick, now, GuideAction::Tick),
            _ => go(s, Pc::AnswerPoll, now, GuideAction::CheckPlayback),
        },
        Pc::AnswerInterruptTick => go(s, Pc::AnswerInterruptRelease, now, GuideAction::ScanButtons),
        Pc::AnswerEnd => go(
            s,
            Pc::QnaLedOff,
            now,
            GuideAction::SetLed(spec_black(), config.qna[s.qna as int].led),
        ),
        Pc::QnaLedOff => go(s, Pc::QnaModeCheck, now, GuideAction::ProbeMode),
        Pc::QnaModeCheck => match event {
            GuideEvent::ModeRead(m) => if m != s.mode {
                go(s, Pc::ModeProbe, now, GuideAction::ProbeMode)
            } else {
                ask(s, ((s.qna + 1) % (config.qna.len() as int)) as usize, now)
            },
            _ => go(s, Pc::QnaModeCheck, now, GuideAction::ProbeMode),
        },
        Pc::IdleSleep => go(s, Pc::IdleScan, now, GuideAction::ScanButtons),
        Pc::IdleScan => match event {
            GuideEvent::Buttons(Some(b)) => match exhibit_for(config, b) {
                Some(e) => (
                    GuideState { pc: Pc::ExhibitLed, entry: e, part: 0, button: b, clock: now, ..s },
                    GuideAction::SetLed(spec_red(), config.interactive[e as int].led),
                ),
                None => (
                    GuideState { pc: Pc::Halted, button: b, clock: now, ..s },
                    GuideAction::UnknownButton(b),
                ),
            },
            _ => go(s, Pc::IdleSleep, now, GuideAction::Sleep),
        },
        Pc::ExhibitLed => if config.interactive[s.entry as int].interactive.len() == 0 {
            go(
                s,
                Pc::ExhibitLedOff,
                now,
                GuideAction::SetLed(spec_black(), config.interactive[s.entry as int].led),
            )
        } else {
            (
                GuideState { pc: Pc::ExhibitPlay, part: 0, interrupted: false, started: now, clock: now, ..s },
                GuideAction::Play(Recording::Exhibit(s.entry, 0)),
            )
        },
        Pc::ExhibitPlay => go(s, Pc::ExhibitPoll, now, GuideAction::CheckPlayback),
        Pc::ExhibitPoll => match event {
            GuideEvent::Playback(ended) => if ended || s.interrupted {
                go(s, Pc::ExhibitEnd, now, GuideAction::WaitPlaybackEnd)
            } else {
                go(s, Pc::ExhibitSleep, now, GuideAction::Sleep)
            },
            _ => go(s, Pc::ExhibitEnd, now, GuideAction::WaitPlaybackEnd),
        },
        Pc::ExhibitSleep => go(s, Pc::ExhibitScan, now, GuideAction::ScanButtons),
        Pc::ExhibitScan => match event {
            GuideEvent::Buttons(Some(p)) => if p != s.button || now - s.started > REPRESS_GUARD_US {
                (
                    GuideState { pc: Pc::ExhibitInterrupt, interrupted: true, clock: now, ..s },
                    GuideAction::Interrupt,
                )
            } else {
                go(s, Pc::ExhibitPoll, now, GuideAction::CheckPlayback)
            },
            _ => go(s, Pc::ExhibitPoll, now, GuideAction::CheckPlayback),
        },
        Pc::ExhibitInterrupt => go(s, Pc::ExhibitRelease, now, GuideAction::ScanButtons),
        Pc::ExhibitRelease => match event {
            GuideEvent::Buttons(Some(_)) => go(s, Pc::ExhibitReleaseTick, now, GuideAction::Tick),
            _ => go(s, Pc::ExhibitPoll, now, GuideAction::CheckPlayback),
        },
        Pc::ExhibitReleaseTick => go(s, Pc::ExhibitRelease, now, GuideAction::ScanButtons),
        Pc::ExhibitEnd => if !s.interrupted && s.part + 1 < config.interactive[s.entry as int].interactive.len() {
            (
                GuideState { pc: Pc::ExhibitPlay, part: (s.part + 1) as usize, started: now, clock: now, ..s },
                GuideAction::Play(Recording::Exhibit(s.entry, (s.part + 1) as usize)),
            )
        } else {
            go(
                s,
                Pc::ExhibitLedOff,
                now,
                GuideAction::SetLed(spec_black(), config.interactive[s.entry as int].led),
            )
        },
        Pc::ExhibitLedOff => go(s, Pc::ExhibitModeCheck, now, GuideAction::ProbeMode),
        Pc::ExhibitModeCheck => match event {
            GuideEvent::ModeRead(m) => if m != s.mode {
                go(s, Pc::ModeProbe, now, GuideAction::ProbeMode)
            } else {
                go(s, Pc::IdleSleep, now, GuideAction::Sleep)
            },
            _ => go(s, Pc::ExhibitModeCheck, now, GuideAction::ProbeMode),
        },
        Pc::Halted => go(s, Pc::Halted, now, GuideAction::UnknownButton(s.button)),
    }
}

/// The points at which a question-and-answer exhibit is in play.
pub open spec fn in_qna(pc: Pc) -> bool {
    match pc {
        Pc::QuestionPlay | Pc::QuestionPoll | Pc::QuestionSleep | Pc::QuestionScan | Pc::QuestionInterrupt
        | Pc::QuestionRelease | Pc::QuestionReleaseTick | Pc::QuestionEnd | Pc::AnswerWait
        | Pc::AnswerWaitTick | Pc::AnswerLed | Pc::AnswerPlay | Pc::AnswerRelease | Pc::AnswerReleaseTick
        | Pc::AnswerPoll | Pc::AnswerSleep | Pc::AnswerScan | Pc::AnswerInterrupt
        | Pc::AnswerInterruptRelease | Pc::AnswerInterruptTick | Pc::AnswerEnd | Pc::QnaLedOff
        | Pc::QnaModeCheck => true,
        _ => false,
    }
}

/// The points at which an interactive exhibit is in play.
pub open spec fn in_exhibit(pc: Pc) -> bool {
    match pc {
        Pc::ExhibitLed | Pc::ExhibitPlay | Pc::ExhibitPoll | Pc::ExhibitSleep | Pc::ExhibitScan
        | Pc::ExhibitInterrupt | Pc::ExhibitRelease | Pc::ExhibitReleaseTick | Pc::ExhibitEnd
        | Pc::ExhibitLedOff | Pc::ExhibitModeCheck => true,
        _ => false,
    }
}

/// The points at which a recording of an interactive exhibit is in play.
pub open spec fn in_exhibit_recording(pc: Pc) -> bool {
    match pc {
        Pc::ExhibitPlay | Pc::ExhibitPoll | Pc::ExhibitSleep | Pc::ExhibitScan | Pc::ExhibitInterrupt
        | Pc::ExhibitRelease | Pc::ExhibitReleaseTick | Pc::ExhibitEnd => true,
        _ => false,
    }
}

/// The exhibit in play is one of the configuration, and so is its
/// recording; nothing started after the latest time seen.
pub open spec fn guide_wf(config: ConfigView, s: GuideState) -> bool {
    &&& in_qna(s.pc) ==> s.qna < config.qna.len()
    &&& in_exhibit(s.pc) ==> s.entry < config.interactive.len()
    &&& in_exhibit_recording(s.pc) ==> s.entry < config.interactive.len() && s.part
        < config.interactive[s.entry as int].interactive.len()
    &&& s.started <= s.clock
}

/// The name of a recording of `config`.
pub open spec fn recording_name(config: ConfigView, r: Recording) -> Seq<char> {
    match r {
        Recording::ModeIntro(m) => spec_mode_recording(m),
        Recording::Question(i) => config.qna[i as int].question,
        Recording::CorrectAnswer(i) => config.qna[i as int].correct_answer,
        Recording::WrongAnswer(i) => config.qna[i as int].wrong_answer,
        Recording::Exhibit(e, p) => config.interactive[e as int].interactive[p as int],
    }
}

/// Whether `r` is a recording of `config`.
pub open spec fn recording_in(config: ConfigView, r: Recording) -> bool {
    match r {
        Recording::ModeIntro(_) => true,
        Recording::Question(i) | Recording::CorrectAnswer(i) | Recording::WrongAnswer(i) => i
            < config.qna.len(),
        Recording::Exhibit(e, p) => e < config.interactive.len() && p
            < config.interactive[e as int].interactive.len(),
    }
}

/// The index of the first interactive exhibit with button `button`.
pub fn find_exhibit(entries: &Vec<InteractiveEntry>, button: usize) -> (found: Option<usize>)
    ensures
        found == exhibit_from(entries@.map_values(|e: InteractiveEntry| e@), button, 0),
        found matches Some(i) ==> i < entries@.len() && entries@[i as int].button == button && forall|j: int|
            0 <= j < i ==> #[trigger] entries@[j].button != button,
        found is None ==> forall|j: int| 0 <= j < entries@.len() ==> #[trigger] entries@[j].button != button,
{
    let ghost view = entries@.map_values(|e: InteractiveEntry| e@);
    let mut i: usize = 0;
    while i < entries.len()
        invariant
            i <= entries@.len(),
            view == entries@.map_values(|e: InteractiveEntry| e@),
            exhibit_from(view, button, 0) == exhibit_from(view, button, i as int),
            forall|j: int| 0 <= j < i ==> #[trigger] entries@[j].button != button,
        decreases entries@.len() - i,
    {
        if entries[i].button == button {
            return Some(i);
        }
        i = i + 1;
    }
    None
}

/// Runs the guide: announces the mode, then in question-and-answer mode
/// plays the questions in turn, takes an answer by button and plays the
/// correct or the wrong answer with the exhibit's LED lit; in interactive
/// mode plays an exhibit's recordings when its button is pressed, with its
/// LED lit. After each exhibit it reads the mode switch and starts over
/// when the mode has changed.
pub struct GuideController {
    config: Config,
    state: GuideState,
}

impl GuideController {
    /// The configuration.
    pub closed spec fn config(self) -> ConfigView {
        self.config@
    }

    /// The state.
    pub closed spec fn state(self) -> GuideState {
        self.state
    }

    /// The state, for inspection.
    pub fn current(&self) -> (s: GuideState)
        ensures
            s == self.state(),
    {
        self.state
    }

    /// A guide for `config` at time `now`, about to read the mode switch.
    pub fn new(config: Config, now: u64) -> (res: (GuideController, GuideAction))
        ensures
            res.0.config() == config@,
            res.0.state() == (GuideState {
                pc: Pc::ModeProbe,
                mode: Mode::Qna,
                qna: 0,
                pressed: None,
                interrupted: false,
                started: now,
                entry: 0,
                part: 0,
                button: 0,
                clock: now,
            }),
            guide_wf(res.0.config(), res.0.state()),
            res.1 == GuideAction::ProbeMode,
    {
        let state = GuideState {
            pc: Pc::ModeProbe,
            mode: Mode::Qna,
            qna: 0,
            pressed: None,
            interrupted: false,
            started: now,
            entry: 0,
            part: 0,
            button: 0,
            clock: now,
        };
        (GuideController { config, state }, GuideAction::ProbeMode)
    }

    /// The name of a recording that the guide asked for.
    pub fn recording_name(&self, r: Recording) -> (name: String)
        requires
            recording_in(self.config(), r),
        ensures
            name@ == recording_name(self.config(), r),
            r == Recording::ModeIntro(Mode::Interactive) ==> name@ == "activate_interactive.mp3"@,
            r == Recording::ModeIntro(Mode::Qna) ==> name@ == "activate_qna.mp3"@,
    {
        match r {
            Recording::ModeIntro(m) => String::from_str(mode_recording(&m)),
            Recording::Question(i) => self.config.qna[i].question.clone(),
            Recording::CorrectAnswer(i) => self.config.qna[i].correct_answer.clone(),
            Recording::WrongAnswer(i) => self.config.qna[i].wrong_answer.clone(),
            Recording::Exhibit(e, p) => {
                assert(self.config@.interactive[e as int].interactive[p as int]
                    == self.config.interactive@[e as int].interactive@[p as int]@);
                self.config.interactive[e].interactive[p].clone()
            },
        }
    }
}


/// The view of a configuration has the lengths of the configuration.
proof fn lemma_config_lengths(config: &Config)
    ensures
        config@.qna.len() == config.qna@.len(),
        config@.interactive.len() == config.interactive@.len(),
        forall|e: int|
            0 <= e < config@.interactive.len() ==> #[trigger] config@.interactive[e].interactive.len()
                == config.interactive@[e].interactive@.len(),
{
}

/// Exec counterpart of `go`.
fn go_to(s: GuideState, pc: Pc, now: u64, action: GuideAction) -> (res: (GuideState, GuideAction))
    ensures
        res == go(s, pc, now, action),
{
    (GuideState { pc, clock: now, ..s }, action)
}

/// Exec counterpart of `ask`.
fn ask_question(s: GuideState, i: usize, now: u64) -> (res: (GuideState, GuideAction))
    ensures
        res == ask(s, i, now),
{
    (
        GuideState { pc: Pc::QuestionPlay, qna: i, pressed: None, interrupted: false, clock: now, ..s },
        GuideAction::Play(Recording::Question(i)),
    )
}


fn step_intro(config: &Config, s: GuideState, event: GuideEvent, now: u64) -> (res: (GuideState, GuideAction))
    requires
        s.pc == Pc::ModeProbe
            || s.pc == Pc::IntroPlay
            || s.pc == Pc::IntroRelease
            || s.pc == Pc::IntroReleaseTick
            || s.pc == Pc::IntroEnd
            || s.pc == Pc::Halted,
        guide_wf(config@, s),
        accepts(s.pc, event),
        now >= s.clock,
    ensures
        res == guide_next(config@, s, event, now),
{
    proof {
        lemma_config_lengths(config);
    }
    match s.pc {
        Pc::ModeProbe => match event {
            GuideEvent::ModeRead(m) => (
                GuideState { pc: Pc::IntroPlay, mode: m, interrupted: false, clock: now, ..s },
                GuideAction::Play(Recording::ModeIntro(m)),
            ),
            _ => go_to(s, Pc::ModeProbe, now, GuideAction::ProbeMode),
        },
        Pc::IntroPlay => go_to(s, Pc::IntroRelease, now, GuideAction::ScanButtons),
        Pc::IntroRelease => match event {
            GuideEvent::Buttons(Some(_)) => go_to(s, Pc::IntroReleaseTick, now, GuideAction::Tick),
            _ => go_to(s, Pc::IntroEnd, now, GuideAction::WaitPlaybackEnd),
        },
        Pc::IntroReleaseTick => go_to(s, Pc::IntroRelease, now, GuideAction::ScanButtons),
        Pc::IntroEnd => match s.mode {
            Mode::Qna => if config.qna.len() == 0 {
                go_to(s, Pc::ModeProbe, now, GuideAction::ProbeMode)
            } else {
                ask_question(s, 0, now)
            },
            Mode::Interactive => go_to(s, Pc::IdleSleep, now, GuideAction::Sleep),
        },
        Pc::Halted => go_to(s, Pc::Halted, now, GuideAction::UnknownButton(s.button)),

        _ => go_to(s, s.pc, now, GuideAction::ProbeMode),
    }
}

fn step_question(config: &Config, s: GuideState, event: GuideEvent, now: u64) -> (res: (GuideState, GuideAction))
    requires
        s.pc == Pc::QuestionPlay
            || s.pc == Pc::QuestionPoll
            || s.pc == Pc::QuestionSleep
            || s.pc == Pc::QuestionScan
            || s.pc == Pc::QuestionInterrupt
            || s.pc == Pc::QuestionRelease
            || s.pc == Pc::QuestionReleaseTick
            || s.pc == Pc::QuestionEnd
            || s.pc == Pc::AnswerWait
            || s.pc == Pc::AnswerWaitTick,
        guide_wf(config@, s),
        accepts(s.pc, event),
        now >= s.clock,
    ensures
        res == guide_next(config@, s, event, now),
{
    proof {
        lemma_config_lengths(config);
    }
    match s.pc {
        Pc::QuestionPlay => go_to(s, Pc::QuestionPoll, now, GuideAction::CheckPlayback),
        Pc::QuestionPoll => match event {
            GuideEvent::Playback(ended) => if ended || s.interrupted {
                go_to(s, Pc::QuestionEnd, now, GuideAction::WaitPlaybackEnd)
            } else {
                go_to(s, Pc::QuestionSleep, now, GuideAction::Sleep)
            },
            _ => go_to(s, Pc::QuestionEnd, now, GuideAction::WaitPlaybackEnd),
        },
        Pc::QuestionSleep => go_to(s, Pc::QuestionScan, now, GuideAction::ScanButtons),
        Pc::QuestionScan => match event {
            GuideEvent::Buttons(Some(b)) => (
                GuideState {
                    pc: Pc::QuestionInterrupt,
                    pressed: Some(b),
                    interrupted: true,
                    clock: now,
                    ..s
                },
                GuideAction::Interrupt,
            ),
            _ => go_to(s, Pc::QuestionPoll, now, GuideAction::CheckPlayback),
        },
        Pc::QuestionInterrupt => go_to(s, Pc::QuestionRelease, now, GuideAction::ScanButtons),
        Pc::QuestionRelease => match event {
            GuideEvent::Buttons(Some(_)) => go_to(s, Pc::QuestionReleaseTick, now, GuideAction::Tick),
            _ => go_to(s, Pc::QuestionPoll, now, GuideAction::CheckPlayback),
        },
        Pc::QuestionReleaseTick => go_to(s, Pc::QuestionRelease, now, GuideAction::ScanButtons),
        Pc::QuestionEnd => if s.pressed.is_none() {
            (GuideState { pc: Pc::AnswerWait, started: now, clock: now, ..s }, GuideAction::ScanButtons)
        } else {
            go_to(s, Pc::AnswerLed, now, GuideAction::SetLed(red(), config.qna[s.qna].led))
        },
        Pc::AnswerWait => match event {
            GuideEvent::Buttons(Some(b)) => (
                GuideState { pc: Pc::AnswerLed, pressed: Some(b), clock: now, ..s },
                GuideAction::SetLed(red(), config.qna[s.qna].led),
            ),
            _ => go_to(s, Pc::AnswerWaitTick, now, GuideAction::Tick),
        },
        Pc::AnswerWaitTick => if now - s.started < ANSWER_TIMEOUT_US {
            go_to(s, Pc::AnswerWait, now, GuideAction::ScanButtons)
        } else {
            go_to(s, Pc::AnswerLed, now, GuideAction::SetLed(red(), config.qna[s.qna].led))
        },
        _ => go_to(s, s.pc, now, GuideAction::ProbeMode),
    }
}

fn step_answer(config: &Config, s: GuideState, event: GuideEvent, now: u64) -> (res: (GuideState, GuideAction))
    requires
        s.pc == Pc::AnswerLed
            || s.pc == Pc::AnswerPlay
            || s.pc == Pc::AnswerRelease
            || s.pc == Pc::AnswerReleaseTick
            || s.pc == Pc::AnswerPoll
            || s.pc == Pc::AnswerSleep
            || s.pc == Pc::AnswerScan
            || s.pc == Pc::AnswerInterrupt
            || s.pc == Pc::AnswerInterruptRelease
            || s.pc == Pc::AnswerInterruptTick
            || s.pc == Pc::AnswerEnd
            || s.pc == Pc::QnaLedOff
            || s.pc == Pc::QnaModeCheck,
        guide_wf(config@, s),
        accepts(s.pc, event),
        now >= s.clock,
    ensures
        res == guide_next(config@, s, event, now),
{
    proof {
        lemma_config_lengths(config);
    }
    match s.pc {
        Pc::AnswerLed => {
            let entry = &config.qna[s.qna];
            let answer = match s.pressed {
                Some(b) => if b == entry.button {
                    Recording::CorrectAnswer(s.qna)
                } else {
                    Recording::WrongAnswer(s.qna)
                },
                None => Recording::WrongAnswer(s.qna),
            };
            (GuideState { pc: Pc::AnswerPlay, interrupted: false, clock: now, ..s }, GuideAction::Play(answer))
        },
        Pc::AnswerPlay => go_to(s, Pc::AnswerRelease, now, GuideAction::ScanButtons),
        Pc::AnswerRelease => match event {
            GuideEvent::Buttons(Some(_)) => go_to(s, Pc::AnswerReleaseTick, now, GuideAction::Tick),
            _ => go_to(s, Pc::AnswerPoll, now, GuideAction::CheckPlayback),
        },
        Pc::AnswerReleaseTick => go_to(s, Pc::AnswerRelease, now, GuideAction::ScanButtons),
        Pc::AnswerPoll => match event {
            GuideEvent::Playback(ended) => if ended || s.interrupted {
                go_to(s, Pc::AnswerEnd, now, GuideAction::WaitPlaybackEnd)
            } else {
                go_to(s, Pc::AnswerSleep, now, GuideAction::Sleep)
            },
            _ => go_to(s, Pc::AnswerEnd, now, GuideAction::WaitPlaybackEnd),
        },
        Pc::AnswerSleep => go_to(s, Pc::AnswerScan, now, GuideAction::ScanButtons),
        Pc::AnswerScan => match event {
            GuideEvent::Buttons(Some(_)) => (
                GuideState { pc: Pc::AnswerInterrupt, interrupted: true, clock: now, ..s },
                GuideAction::Interrupt,
            ),
            _ => go_to(s, Pc::AnswerPoll, now, GuideAction::CheckPlayback),
        },
        Pc::AnswerInterrupt => go_to(s, Pc::AnswerInterruptRelease, now, GuideAction::ScanButtons),
        Pc::AnswerInterruptRelease => match event {
            GuideEvent::Buttons(Some(_)) => go_to(s, Pc::AnswerInterruptTick, now, GuideAction::Tick),
            _ => go_to(s, Pc::AnswerPoll, now, GuideAction::CheckPlayback),
        },
        Pc::AnswerInterruptTick => go_to(s, Pc::AnswerInterruptRelease, now, GuideAction::ScanButtons),
        Pc::AnswerEnd => go_to(s, Pc::QnaLedOff, now, GuideAction::SetLed(black(), config.qna[s.qna].led)),
        Pc::QnaLedOff => go_to(s, Pc::QnaModeCheck, now, GuideAction::ProbeMode),
        Pc::QnaModeCheck => match event {
            GuideEvent::ModeRead(m) => if m != s.mode {
                go_to(s, Pc::ModeProbe, now, GuideAction::ProbeMode)
            } else {
                let n = config.qna.len();
                ask_question(s, (s.qna + 1) % n, now)
            },
            _ => go_to(s, Pc::QnaModeCheck, now, GuideAction::ProbeMode),
        },
        _ => go_to(s, s.pc, now, GuideAction::ProbeMode),
    }
}

fn step_exhibit(config: &Config, s: GuideState, event: GuideEvent, now: u64) -> (res: (GuideState, GuideAction))
    requires
        s.pc == Pc::IdleSleep
            || s.pc == Pc::IdleScan
            || s.pc == Pc::ExhibitLed
            || s.pc == Pc::ExhibitPlay
            || s.pc == Pc::ExhibitPoll
            || s.pc == Pc::ExhibitSleep
            || s.pc == Pc::ExhibitScan
            || s.pc == Pc::ExhibitInterrupt
            || s.pc == Pc::ExhibitRelease
            || s.pc == Pc::ExhibitReleaseTick
            || s.pc == Pc::ExhibitEnd
            || s.pc == Pc::ExhibitLedOff
            || s.pc == Pc::ExhibitModeCheck,
        guide_wf(config@, s),
        accepts(s.pc, event),
        now >= s.clock,
    ensures
        res == guide_next(config@, s, event, now),
{
    proof {
        lemma_config_lengths(config);
    }
    match s.pc {
        Pc::IdleSleep => go_to(s, Pc::IdleScan, now, GuideAction::ScanButtons),
        Pc::IdleScan => match event {
            GuideEvent::Buttons(Some(b)) => match find_exhibit(&config.interactive, b) {
                Some(e) => (
                    GuideState { pc: Pc::ExhibitLed, entry: e, part: 0, button: b, clock: now, ..s },
                    GuideAction::SetLed(red(), config.interactive[e].led),
                ),
                None => (GuideState { pc: Pc::Halted, button: b, clock: now, ..s }, GuideAction::UnknownButton(b)),
            },
            _ => go_to(s, Pc::IdleSleep, now, GuideAction::Sleep),
        },
        Pc::ExhibitLed => if config.interactive[s.entry].interactive.len() == 0 {
            go_to(s, Pc::ExhibitLedOff, now, GuideAction::SetLed(black(), config.interactive[s.entry].led))
        } else {
            (
                GuideState { pc: Pc::ExhibitPlay, part: 0, interrupted: false, started: now, clock: now, ..s },
                GuideAction::Play(Recording::Exhibit(s.entry, 0)),
            )
        },
        Pc::ExhibitPlay => go_to(s, Pc::ExhibitPoll, now, GuideAction::CheckPlayback),
        Pc::ExhibitPoll => match event {
            GuideEvent::Playback(ended) => if ended || s.interrupted {
                go_to(s, Pc::ExhibitEnd, now, GuideAction::WaitPlaybackEnd)
            } else {
                go_to(s, Pc::ExhibitSleep, now, GuideAction::Sleep)
            },
            _ => go_to(s, Pc::ExhibitEnd, now, GuideAction::WaitPlaybackEnd),
        },
        Pc::ExhibitSleep => go_to(s, Pc::ExhibitScan, now, GuideAction::ScanButtons),
        Pc::ExhibitScan => match event {
            GuideEvent::Buttons(Some(p)) => if p != s.button || now - s.started > REPRESS_GUARD_US {
                (GuideState { pc: Pc::ExhibitInterrupt, interrupted: true, clock: now, ..s }, GuideAction::Interrupt)
            } else {
                go_to(s, Pc::ExhibitPoll, now, GuideAction::CheckPlayback)
            },
            _ => go_to(s, Pc::ExhibitPoll, now, GuideAction::CheckPlayback),
        },
        Pc::ExhibitInterrupt => go_to(s, Pc::ExhibitRelease, now, GuideAction::ScanButtons),
        Pc::ExhibitRelease => match event {
            GuideEvent::Buttons(Some(_)) => go_to(s, Pc::ExhibitReleaseTick, now, GuideAction::Tick),
            _ => go_to(s, Pc::ExhibitPoll, now, GuideAction::CheckPlayback),
        },
        Pc::ExhibitReleaseTick => go_to(s, Pc::ExhibitRelease, now, GuideAction::ScanButtons),
        Pc::ExhibitEnd => if !s.interrupted && s.part < config.interactive[s.entry].interactive.len() - 1 {
            (
                GuideState { pc: Pc::ExhibitPlay, part: s.part + 1, started: now, clock: now, ..s },
                GuideAction::Play(Recording::Exhibit(s.entry, s.part + 1)),
            )
        } else {
            go_to(s, Pc::ExhibitLedOff, now, GuideAction::SetLed(black(), config.interactive[s.entry].led))
        },
        Pc::ExhibitLedOff => go_to(s, Pc::ExhibitModeCheck, now, GuideAction::ProbeMode),
        Pc::ExhibitModeCheck => match event {
            GuideEvent::ModeRead(m) => if m != s.mode {
                go_to(s, Pc::ModeProbe, now, GuideAction::ProbeMode)
            } else {
                go_to(s, Pc::IdleSleep, now, GuideAction::Sleep)
            },
            _ => go_to(s, Pc::ExhibitModeCheck, now, GuideAction::ProbeMode),
        },
        _ => go_to(s, s.pc, now, GuideAction::ProbeMode),
    }
}

impl GuideController {
    /// Takes in `event`, the answer to the last action, at time `now`, and
    /// returns the next action; see `guide_next`.
    pub fn step(&mut self, event: GuideEvent, now: u64) -> (action: GuideAction)
        requires
            guide_wf(old(self).config(), old(self).state()),
            accepts(old(self).state().pc, event),
            now >= old(self).state().clock,
        ensures
            final(self).config() == old(self).config(),
            (final(self).state(), action) == guide_next(old(self).config(), old(self).state(), event, now),
            guide_wf(final(self).config(), final(self).state()),
    {
        let s = self.state;
        proof {
            lemma_next_preserves_wf(self.config@, s, event, now);
        }
        let (next, action) = match s.pc {
            Pc::ModeProbe => step_intro(&self.config, s, event, now),
            Pc::IntroPlay => step_intro(&self.config, s, event, now),
            Pc::IntroRelease => step_intro(&self.config, s, event, now),
            Pc::IntroReleaseTick => step_intro(&self.config, s, event, now),
            Pc::IntroEnd => step_intro(&self.config, s, event, now),
            Pc::Halted => step_intro(&self.config, s, event, now),
            Pc::QuestionPlay => step_question(&self.config, s, event, now),
            Pc::QuestionPoll => step_question(&self.config, s, event, now),
            Pc::QuestionSleep => step_question(&self.config, s, event, now),
            Pc::QuestionScan => step_question(&self.config, s, event, now),
            Pc::QuestionInterrupt => step_question(&self.config, s, event, now),
            Pc::QuestionRelease => step_question(&self.config, s, event, now),
            Pc::QuestionReleaseTick => step_question(&self.config, s, event, now),
            Pc::QuestionEnd => step_question(&self.config, s, event, now),
            Pc::AnswerWait => step_question(&self.config, s, event, now),
            Pc::AnswerWaitTick => step_question(&self.config, s, event, now),
            Pc::AnswerLed => step_answer(&self.config, s, event, now),
            Pc::AnswerPlay => step_answer(&self.config, s, event, now),
            Pc::AnswerRelease => step_answer(&self.config, s, event, now),
            Pc::AnswerReleaseTick => step_answer(&self.config, s, event, now),
            Pc::AnswerPoll => step_answer(&self.config, s, event, now),
            Pc::AnswerSleep => step_answer(&self.config, s, event, now),
            Pc::AnswerScan => step_answer(&self.config, s, event, now),
            Pc::AnswerInterrupt => step_answer(&self.config, s, event, now),
            Pc::AnswerInterruptRelease => step_answer(&self.config, s, event, now),
            Pc::AnswerInterruptTick => step_answer(&self.config, s, event, now),
            Pc::AnswerEnd => step_answer(&self.config, s, event, now),
            Pc::QnaLedOff => step_answer(&self.config, s, event, now),
            Pc::QnaModeCheck => step_answer(&self.config, s, event, now),
            Pc::IdleSleep => step_exhibit(&self.config, s, event, now),
            Pc::IdleScan => step_exhibit(&self.config, s, event, now),
            Pc::ExhibitLed => step_exhibit(&self.config, s, event, now),
            Pc::ExhibitPlay => step_exhibit(&self.config, s, event, now),
            Pc::ExhibitPoll => step_exhibit(&self.config, s, event, now),
            Pc::ExhibitSleep => step_exhibit(&self.config, s, event, now),
            Pc::ExhibitScan => step_exhibit(&self.config, s, event, now),
            Pc::ExhibitInterrupt => step_exhibit(&self.config, s, event, now),
            Pc::ExhibitRelease => step_exhibit(&self.config, s, event, now),
            Pc::ExhibitReleaseTick => step_exhibit(&self.config, s, event, now),
            Pc::ExhibitEnd => step_exhibit(&self.config, s, event, now),
            Pc::ExhibitLedOff => step_exhibit(&self.config, s, event, now),
            Pc::ExhibitModeCheck => step_exhibit(&self.config, s, event, now),
        };
        self.state = next;
        action
    }
}

} // verus!
verus! {

/// The exhibit that `exhibit_from` finds is one of the list.
proof fn lemma_exhibit_from_in_range(entries: Seq<InteractiveEntryView>, button: usize, from: int)
    ensures
        exhibit_from(entries, button, from) matches Some(i) ==> i < entries.len(),
    decreases entries.len() - from,
{
    if from >= 0 && from < entries.len() && entries[from].button != button {
        lemma_exhibit_from_in_range(entries, button, from + 1);
    }
}

/// Every transition keeps the guide well formed and moves its clock to
/// `now`.
pub proof fn lemma_next_preserves_wf(config: ConfigView, s: GuideState, event: GuideEvent, now: u64)
    requires
        guide_wf(config, s),
        now >= s.clock,
    ensures
        guide_wf(config, guide_next(config, s, event, now).0),
        guide_next(config, s, event, now).0.clock == now,
{
    if let GuideEvent::Buttons(Some(b)) = event {
        lemma_exhibit_from_in_range(config.interactive, b, 0);
    }
}

} // verus!

verus! {

/// Every recording that the guide asks for belongs to its configuration.
pub proof fn lemma_played_recordings_exist(config: ConfigView, s: GuideState, event: GuideEvent, now: u64)
    requires
        guide_wf(config, s),
        now >= s.clock,
    ensures
        guide_next(config, s, event, now).1 matches GuideAction::Play(r) ==> recording_in(config, r),
{
}

/// The answer played is the correct one exactly when the button pressed
/// during or after the question is the exhibit's button, and otherwise the
/// wrong one; either answers the question in play.
pub proof fn lemma_answer_follows_button(config: ConfigView, s: GuideState, event: GuideEvent, now: u64, i: usize)
    requires
        guide_wf(config, s),
    ensures
        guide_next(config, s, event, now).1 == GuideAction::Play(Recording::CorrectAnswer(i)) ==> {
            &&& s.pc == Pc::AnswerLed
            &&& i == s.qna
            &&& s.pressed == Some(config.qna[i as int].button)
        },
        guide_next(config, s, event, now).1 == GuideAction::Play(Recording::WrongAnswer(i)) ==> {
            &&& s.pc == Pc::AnswerLed
            &&& i == s.qna
            &&& s.pressed != Some(config.qna[i as int].button)
        },
        s.pc == Pc::AnswerLed ==> guide_next(config, s, event, now).1 is Play,
{
}

/// Questions are asked in turn: the first after the announcement, then
/// each after the one before it, wrapping around after the last.
pub proof fn lemma_questions_in_turn(config: ConfigView, s: GuideState, event: GuideEvent, now: u64, j: usize)
    requires
        guide_wf(config, s),
    ensures
        guide_next(config, s, event, now).1 == GuideAction::Play(Recording::Question(j)) ==> {
            ||| s.pc == Pc::IntroEnd && j == 0 && s.mode == Mode::Qna
            ||| s.pc == Pc::QnaModeCheck && event == GuideEvent::ModeRead(s.mode) && j == ((s.qna + 1)
                % (config.qna.len() as int)) as usize
        },
{
}

/// When the mode switch reads differently after an exhibit, the guide
/// starts over by reading it again; when it reads the same, the guide stays
/// in its mode.
pub proof fn lemma_mode_change_restarts(config: ConfigView, s: GuideState, m: Mode, now: u64)
    requires
        guide_wf(config, s),
        s.pc == Pc::QnaModeCheck || s.pc == Pc::ExhibitModeCheck,
    ensures
        m != s.mode ==> {
            &&& guide_next(config, s, GuideEvent::ModeRead(m), now).0.pc == Pc::ModeProbe
            &&& guide_next(config, s, GuideEvent::ModeRead(m), now).1 == GuideAction::ProbeMode
        },
        m == s.mode && s.pc == Pc::QnaModeCheck ==> guide_next(config, s, GuideEvent::ModeRead(m), now).0.pc
            == Pc::QuestionPlay,
        m == s.mode && s.pc == Pc::ExhibitModeCheck ==> guide_next(config, s, GuideEvent::ModeRead(m), now).0.pc
            == Pc::IdleSleep,
{
}

/// The LED that the guide lights is the LED of the exhibit that it is about
/// to play, and the LED it turns off is that of the exhibit it has played.
pub proof fn lemma_led_marks_exhibit(config: ConfigView, s: GuideState, event: GuideEvent, now: u64, c: Rgb, led: usize)
    requires
        guide_wf(config, s),
    ensures
        ({
            let (t, a) = guide_next(config, s, event, now);
            a == GuideAction::SetLed(c, led) ==> {
                ||| c == spec_red() && t.pc == Pc::AnswerLed && led == config.qna[t.qna as int].led
                ||| c == spec_red() && t.pc == Pc::ExhibitLed && led == config.interactive[t.entry as int].led
                ||| c == spec_black() && t.pc == Pc::QnaLedOff && led == config.qna[t.qna as int].led
                ||| c == spec_black() && t.pc == Pc::ExhibitLedOff && led == config.interactive[t.entry as int].led
            }
        }),
{
}

/// A press stops the recording of an interactive exhibit when it is
/// another button, or its own button more than `REPRESS_GUARD_US` after the
/// recording started; the guide stops a recording only on a press.
pub proof fn lemma_repress_guard(config: ConfigView, s: GuideState, event: GuideEvent, now: u64)
    requires
        guide_wf(config, s),
        now >= s.clock,
    ensures
        guide_next(config, s, event, now).1 == GuideAction::Interrupt ==> event matches GuideEvent::Buttons(
            Some(_),
        ),
        s.pc == Pc::ExhibitScan ==> (event matches GuideEvent::Buttons(Some(p)) ==> (guide_next(
            config,
            s,
            event,
            now,
        ).1 == GuideAction::Interrupt <==> (p != s.button || now - s.started > 4_000_000))),
{
}

/// A press selects the first interactive exhibit whose button it is, and
/// none when no exhibit has that button.
pub proof fn lemma_exhibit_is_first_with_button(entries: Seq<InteractiveEntryView>, button: usize)
    requires
        entries.len() <= usize::MAX,
    ensures
        exhibit_from(entries, button, 0) matches Some(i) ==> {
            &&& i < entries.len()
            &&& entries[i as int].button == button
            &&& forall|j: int| 0 <= j < i ==> #[trigger] entries[j].button != button
        },
        exhibit_from(entries, button, 0) is None ==> forall|j: int|
            0 <= j < entries.len() ==> #[trigger] entries[j].button != button,
{
    lemma_exhibit_from_finds_first(entries, button, 0);
}

proof fn lemma_exhibit_from_finds_first(entries: Seq<InteractiveEntryView>, button: usize, from: int)
    requires
        0 <= from <= entries.len(),
        entries.len() <= usize::MAX,
    ensures
        exhibit_from(entries, button, from) matches Some(i) ==> {
            &&& from <= i < entries.len()
            &&& entries[i as int].button == button
            &&& forall|j: int| from <= j < i ==> #[trigger] entries[j].button != button
        },
        exhibit_from(entries, button, from) is None ==> forall|j: int|
            from <= j < entries.len() ==> #[trigger] entries[j].button != button,
    decreases entries.len() - from,
{
    if from < entries.len() && entries[from].button != button {
        lemma_exhibit_from_finds_first(entries, button, from + 1);
    }
}

/// A button pressed while a question or an answer plays stops it: the guide
/// signals the interruption and remembers it; a press during the question
/// is also taken as the answer.
pub proof fn lemma_press_stops_question_and_answer(config: ConfigView, s: GuideState, b: usize, now: u64)
    ensures
        s.pc == Pc::AnswerScan ==> {
            let (t, a) = guide_next(config, s, GuideEvent::Buttons(Some(b)), now);
            &&& a == GuideAction::Interrupt
            &&& t.interrupted
            &&& t.pc == Pc::AnswerInterrupt
        },
        s.pc == Pc::QuestionScan ==> {
            let (t, a) = guide_next(config, s, GuideEvent::Buttons(Some(b)), now);
            &&& a == GuideAction::Interrupt
            &&& t.interrupted
            &&& t.pressed == Some(b)
            &&& t.pc == Pc::QuestionInterrupt
        },
        s.pc == Pc::AnswerScan || s.pc == Pc::QuestionScan ==> {
            let (t, a) = guide_next(config, s, GuideEvent::Buttons(None), now);
            &&& a == GuideAction::CheckPlayback
            &&& t.interrupted == s.interrupted
        },
{
}

/// The announcement of a mode is that mode's own recording:
/// "activate_interactive.mp3" for the interactive mode and
/// "activate_qna.mp3" for the question-and-answer mode; and a mode read at
/// the start is the mode announced.
pub proof fn lemma_announcement_names_the_mode(config: ConfigView, s: GuideState, m: Mode, now: u64)
    ensures
        recording_name(config, Recording::ModeIntro(Mode::Interactive)) == "activate_interactive.mp3"@,
        recording_name(config, Recording::ModeIntro(Mode::Qna)) == "activate_qna.mp3"@,
        s.pc == Pc::ModeProbe ==> guide_next(config, s, GuideEvent::ModeRead(m), now).1 == GuideAction::Play(
            Recording::ModeIntro(m),
        ),
        s.pc == Pc::ModeProbe ==> guide_next(config, s, GuideEvent::ModeRead(m), now).0.mode == m,
{
}

/// After a question the guide waits ten minutes, 600 000 000 µs, for an
/// answer: a press within that time is the answer; when the time is up
/// without one, the wrong answer follows with the exhibit's LED lit.
pub proof fn lemma_answer_timeout(config: ConfigView, s: GuideState, event: GuideEvent, now: u64)
    requires
        guide_wf(config, s),
        now >= s.clock,
    ensures
        s.pc == Pc::AnswerWaitTick ==> {
            let (t, a) = guide_next(config, s, event, now);
            &&& now - s.started < 600_000_000 ==> a == GuideAction::ScanButtons && t.pc == Pc::AnswerWait
            &&& now - s.started >= 600_000_000 ==> {
                &&& a == GuideAction::SetLed(spec_red(), config.qna[s.qna as int].led)
                &&& t.pc == Pc::AnswerLed
                &&& t.pressed == s.pressed
            }
        },
        s.pc == Pc::AnswerWait ==> (event matches GuideEvent::Buttons(Some(b)) ==> {
            let (t, a) = guide_next(config, s, event, now);
            &&& t.pressed == Some(b)
            &&& a == GuideAction::SetLed(spec_red(), config.qna[s.qna as int].led)
        }),
        s.pc == Pc::QuestionEnd && s.pressed is None ==> {
            let (t, a) = guide_next(config, s, event, now);
            &&& a == GuideAction::ScanButtons
            &&& t.started == now
        },
{
}

/// The guide waits for every button to be released, scanning on each tick
/// while one is held, and polls a playing recording every 50 ms until it
/// ends or the guide stopped it.
pub proof fn lemma_waits_for_release_and_end(config: ConfigView, s: GuideState, event: GuideEvent, now: u64)
    ensures
        ({
            let (t, a) = guide_next(config, s, event, now);
            &&& (s.pc == Pc::IntroRelease || s.pc == Pc::QuestionRelease || s.pc == Pc::AnswerRelease
                || s.pc == Pc::AnswerInterruptRelease || s.pc == Pc::ExhibitRelease) ==> (event matches GuideEvent::Buttons(
                Some(_),
            ) ==> a == GuideAction::Tick)
            &&& (s.pc == Pc::IntroReleaseTick || s.pc == Pc::QuestionReleaseTick || s.pc == Pc::AnswerReleaseTick
                || s.pc == Pc::AnswerInterruptTick || s.pc == Pc::ExhibitReleaseTick) ==> a == GuideAction::ScanButtons
            &&& (s.pc == Pc::QuestionPoll || s.pc == Pc::AnswerPoll || s.pc == Pc::ExhibitPoll) ==> (
            event matches GuideEvent::Playback(ended) ==> {
                &&& (ended || s.interrupted) ==> a == GuideAction::WaitPlaybackEnd
                &&& !(ended || s.interrupted) ==> a == GuideAction::Sleep
            })
        }),
{
}

} // verus!
