use vstd::prelude::*;
use crate::config::Mode;

verus! {

/// What the task that scans the buttons does next.
#[derive(Debug, PartialEq, Eq, Structural, Clone, Copy)]
pub enum ScanAction {
    /// Read whether button `pin` is pressed, now.
    Read(usize),
    /// Wait 50 ms, then read whether button `pin` is still pressed.
    Confirm(usize),
    /// Button `pin` was pressed at both readings: report it.
    Pressed(usize),
    /// No button was pressed.
    NonePressed,
}

/// Scans a row of buttons in order and reports the first one that reads as
/// pressed twice, 50 ms apart; a button that reads as released at either
/// reading is passed over.
#[derive(Debug, PartialEq, Eq, Structural, Clone, Copy)]
pub struct ButtonScan {
    pub pins: usize,
    pub current: usize,
    pub confirming: bool,
}

impl ButtonScan {
    /// The action that moving on to button `next` of `pins` calls for.
    pub open spec fn advance_to(pins: usize, next: int) -> ScanAction {
        if next < pins {
            ScanAction::Read(next as usize)
        } else {
            ScanAction::NonePressed
        }
    }

    /// Starts a scan of `pins` buttons.
    pub fn start(pins: usize) -> (res: (ButtonScan, ScanAction))
        ensures
            res.0 == (ButtonScan { pins, current: 0, confirming: false }),
            res.1 == Self::advance_to(pins, 0),
    {
        let scan = ButtonScan { pins, current: 0, confirming: false };
        if pins > 0 {
            (scan, ScanAction::Read(0))
        } else {
            (scan, ScanAction::NonePressed)
        }
    }

    /// Takes in a reading of the current button: `pressed` at the first
    /// reading asks for a confirming one; `pressed` at the confirming
    /// reading reports the button; a release moves on to the next button,
    /// and past the last one reports that none was pressed.
    pub fn next(self, pressed: bool) -> (res: (ButtonScan, ScanAction))
        requires
            self.current < self.pins,
        ensures
            pressed && !self.confirming ==> res == (
                ButtonScan { confirming: true, ..self },
                ScanAction::Confirm(self.current),
            ),
            pressed && self.confirming ==> res == (self, ScanAction::Pressed(self.current)),
            !pressed ==> res == (
                ButtonScan { current: (self.current + 1) as usize, confirming: false, ..self },
                Self::advance_to(self.pins, self.current + 1),
            ),
            res == scan_step(self, pressed),
    {
        if pressed {
            if self.confirming {
                (self, ScanAction::Pressed(self.current))
            } else {
                (ButtonScan { confirming: true, ..self }, ScanAction::Confirm(self.current))
            }
        } else {
            let next = self.current + 1;
            let scan = ButtonScan { current: next, confirming: false, ..self };
            if next < self.pins {
                (scan, ScanAction::Read(next))
            } else {
                (scan, ScanAction::NonePressed)
            }
        }
    }
}

/// The step of a scan on a reading of its current button; see
/// `ButtonScan::next`.
pub open spec fn scan_step(scan: ButtonScan, pressed: bool) -> (ButtonScan, ScanAction) {
    if pressed {
        if scan.confirming {
            (scan, ScanAction::Pressed(scan.current))
        } else {
            (ButtonScan { confirming: true, ..scan }, ScanAction::Confirm(scan.current))
        }
    } else {
        (
            ButtonScan { current: (scan.current + 1) as usize, confirming: false, ..scan },
            ButtonScan::advance_to(scan.pins, scan.current + 1),
        )
    }
}

/// What a scan that reads `first[i]` at the first reading of button `i`
/// and `second[i]` at its confirming reading reports, from `scan` on.
pub open spec fn scan_run(scan: ButtonScan, first: Seq<bool>, second: Seq<bool>) -> Option<usize>
    decreases (scan.pins - scan.current) * 2 + (if scan.confirming { 0int } else { 1int }),
{
    if scan.current >= scan.pins {
        None
    } else {
        let reading = if scan.confirming { second[scan.current as int] } else { first[scan.current as int] };
        let (next, action) = scan_step(scan, reading);
        match action {
            ScanAction::Pressed(i) => Some(i),
            ScanAction::NonePressed => None,
            _ => scan_run(next, first, second),
        }
    }
}

/// The button that a full scan reports for `first[i]`, the first reading of
/// button `i`, and `second[i]`, its confirming reading: the first button
/// read as pressed both times.
pub open spec fn first_debounced(first: Seq<bool>, second: Seq<bool>, from: int) -> Option<usize>
    decreases first.len() - from,
{
    if from >= first.len() || from < 0 {
        None
    } else if first[from] && second[from] {
        Some(from as usize)
    } else {
        first_debounced(first, second, from + 1)
    }
}

/// The mode that the mode switch selects: closed selects the interactive
/// mode, open the question-and-answer mode.
pub open spec fn switch_mode(closed: bool) -> Mode {
    if closed {
        Mode::Interactive
    } else {
        Mode::Qna
    }
}

/// What the task that reads the mode switch does next.
#[derive(Debug, PartialEq, Eq, Structural, Clone, Copy)]
pub enum ProbeAction {
    /// Wait 50 ms and read the switch again.
    ReadAgain,
    /// The switch selects this mode.
    Decided(Mode),
}

/// Reads the mode switch with debouncing: two readings 50 ms apart that
/// agree decide the mode; when they differ, a third reading 50 ms later
/// decides it.
pub fn probe_mode(readings: &Vec<bool>) -> (action: ProbeAction)
    requires
        1 <= readings@.len() <= 3,
        readings@.len() == 3 ==> readings@[0] != readings@[1],
    ensures
        readings@.len() == 1 ==> action == ProbeAction::ReadAgain,
        readings@.len() == 2 ==> {
            &&& readings@[0] == readings@[1] ==> action == ProbeAction::Decided(switch_mode(readings@[0]))
            &&& readings@[0] != readings@[1] ==> action == ProbeAction::ReadAgain
        },
        readings@.len() == 3 ==> action == ProbeAction::Decided(switch_mode(readings@[2])),
{
    let convert = |closed: bool| -> (m: Mode)
        ensures
            m == switch_mode(closed),
        {
            if closed {
                Mode::Interactive
            } else {
                Mode::Qna
            }
        };
    if readings.len() == 1 {
        ProbeAction::ReadAgain
    } else if readings.len() == 2 {
        if readings[0] == readings[1] {
            ProbeAction::Decided(convert(readings[0]))
        } else {
            ProbeAction::ReadAgain
        }
    } else {
        ProbeAction::Decided(convert(readings[2]))
    }
}

/// A scan that runs from its start reports the first button read as
/// pressed at both of its readings, and none when there is no such button.
pub proof fn lemma_scan_reports_first_debounced(pins: usize, first: Seq<bool>, second: Seq<bool>)
    requires
        first.len() == pins,
        second.len() == pins,
    ensures
        scan_run(ButtonScan { pins, current: 0, confirming: false }, first, second) == first_debounced(
            first,
            second,
            0,
        ),
{
    lemma_scan_from(ButtonScan { pins, current: 0, confirming: false }, first, second);
}

proof fn lemma_scan_from(scan: ButtonScan, first: Seq<bool>, second: Seq<bool>)
    requires
        first.len() == scan.pins,
        second.len() == scan.pins,
        !scan.confirming,
    ensures
        scan_run(scan, first, second) == first_debounced(first, second, scan.current as int),
    decreases scan.pins - scan.current,
{
    if scan.current < scan.pins {
        let i = scan.current;
        let next = ButtonScan { current: (i + 1) as usize, confirming: false, ..scan };
        if first[i as int] {
            let confirming = ButtonScan { confirming: true, ..scan };
            assert(scan_run(scan, first, second) == scan_run(confirming, first, second));
            if !second[i as int] {
                if i + 1 < scan.pins {
                    lemma_scan_from(next, first, second);
                }
            }
        } else {
            if i + 1 < scan.pins {
                lemma_scan_from(next, first, second);
            }
        }
    }
}

/// The mode switch closed selects the interactive mode and open selects the
/// question-and-answer mode; two agreeing readings decide at once.
pub proof fn lemma_switch_selects_mode()
    ensures
        switch_mode(true) == Mode::Interactive,
        switch_mode(false) == Mode::Qna,
{
}

} // verus!
