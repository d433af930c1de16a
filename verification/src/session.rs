//! The life of a terminal session, as decisions: what to do next, given what
//! the last step brought. The caller does the work on the terminal.

use vstd::prelude::*;

verus! {

/// What the loop reads of a key.
#[derive(Clone, Copy, Debug, PartialEq, Eq, Structural)]
pub enum KeyCode {
    /// A key that types this character.
    Char(char),
    /// Any other key.
    Other,
}

/// What the loop reads of an input event.
#[derive(Clone, Copy, Debug, PartialEq, Eq, Structural)]
pub enum Event {
    /// A key was pressed.
    Key(KeyCode),
    /// Anything else: the terminal was resized, the mouse moved.
    Other,
}

/// The one key that ends the session.
pub const QUIT_KEY: char = 'q';

/// The event is a press of the quit key.
pub open spec fn quits(event: Event) -> bool {
    event == Event::Key(KeyCode::Char(QUIT_KEY))
}

/// Tells whether the event ends the session.
pub fn is_quit(event: Event) -> (quit: bool)
    ensures
        quit == quits(event),
{
    match event {
        Event::Key(KeyCode::Char(c)) => c == QUIT_KEY,
        _ => false,
    }
}

/// Why a session ended early.
#[derive(Clone, Copy, Debug, PartialEq, Eq, Structural)]
pub enum SessionError {
    /// The terminal could not be switched to the full-screen raw mode.
    TerminalInit,
    /// A frame could not be written to the terminal.
    Draw,
    /// The read of the next input event failed.
    InputRead,
}

/// Where a session stands. In every phase but the last one step is pending:
/// the caller has been told what to do and has not yet reported on it.
#[derive(Clone, Copy, Debug, PartialEq, Eq)]
pub enum Phase {
    /// The terminal is being switched to the full-screen raw mode.
    Entering,
    /// A frame is being drawn.
    Drawing,
    /// The next input event is awaited.
    Reading,
    /// The terminal is being put back; the loop ended as recorded.
    Restoring(Result<(), SessionError>),
    /// The session is over, with this result.
    Finished(Result<(), SessionError>),
}

/// What the caller is to do next.
#[derive(Clone, Copy, Debug, PartialEq, Eq)]
pub enum Action {
    /// Switch the terminal to the full-screen raw mode.
    Enter,
    /// Draw one frame for the current size of the screen.
    Draw,
    /// Block until the next input event.
    Read,
    /// Put the terminal back into the mode it was found in.
    Restore,
    /// Stop, with this result.
    Exit(Result<(), SessionError>),
}

/// What a step brought.
#[derive(Clone, Copy, Debug, PartialEq, Eq, Structural)]
pub enum Report {
    /// The terminal is in the full-screen raw mode.
    Entered,
    /// The terminal could not be switched.
    EnterFailed,
    /// The frame is on the screen.
    Drawn,
    /// The frame could not be written.
    DrawFailed,
    /// This event was read.
    Input(Event),
    /// The read failed.
    InputFailed,
    /// The terminal has been put back.
    Restored,
}

/// The report is one that the step pending in `phase` can bring.
pub open spec fn answers(phase: Phase, report: Report) -> bool {
    match phase {
        Phase::Entering => report is Entered || report is EnterFailed,
        Phase::Drawing => report is Drawn || report is DrawFailed,
        Phase::Reading => report is Input || report is InputFailed,
        Phase::Restoring(_) => report is Restored,
        Phase::Finished(_) => false,
    }
}

/// The phase that follows `phase` on a report that answers it. Once the
/// terminal has been entered, every way out of the loop leads through
/// `Restoring`: the quit key, a failed draw and a failed read alike.
pub open spec fn phase_after(phase: Phase, report: Report) -> Phase {
    match (phase, report) {
        (Phase::Entering, Report::Entered) => Phase::Drawing,
        (Phase::Entering, _) => Phase::Finished(Err(SessionError::TerminalInit)),
        (Phase::Drawing, Report::Drawn) => Phase::Reading,
        (Phase::Drawing, _) => Phase::Restoring(Err(SessionError::Draw)),
        (Phase::Reading, Report::Input(event)) => if quits(event) {
            Phase::Restoring(Ok(()))
        } else {
            Phase::Drawing
        },
        (Phase::Reading, _) => Phase::Restoring(Err(SessionError::InputRead)),
        (Phase::Restoring(result), _) => Phase::Finished(result),
        (Phase::Finished(result), _) => Phase::Finished(result),
    }
}

/// The step that is pending in `phase`.
pub open spec fn pending(phase: Phase) -> Action {
    match phase {
        Phase::Entering => Action::Enter,
        Phase::Drawing => Action::Draw,
        Phase::Reading => Action::Read,
        Phase::Restoring(_) => Action::Restore,
        Phase::Finished(result) => Action::Exit(result),
    }
}

/// Begins a session: the first thing to do is to enter the terminal.
pub fn start() -> (first: (Phase, Action))
    ensures
        first == (Phase::Entering, Action::Enter),
{
    (Phase::Entering, Action::Enter)
}

/// The action to take in `phase`.
pub fn action_in(phase: Phase) -> (action: Action)
    ensures
        action == pending(phase),
{
    match phase {
        Phase::Entering => Action::Enter,
        Phase::Drawing => Action::Draw,
        Phase::Reading => Action::Read,
        Phase::Restoring(_) => Action::Restore,
        Phase::Finished(result) => Action::Exit(result),
    }
}

/// Decides what follows a report: the next phase and the action to take in
/// it. A report that does not answer the pending step gives `None`.
pub fn step(phase: Phase, report: Report) -> (next: Option<(Phase, Action)>)
    ensures
        next == if answers(phase, report) {
            Some((phase_after(phase, report), pending(phase_after(phase, report))))
        } else {
            None
        },
{
    let after = match (phase, report) {
        (Phase::Entering, Report::Entered) => Phase::Drawing,
        (Phase::Entering, Report::EnterFailed) => Phase::Finished(Err(SessionError::TerminalInit)),
        (Phase::Drawing, Report::Drawn) => Phase::Reading,
        (Phase::Drawing, Report::DrawFailed) => Phase::Restoring(Err(SessionError::Draw)),
        (Phase::Reading, Report::Input(event)) => {
            if is_quit(event) {
                Phase::Restoring(Ok(()))
            } else {
                Phase::Drawing
            }
        },
        (Phase::Reading, Report::InputFailed) => Phase::Restoring(Err(SessionError::InputRead)),
        (Phase::Restoring(result), Report::Restored) => Phase::Finished(result),
        _ => {
            return None;
        },
    };
    Some((after, action_in(after)))
}

/// Where a session stands after `reports`, taken one after another from its
/// start. A report that does not answer the pending step changes nothing.
pub open spec fn phase_reached(reports: Seq<Report>) -> Phase
    decreases reports.len(),
{
    if reports.len() == 0 {
        Phase::Entering
    } else {
        let before = phase_reached(reports.drop_last());
        if answers(before, reports.last()) {
            phase_after(before, reports.last())
        } else {
            before
        }
    }
}

/// The actions that a session has asked for after `reports`, in order: to
/// enter, and then one action for each report that answered.
pub open spec fn actions_asked(reports: Seq<Report>) -> Seq<Action>
    decreases reports.len(),
{
    if reports.len() == 0 {
        seq![Action::Enter]
    } else {
        let before = phase_reached(reports.drop_last());
        let asked = actions_asked(reports.drop_last());
        if answers(before, reports.last()) {
            asked.push(pending(phase_after(before, reports.last())))
        } else {
            asked
        }
    }
}

/// How often `actions` ask to put the terminal back.
pub open spec fn restores(actions: Seq<Action>) -> nat
    decreases actions.len(),
{
    if actions.len() == 0 {
        0
    } else {
        restores(actions.drop_last()) + if actions.last() is Restore {
            1nat
        } else {
            0nat
        }
    }
}

/// Whatever is reported, and in whatever order, a session asks to put the
/// terminal back at most once: never before the terminal is entered or while
/// the loop runs, and exactly once by the time it is restoring or has
/// finished, unless it finished because the terminal could not be entered,
/// which is never a reason to restore. The last action asked for is always
/// the one pending in the phase reached.
pub proof fn lemma_restored_exactly_once(reports: Seq<Report>)
    ensures
        actions_asked(reports).len() > 0,
        actions_asked(reports).last() == pending(phase_reached(reports)),
        restores(actions_asked(reports)) == match phase_reached(reports) {
            Phase::Entering | Phase::Drawing | Phase::Reading => 0nat,
            Phase::Restoring(_) => 1nat,
            Phase::Finished(result) => if result == Err::<(), SessionError>(
                SessionError::TerminalInit,
            ) {
                0nat
            } else {
                1nat
            },
        },
        phase_reached(reports) matches Phase::Restoring(result) ==> result != Err::<
            (),
            SessionError,
        >(SessionError::TerminalInit),
    decreases reports.len(),
{
    if reports.len() == 0 {
        let first = seq![Action::Enter];
        assert(first.drop_last() =~= Seq::<Action>::empty());
        assert(restores(first) == restores(first.drop_last()));
    } else {
        let earlier = reports.drop_last();
        lemma_restored_exactly_once(earlier);
        let before = phase_reached(earlier);
        let asked = actions_asked(earlier);
        if answers(before, reports.last()) {
            let action = pending(phase_after(before, reports.last()));
            assert(asked.push(action).drop_last() =~= asked);
        }
    }
}

/// In a session that awaits input, the quit key and then the report that the
/// terminal was put back finish the session without error.
pub proof fn lemma_quit_ends_session(reports: Seq<Report>)
    requires
        phase_reached(reports) is Reading,
    ensures
        phase_reached(
            reports.push(Report::Input(Event::Key(KeyCode::Char(QUIT_KEY)))).push(Report::Restored),
        ) == Phase::Finished(Ok::<(), SessionError>(())),
{
    let quit = Report::Input(Event::Key(KeyCode::Char(QUIT_KEY)));
    let at_quit = reports.push(quit);
    assert(at_quit.drop_last() =~= reports);
    assert(phase_reached(at_quit) == Phase::Restoring(Ok::<(), SessionError>(())));
    let at_end = at_quit.push(Report::Restored);
    assert(at_end.drop_last() =~= at_quit);
}

} // verus!
