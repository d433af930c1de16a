use term_layout::session::{
    action_in, is_quit, start, step, Action, Event, KeyCode, Phase, Report, SessionError, QUIT_KEY,
};

fn key(c: char) -> Event {
    Event::Key(KeyCode::Char(c))
}

/// Feeds the reports to a session from its start; returns the phase reached
/// and every action asked for.
fn run(reports: &[Report]) -> (Phase, Vec<Action>) {
    let (mut phase, first) = start();
    let mut asked = vec![first];
    for report in reports {
        let (next, action) = step(phase, *report).expect("the report answers the pending step");
        phase = next;
        asked.push(action);
    }
    (phase, asked)
}

fn restores(asked: &[Action]) -> usize {
    asked.iter().filter(|a| **a == Action::Restore).count()
}

#[test]
fn a_session_starts_by_entering_the_terminal() {
    assert_eq!(start(), (Phase::Entering, Action::Enter));
}

#[test]
fn only_the_lower_case_q_quits() {
    assert_eq!(QUIT_KEY, 'q');
    assert!(is_quit(key('q')));
    assert!(!is_quit(key('Q')));
    assert!(!is_quit(key('x')));
    assert!(!is_quit(key('\u{0}')));
    assert!(!is_quit(Event::Key(KeyCode::Other)));
    assert!(!is_quit(Event::Other));
}

#[test]
fn quit_right_after_startup_restores_once() {
    let (phase, asked) = run(&[
        Report::Entered,
        Report::Drawn,
        Report::Input(key('q')),
        Report::Restored,
    ]);
    assert_eq!(phase, Phase::Finished(Ok(())));
    assert_eq!(
        asked,
        vec![Action::Enter, Action::Draw, Action::Read, Action::Restore, Action::Exit(Ok(()))]
    );
    assert_eq!(restores(&asked), 1);
}

#[test]
fn other_events_redraw_and_read_again() {
    let (phase, asked) = run(&[
        Report::Entered,
        Report::Drawn,
        Report::Input(Event::Other),
        Report::Drawn,
        Report::Input(key('x')),
        Report::Drawn,
        Report::Input(Event::Key(KeyCode::Other)),
        Report::Drawn,
        Report::Input(key('Q')),
        Report::Drawn,
    ]);
    assert_eq!(phase, Phase::Reading);
    assert_eq!(
        asked,
        vec![
            Action::Enter,
            Action::Draw,
            Action::Read,
            Action::Draw,
            Action::Read,
            Action::Draw,
            Action::Read,
            Action::Draw,
            Action::Read,
            Action::Draw,
            Action::Read,
        ]
    );
    assert_eq!(restores(&asked), 0);

    let (next, action) = step(phase, Report::Input(key('q'))).unwrap();
    assert_eq!(next, Phase::Restoring(Ok(())));
    assert_eq!(action, Action::Restore);
    assert_eq!(
        step(next, Report::Restored),
        Some((Phase::Finished(Ok(())), Action::Exit(Ok(()))))
    );
}

#[test]
fn a_terminal_that_cannot_be_entered_is_not_restored() {
    let (phase, asked) = run(&[Report::EnterFailed]);
    assert_eq!(phase, Phase::Finished(Err(SessionError::TerminalInit)));
    assert_eq!(asked, vec![Action::Enter, Action::Exit(Err(SessionError::TerminalInit))]);
    assert_eq!(restores(&asked), 0);
}

#[test]
fn a_failed_read_restores_before_it_is_reported() {
    let (phase, asked) = run(&[
        Report::Entered,
        Report::Drawn,
        Report::Input(Event::Other),
        Report::Drawn,
        Report::InputFailed,
        Report::Restored,
    ]);
    assert_eq!(phase, Phase::Finished(Err(SessionError::InputRead)));
    assert_eq!(
        asked,
        vec![
            Action::Enter,
            Action::Draw,
            Action::Read,
            Action::Draw,
            Action::Read,
            Action::Restore,
            Action::Exit(Err(SessionError::InputRead)),
        ]
    );
    assert_eq!(restores(&asked), 1);
}

#[test]
fn a_failed_draw_restores_before_it_is_reported() {
    let (phase, asked) = run(&[Report::Entered, Report::DrawFailed, Report::Restored]);
    assert_eq!(phase, Phase::Finished(Err(SessionError::Draw)));
    assert_eq!(
        asked,
        vec![
            Action::Enter,
            Action::Draw,
            Action::Restore,
            Action::Exit(Err(SessionError::Draw)),
        ]
    );
    assert_eq!(restores(&asked), 1);
}

#[test]
fn a_report_that_does_not_answer_is_refused() {
    let all = [
        Report::Entered,
        Report::EnterFailed,
        Report::Drawn,
        Report::DrawFailed,
        Report::Input(key('q')),
        Report::Input(Event::Other),
        Report::InputFailed,
        Report::Restored,
    ];
    let phases = [
        (Phase::Entering, vec![0usize, 1]),
        (Phase::Drawing, vec![2, 3]),
        (Phase::Reading, vec![4, 5, 6]),
        (Phase::Restoring(Ok(())), vec![7]),
        (Phase::Restoring(Err(SessionError::InputRead)), vec![7]),
        (Phase::Finished(Ok(())), vec![]),
        (Phase::Finished(Err(SessionError::TerminalInit)), vec![]),
    ];
    for (phase, answering) in phases.iter() {
        for (i, report) in all.iter().enumerate() {
            assert_eq!(
                step(*phase, *report).is_some(),
                answering.contains(&i),
                "{:?} on {:?}",
                phase,
                report
            );
        }
    }
}

#[test]
fn the_action_goes_with_the_phase() {
    assert_eq!(action_in(Phase::Entering), Action::Enter);
    assert_eq!(action_in(Phase::Drawing), Action::Draw);
    assert_eq!(action_in(Phase::Reading), Action::Read);
    assert_eq!(action_in(Phase::Restoring(Ok(()))), Action::Restore);
    assert_eq!(action_in(Phase::Restoring(Err(SessionError::Draw))), Action::Restore);
    assert_eq!(action_in(Phase::Finished(Ok(()))), Action::Exit(Ok(())));
    assert_eq!(
        action_in(Phase::Finished(Err(SessionError::InputRead))),
        Action::Exit(Err(SessionError::InputRead))
    );
    for phase in [Phase::Entering, Phase::Drawing, Phase::Reading] {
        for report in [Report::Entered, Report::Drawn, Report::Input(Event::Other)] {
            if let Some((next, action)) = step(phase, report) {
                assert_eq!(action, action_in(next));
            }
        }
    }
}

#[test]
fn every_way_out_of_the_loop_restores_once() {
    let endings = [
        (Report::Input(key('q')), Ok(())),
        (Report::InputFailed, Err(SessionError::InputRead)),
    ];
    for frames in 0..5usize {
        for (ending, result) in endings.iter() {
            let mut reports = vec![Report::Entered];
            for _ in 0..frames {
                reports.push(Report::Drawn);
                reports.push(Report::Input(Event::Other));
            }
            reports.push(Report::Drawn);
            reports.push(*ending);
            reports.push(Report::Restored);
            let (phase, asked) = run(&reports);
            assert_eq!(phase, Phase::Finished(*result));
            assert_eq!(restores(&asked), 1);
            assert_eq!(asked[asked.len() - 2], Action::Restore);
            assert_eq!(asked[asked.len() - 1], Action::Exit(*result));
        }
        let mut reports = vec![Report::Entered];
        for _ in 0..frames {
            reports.push(Report::Drawn);
            reports.push(Report::Input(Event::Other));
        }
        reports.push(Report::DrawFailed);
        reports.push(Report::Restored);
        let (phase, asked) = run(&reports);
        assert_eq!(phase, Phase::Finished(Err(SessionError::Draw)));
        assert_eq!(restores(&asked), 1);
    }
}
