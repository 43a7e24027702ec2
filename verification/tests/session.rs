use text_analyzer::session::{Session, Step, DWELL_SECONDS};

fn run(outcomes: &[bool]) -> (Vec<Step>, Session) {
    let mut session = Session::begin();
    let mut taken = Vec::new();
    for ok in outcomes {
        if session.is_finished() {
            break;
        }
        taken.push(session.next);
        session = session.advance(*ok);
    }
    (taken, session)
}

#[test]
fn a_session_begins_with_raw_mode() {
    let session = Session::begin();
    assert_eq!(session.next, Step::EnableRaw);
    assert!(!session.raw);
    assert!(!session.alternate);
    assert_eq!(session.failed, None);
    assert!(!session.is_finished());
    assert!(!session.succeeded());
}

#[test]
fn a_clean_run_takes_every_step_in_order() {
    let (taken, session) = run(&[true; 6]);
    assert_eq!(
        taken,
        vec![
            Step::EnableRaw,
            Step::EnterAlternate,
            Step::Draw,
            Step::Dwell,
            Step::DisableRaw,
            Step::LeaveAlternate,
        ]
    );
    assert!(session.is_finished());
    assert!(session.succeeded());
    assert_eq!(session.failed, None);
    assert!(!session.raw && !session.alternate);
}

#[test]
fn the_terminal_is_held_while_the_panel_is_up() {
    let session = Session::begin().advance(true);
    assert_eq!(session, Session { next: Step::EnterAlternate, raw: true, alternate: false, failed: None });
    let session = session.advance(true);
    assert_eq!(session, Session { next: Step::Draw, raw: true, alternate: true, failed: None });
    let session = session.advance(true);
    assert_eq!(session, Session { next: Step::Dwell, raw: true, alternate: true, failed: None });
    let session = session.advance(true);
    assert_eq!(session, Session { next: Step::DisableRaw, raw: true, alternate: true, failed: None });
    let session = session.advance(true);
    assert_eq!(session, Session { next: Step::LeaveAlternate, raw: false, alternate: true, failed: None });
    let session = session.advance(true);
    assert_eq!(session, Session { next: Step::Finish, raw: false, alternate: false, failed: None });
}

#[test]
fn raw_mode_that_fails_ends_the_session() {
    let (taken, session) = run(&[false, true, true, true, true, true]);
    assert_eq!(taken, vec![Step::EnableRaw]);
    assert!(session.is_finished());
    assert!(!session.succeeded());
    assert_eq!(session.failed, Some(Step::EnableRaw));
    assert!(!session.raw && !session.alternate);
}

#[test]
fn a_failed_screen_switch_gives_the_terminal_back() {
    let (taken, session) = run(&[true, false, true, true, true, true]);
    assert_eq!(
        taken,
        vec![Step::EnableRaw, Step::EnterAlternate, Step::DisableRaw, Step::LeaveAlternate]
    );
    assert!(session.is_finished());
    assert_eq!(session.failed, Some(Step::EnterAlternate));
    assert!(!session.raw && !session.alternate);
}

#[test]
fn a_failed_draw_gives_the_terminal_back() {
    let (taken, session) = run(&[true, true, false, true, true, true]);
    assert_eq!(
        taken,
        vec![
            Step::EnableRaw,
            Step::EnterAlternate,
            Step::Draw,
            Step::DisableRaw,
            Step::LeaveAlternate,
        ]
    );
    assert!(session.is_finished());
    assert!(!session.succeeded());
    assert_eq!(session.failed, Some(Step::Draw));
    assert!(!session.raw && !session.alternate);
}

#[test]
fn both_restoring_steps_are_taken_when_the_first_fails() {
    let (taken, session) = run(&[true, true, true, true, false, true]);
    assert_eq!(taken[4], Step::DisableRaw);
    assert_eq!(taken[5], Step::LeaveAlternate);
    assert!(session.is_finished());
    assert_eq!(session.failed, Some(Step::DisableRaw));
    assert!(!session.succeeded());
}

#[test]
fn the_first_failure_is_the_one_kept() {
    let (_, session) = run(&[true, true, false, false, false, false]);
    assert!(session.is_finished());
    assert_eq!(session.failed, Some(Step::Draw));
    let (_, session) = run(&[true, true, true, true, true, false]);
    assert_eq!(session.failed, Some(Step::LeaveAlternate));
}

#[test]
fn a_finished_session_stays_as_it_is() {
    let (_, session) = run(&[true; 6]);
    assert_eq!(session.advance(true), session);
    assert_eq!(session.advance(false), session);
    let (_, failed) = run(&[false]);
    assert_eq!(failed.advance(false), failed);
    assert_eq!(failed.advance(true), failed);
}

#[test]
fn every_run_restores_what_it_took() {
    let mut bits: u32 = 0;
    while bits < 64 {
        let outcomes: Vec<bool> = (0..6).map(|i| bits & (1 << i) != 0).collect();
        let (taken, session) = run(&outcomes);
        assert!(session.is_finished(), "{:?}", outcomes);
        assert!(!session.raw && !session.alternate, "{:?}", outcomes);
        assert!(taken.len() <= 6);
        if outcomes[0] {
            let disable = taken.iter().position(|s| *s == Step::DisableRaw);
            let leave = taken.iter().position(|s| *s == Step::LeaveAlternate);
            assert!(disable.is_some() && leave.is_some(), "{:?}", outcomes);
            assert!(disable < leave);
        } else {
            assert_eq!(taken, vec![Step::EnableRaw]);
        }
        assert_eq!(session.succeeded(), taken.len() == 6 && outcomes.iter().all(|ok| *ok));
        bits += 1;
    }
}

#[test]
fn the_panel_dwells_three_seconds() {
    assert_eq!(DWELL_SECONDS, 3);
}
