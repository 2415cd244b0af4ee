use sfui::event::{Event, KeyCode, KeyPress, NamedKey};
use sfui::render_loop::{Action, Outcome, RenderLoop, Response, Step};

const STARTUP: [Step; 4] =
    [Step::EnableRawMode, Step::StartPoller, Step::OpenTerminal, Step::ClearScreen];

const ALL_STEPS: [Step; 8] = [
    Step::EnableRawMode,
    Step::StartPoller,
    Step::OpenTerminal,
    Step::ClearScreen,
    Step::Draw,
    Step::Receive,
    Step::DisableRawMode,
    Step::ShowCursor,
];

fn key(c: char) -> Event {
    Event::Input(KeyPress::plain(KeyCode::Char(c)))
}

/// What a driver has done so far.
struct Driven {
    session: RenderLoop,
    done: Vec<Step>,
}

impl Driven {
    fn count(&self, step: Step) -> usize {
        self.done.iter().filter(|s| **s == step).count()
    }
}

/// Starts a loop and carries out what it asks for, every step going well,
/// handing it the events in turn. Stops as soon as the last event has been
/// handed in, or when the loop has ended.
fn inject(events: &[Event]) -> Driven {
    let mut driven = Driven { session: RenderLoop::start(), done: Vec::new() };
    let mut handed: usize = 0;
    while handed < events.len() {
        match driven.session.pending() {
            Action::Exit(_) => break,
            Action::Perform(Step::Receive) => {
                driven.done.push(Step::Receive);
                driven.session.step(Response::Received(events[handed]));
                handed += 1;
            }
            Action::Perform(step) => {
                driven.done.push(step);
                driven.session.step(Response::Done);
            }
        }
    }
    driven
}

/// Goes on carrying out what the loop asks for until it has ended or asks
/// for another event.
fn finish(driven: &mut Driven) {
    loop {
        match driven.session.pending() {
            Action::Exit(_) | Action::Perform(Step::Receive) => break,
            Action::Perform(step) => {
                driven.done.push(step);
                driven.session.step(Response::Done);
            }
        }
    }
}

#[test]
fn five_ticks_five_draws() {
    let driven = inject(&[Event::Tick; 5]);
    assert_eq!(driven.count(Step::Draw), 5);
    assert_eq!(driven.count(Step::Receive), 5);
    assert!(driven.session.is_running());
    assert_eq!(driven.session.pending(), Action::Perform(Step::Draw));
    assert_eq!(driven.count(Step::DisableRawMode), 0);
}

#[test]
fn a_key_then_a_tick_two_draws() {
    let driven = inject(&[key('x'), Event::Tick]);
    assert_eq!(driven.count(Step::Draw), 2);
    assert!(driven.session.is_running());
    assert_eq!(driven.session.pending(), Action::Perform(Step::Draw));
}

#[test]
fn quit_after_one_draw_restores_the_terminal() {
    let mut driven = inject(&[key('q')]);
    assert_eq!(driven.count(Step::Draw), 1);
    assert_eq!(driven.session.pending(), Action::Perform(Step::DisableRawMode));
    finish(&mut driven);
    assert_eq!(driven.session.pending(), Action::Exit(Outcome::Quit));
    assert!(!driven.session.is_running());
    assert_eq!(driven.count(Step::Draw), 1);
    assert_eq!(driven.count(Step::Receive), 1);
    assert_eq!(
        driven.done,
        vec![
            Step::EnableRawMode,
            Step::StartPoller,
            Step::OpenTerminal,
            Step::ClearScreen,
            Step::Draw,
            Step::Receive,
            Step::DisableRawMode,
            Step::ShowCursor,
        ]
    );
}

#[test]
fn startup_order() {
    let mut session = RenderLoop::start();
    assert_eq!(session.pending(), Action::Perform(Step::EnableRawMode));
    assert_eq!(session.step(Response::Done), Action::Perform(Step::StartPoller));
    assert_eq!(session.step(Response::Done), Action::Perform(Step::OpenTerminal));
    assert_eq!(session.step(Response::Done), Action::Perform(Step::ClearScreen));
    assert_eq!(session.step(Response::Done), Action::Perform(Step::Draw));
    assert_eq!(session.step(Response::Done), Action::Perform(Step::Receive));
    assert_eq!(session.pending(), Action::Perform(Step::Receive));
}

#[test]
fn step_returns_what_is_pending_afterwards() {
    let mut session = RenderLoop::start();
    for response in [Response::Done, Response::Done, Response::Failed, Response::Done] {
        let action = session.step(response);
        assert_eq!(action, session.pending());
    }
}

#[test]
fn quit_is_terminal() {
    let mut driven = inject(&[Event::Tick, key('q')]);
    assert_eq!(driven.count(Step::Draw), 2);
    finish(&mut driven);
    assert_eq!(driven.session.pending(), Action::Exit(Outcome::Quit));
    let later = [
        Response::Done,
        Response::Received(Event::Tick),
        Response::Received(key('x')),
        Response::Failed,
        Response::Done,
    ];
    for response in later {
        assert_eq!(driven.session.step(response), Action::Exit(Outcome::Quit));
        assert!(!driven.session.is_running());
    }
}

#[test]
fn no_draw_and_no_receive_after_quit_even_if_restoring_fails() {
    for responses in [
        [Response::Failed, Response::Done, Response::Done],
        [Response::Done, Response::Failed, Response::Done],
        [Response::Received(Event::Tick), Response::Done, Response::Done],
        [Response::Done, Response::Received(key('x')), Response::Done],
    ] {
        let mut session = inject(&[key('q')]).session;
        for response in responses {
            let action = session.step(response);
            assert_ne!(action, Action::Perform(Step::Draw));
            assert_ne!(action, Action::Perform(Step::Receive));
        }
        assert!(!session.is_running());
    }
}

#[test]
fn keys_other_than_q_are_no_ops() {
    let presses = [
        KeyPress::plain(KeyCode::Char('x')),
        KeyPress::plain(KeyCode::Char('Q')),
        KeyPress::plain(KeyCode::Function(4)),
        KeyPress::plain(KeyCode::Named(NamedKey::Esc)),
        KeyPress::plain(KeyCode::Named(NamedKey::Enter)),
    ];
    for press in presses {
        let mut session = inject(&[Event::Tick]).session;
        assert_eq!(session.step(Response::Done), Action::Perform(Step::Receive));
        let mut after_tick = session;
        assert_eq!(session.step(Response::Received(Event::Input(press))), Action::Perform(Step::Draw));
        after_tick.step(Response::Received(Event::Tick));
        assert_eq!(session, after_tick);
        assert!(session.is_running());
    }
}

#[test]
fn one_draw_before_each_receive() {
    let events = [
        Event::Tick,
        key('a'),
        key('b'),
        Event::Tick,
        Event::Tick,
        key('Q'),
        Event::Tick,
        key('q'),
    ];
    let mut driven = inject(&events);
    finish(&mut driven);
    let mut draws: usize = 0;
    let mut receives: usize = 0;
    let mut last: Option<Step> = None;
    for step in driven.done.iter() {
        if *step == Step::Draw {
            draws += 1;
            assert_eq!(draws, receives + 1);
        }
        if *step == Step::Receive {
            assert_eq!(last, Some(Step::Draw));
            receives += 1;
            assert_eq!(draws, receives);
        }
        last = Some(*step);
    }
    assert_eq!(draws, 8);
    assert_eq!(receives, 8);
}

#[test]
fn a_failing_step_ends_the_session_at_once() {
    for failing in ALL_STEPS {
        let mut session = RenderLoop::start();
        let mut quit_sent = false;
        loop {
            match session.pending() {
                Action::Perform(step) if step == failing => {
                    let action = session.step(Response::Failed);
                    assert_eq!(action, Action::Exit(Outcome::Failed(failing)));
                    break;
                }
                Action::Perform(Step::Receive) => {
                    quit_sent = true;
                    session.step(Response::Received(key('q')));
                }
                Action::Perform(_) => {
                    session.step(Response::Done);
                }
                Action::Exit(outcome) => panic!("ended with {:?} before {:?}", outcome, failing),
            }
        }
        assert!(!session.is_running());
        assert_eq!(session.step(Response::Done), Action::Exit(Outcome::Failed(failing)));
        let restoring = failing == Step::DisableRawMode || failing == Step::ShowCursor;
        assert_eq!(quit_sent, restoring);
    }
}

#[test]
fn a_failed_draw_is_not_followed_by_restoring() {
    let mut session = inject(&[Event::Tick]).session;
    assert_eq!(session.pending(), Action::Perform(Step::Draw));
    assert_eq!(session.step(Response::Failed), Action::Exit(Outcome::Failed(Step::Draw)));
    assert_eq!(session.step(Response::Done), Action::Exit(Outcome::Failed(Step::Draw)));
}

#[test]
fn a_receive_without_an_event_has_failed() {
    for response in [Response::Done, Response::Failed] {
        let mut session = inject(&[Event::Tick]).session;
        session.step(Response::Done);
        assert_eq!(session.pending(), Action::Perform(Step::Receive));
        assert_eq!(session.step(response), Action::Exit(Outcome::Failed(Step::Receive)));
    }
}

#[test]
fn an_event_does_not_answer_other_steps() {
    for step in STARTUP {
        let mut session = RenderLoop::start();
        while session.pending() != Action::Perform(step) {
            session.step(Response::Done);
        }
        let action = session.step(Response::Received(Event::Tick));
        assert_eq!(action, Action::Exit(Outcome::Failed(step)));
    }
    let mut session = inject(&[Event::Tick]).session;
    let action = session.step(Response::Received(Event::Tick));
    assert_eq!(action, Action::Exit(Outcome::Failed(Step::Draw)));
}

#[test]
fn exit_codes() {
    assert_eq!(Outcome::Quit.exit_code(), 0);
    for step in ALL_STEPS {
        assert_eq!(Outcome::Failed(step).exit_code(), 1);
    }
}
