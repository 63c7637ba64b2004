use battery_gauge::dashboard::{
    exit_code, gauge_color, render, Action, Dashboard, DashboardState, Event, Failure, Frame,
    GaugeColor, Key, KeyInput, KeyKind, Phase, PowerReading, Stage, GAUGE_PERCENT_HEIGHT,
    GAUGE_PERCENT_WIDTH, POLL_TIMEOUT_MS, QUIT_KEY,
};
use battery_gauge::layout::{centered_rect, ViewportRect};

fn reading(percent: u16, charging: bool) -> PowerReading {
    PowerReading::new(percent, charging).unwrap()
}

fn press(c: char) -> Event {
    Event::Key(KeyInput { kind: KeyKind::Press, key: Key::Char(c) })
}

/// Feeds the events to a new dashboard; returns it, the last action and how
/// often the release was asked for.
fn run(events: &[Event]) -> (Dashboard, Action, usize) {
    let (mut dashboard, mut action) = Dashboard::new();
    let mut releases: usize = 0;
    for event in events {
        let next = dashboard.step(*event);
        dashboard = next.0;
        action = next.1;
        if action == Action::ReleaseSession {
            releases += 1;
        }
    }
    (dashboard, action, releases)
}

fn polling(r: PowerReading) -> Vec<Event> {
    vec![Event::SessionEntered, Event::ProviderReady(r), Event::FrameDrawn]
}

#[test]
fn constants_of_the_dashboard() {
    assert_eq!(GAUGE_PERCENT_WIDTH, 50);
    assert_eq!(GAUGE_PERCENT_HEIGHT, 30);
    assert_eq!(POLL_TIMEOUT_MS, 50);
    assert_eq!(QUIT_KEY, 'q');
}

#[test]
fn power_reading_is_a_percentage() {
    assert_eq!(PowerReading::new(0, false), Some(PowerReading { percent: 0, charging: false }));
    assert_eq!(PowerReading::new(100, true), Some(PowerReading { percent: 100, charging: true }));
    assert_eq!(PowerReading::new(101, true), None);
    assert_eq!(PowerReading::new(65535, false), None);
}

#[test]
fn gauge_is_green_only_while_charging() {
    assert_eq!(gauge_color(true), GaugeColor::Green);
    assert_eq!(gauge_color(false), GaugeColor::White);
}

#[test]
fn render_fills_the_gauge_to_the_reading() {
    let viewport = ViewportRect::new(0, 0, 80, 24);
    let idle = render(reading(73, false), viewport);
    assert_eq!(idle.percent, 73);
    assert_eq!(idle.color, GaugeColor::White);
    let charging = render(reading(73, true), viewport);
    assert_eq!(charging.percent, 73);
    assert_eq!(charging.color, GaugeColor::Green);
    assert_eq!(charging.area, idle.area);
}

#[test]
fn render_places_the_gauge_in_the_middle_of_the_viewport() {
    let viewport = ViewportRect::new(0, 0, 80, 24);
    let frame = render(reading(40, false), viewport);
    assert_eq!(frame.area, centered_rect(viewport, 50, 30));
    assert_eq!(frame.area.x, 20);
    assert_eq!(frame.area.width, 40);
    assert_eq!(
        frame,
        Frame { area: frame.area, percent: 40, color: GaugeColor::White }
    );
}

#[test]
fn render_is_a_function_of_reading_and_viewport() {
    let viewport = ViewportRect::new(2, 1, 101, 37);
    let first = render(reading(12, true), viewport);
    let second = render(reading(12, true), viewport);
    assert_eq!(first, second);
}

#[test]
fn only_a_press_of_q_is_the_quit_key() {
    assert!(KeyInput { kind: KeyKind::Press, key: Key::Char('q') }.is_quit());
    assert!(!KeyInput { kind: KeyKind::Release, key: Key::Char('q') }.is_quit());
    assert!(!KeyInput { kind: KeyKind::Repeat, key: Key::Char('q') }.is_quit());
    assert!(!KeyInput { kind: KeyKind::Press, key: Key::Char('Q') }.is_quit());
    assert!(!KeyInput { kind: KeyKind::Press, key: Key::Char('x') }.is_quit());
    assert!(!KeyInput { kind: KeyKind::Press, key: Key::Other }.is_quit());
}

#[test]
fn exit_code_is_zero_only_without_a_failure() {
    assert_eq!(exit_code(None), 0);
    assert_eq!(exit_code(Some(Failure::Session)), 1);
    assert_eq!(exit_code(Some(Failure::NoPowerSource)), 1);
    assert_eq!(exit_code(Some(Failure::Draw)), 1);
    assert_eq!(exit_code(Some(Failure::Input)), 1);
}

#[test]
fn stages_belong_to_phases() {
    assert_eq!(Stage::EnteringSession.phase(), Phase::Initializing);
    assert_eq!(Stage::AcquiringProvider.phase(), Phase::Initializing);
    assert_eq!(Stage::Rendering.phase(), Phase::Running);
    assert_eq!(Stage::Polling.phase(), Phase::Running);
    assert_eq!(Stage::Refreshing.phase(), Phase::Running);
    assert_eq!(Stage::Draining.phase(), Phase::Draining);
    assert_eq!(Stage::Terminated.phase(), Phase::Terminated);
}

#[test]
fn a_new_dashboard_asks_for_the_session() {
    let (dashboard, action) = Dashboard::new();
    assert_eq!(action, Action::EnterSession);
    assert_eq!(dashboard.stage, Stage::EnteringSession);
    assert_eq!(dashboard.state, DashboardState { quit: false });
    assert_eq!(dashboard.reading, None);
    assert_eq!(dashboard.failure, None);
    assert!(!dashboard.should_quit());
}

#[test]
fn startup_then_one_round_of_the_loop() {
    let r = reading(73, false);
    let (d, a) = Dashboard::new();
    assert_eq!(a, Action::EnterSession);
    let (d, a) = d.step(Event::SessionEntered);
    assert_eq!((d.stage, a), (Stage::AcquiringProvider, Action::AcquireProvider));
    let (d, a) = d.step(Event::ProviderReady(r));
    assert_eq!((d.stage, a), (Stage::Rendering, Action::Draw(r)));
    assert_eq!(d.reading, Some(r));
    let (d, a) = d.step(Event::FrameDrawn);
    assert_eq!((d.stage, a), (Stage::Polling, Action::PollInput(50)));
    let (d, a) = d.step(Event::NoInput);
    assert_eq!((d.stage, a), (Stage::Refreshing, Action::Refresh));
    let fresh = reading(72, false);
    let (d, a) = d.step(Event::Refreshed(fresh));
    assert_eq!((d.stage, a), (Stage::Rendering, Action::Draw(fresh)));
    assert_eq!(d.reading, Some(fresh));
    assert!(!d.should_quit());
    assert_eq!(d.failure, None);
}

#[test]
fn quit_key_ends_the_loop_after_the_refresh() {
    let r = reading(50, true);
    let mut events = polling(r);
    events.push(press('q'));
    let (d, a, releases) = run(&events);
    assert!(d.should_quit());
    assert_eq!((d.stage, a), (Stage::Refreshing, Action::Refresh));
    assert_eq!(releases, 0);

    events.push(Event::Refreshed(reading(51, true)));
    let (d, a, releases) = run(&events);
    assert_eq!((d.stage, a), (Stage::Draining, Action::ReleaseSession));
    assert_eq!(releases, 1);

    events.push(Event::SessionReleased);
    let (d, a, releases) = run(&events);
    assert_eq!((d.stage, a), (Stage::Terminated, Action::Exit(None)));
    assert_eq!(d.stage.phase(), Phase::Terminated);
    assert_eq!(releases, 1);
    assert!(d.should_quit());
    assert_eq!(exit_code(d.failure), 0);
}

#[test]
fn other_input_never_sets_quit() {
    let r = reading(50, false);
    let others = [
        press('x'),
        press('Q'),
        Event::Key(KeyInput { kind: KeyKind::Release, key: Key::Char('q') }),
        Event::Key(KeyInput { kind: KeyKind::Repeat, key: Key::Char('q') }),
        Event::Key(KeyInput { kind: KeyKind::Press, key: Key::Other }),
        Event::NoInput,
    ];
    for other in others {
        let mut events = polling(r);
        events.push(other);
        events.push(Event::Refreshed(r));
        let (d, a, releases) = run(&events);
        assert!(!d.should_quit());
        assert_eq!((d.stage, a), (Stage::Rendering, Action::Draw(r)));
        assert_eq!(releases, 0);
    }
}

#[test]
fn quit_key_outside_the_poll_is_ignored() {
    let r = reading(50, false);
    let (d, a, _) = run(&[press('q')]);
    assert!(!d.should_quit());
    assert_eq!((d.stage, a), (Stage::EnteringSession, Action::EnterSession));
    let (d, a, _) = run(&[Event::SessionEntered, Event::ProviderReady(r), press('q')]);
    assert!(!d.should_quit());
    assert_eq!((d.stage, a), (Stage::Rendering, Action::Draw(r)));
}

#[test]
fn many_rounds_without_quit_key_keep_running() {
    let r = reading(64, false);
    let mut events = vec![Event::SessionEntered, Event::ProviderReady(r)];
    for _ in 0..100u32 {
        events.push(Event::FrameDrawn);
        events.push(Event::NoInput);
        events.push(Event::Refreshed(r));
    }
    let (d, a, releases) = run(&events);
    assert_eq!(d.stage.phase(), Phase::Running);
    assert_eq!(a, Action::Draw(r));
    assert!(!d.should_quit());
    assert_eq!(releases, 0);
}

#[test]
fn failed_refresh_keeps_the_last_reading() {
    let before = reading(73, false);
    let mut events = polling(before);
    events.push(Event::NoInput);
    events.push(Event::RefreshFailed);
    let (d, a, releases) = run(&events);
    assert!(!d.should_quit());
    assert_eq!(d.failure, None);
    assert_eq!(d.reading, Some(before));
    assert_eq!((d.stage, a), (Stage::Rendering, Action::Draw(before)));
    assert_eq!(releases, 0);

    events.push(Event::FrameDrawn);
    events.push(Event::NoInput);
    let after = reading(74, true);
    events.push(Event::Refreshed(after));
    let (d, a, _) = run(&events);
    assert_eq!(d.reading, Some(after));
    assert_eq!(a, Action::Draw(after));
}

#[test]
fn failed_refresh_after_quit_key_still_ends_the_loop() {
    let r = reading(73, false);
    let mut events = polling(r);
    events.push(press('q'));
    events.push(Event::RefreshFailed);
    events.push(Event::SessionReleased);
    let (d, a, releases) = run(&events);
    assert_eq!((d.stage, a), (Stage::Terminated, Action::Exit(None)));
    assert_eq!(d.reading, Some(r));
    assert_eq!(releases, 1);
}

#[test]
fn draw_failure_releases_the_session_once() {
    let r = reading(20, false);
    let events = [Event::SessionEntered, Event::ProviderReady(r), Event::DrawFailed];
    let (d, a, releases) = run(&events);
    assert_eq!((d.stage, a), (Stage::Draining, Action::ReleaseSession));
    assert_eq!(d.failure, Some(Failure::Draw));
    assert_eq!(releases, 1);
    assert!(!d.should_quit());

    let events = [
        Event::SessionEntered,
        Event::ProviderReady(r),
        Event::DrawFailed,
        Event::SessionReleased,
        Event::SessionReleased,
        Event::NoInput,
    ];
    let (d, a, releases) = run(&events);
    assert_eq!((d.stage, a), (Stage::Terminated, Action::Exit(Some(Failure::Draw))));
    assert_eq!(releases, 1);
    assert_eq!(exit_code(d.failure), 1);
}

#[test]
fn poll_failure_releases_the_session_once() {
    let mut events = polling(reading(20, false));
    events.push(Event::PollFailed);
    events.push(Event::SessionReleased);
    let (d, a, releases) = run(&events);
    assert_eq!((d.stage, a), (Stage::Terminated, Action::Exit(Some(Failure::Input))));
    assert_eq!(releases, 1);
    assert!(!d.should_quit());
}

#[test]
fn missing_power_source_never_reaches_the_loop() {
    let (d, a, releases) = run(&[Event::SessionEntered, Event::ProviderMissing]);
    assert_eq!((d.stage, a), (Stage::Draining, Action::ReleaseSession));
    assert_eq!(d.failure, Some(Failure::NoPowerSource));
    assert_eq!(d.reading, None);
    assert_eq!(releases, 1);
    let (d, a) = d.step(Event::SessionReleased);
    assert_eq!((d.stage, a), (Stage::Terminated, Action::Exit(Some(Failure::NoPowerSource))));
    assert_eq!(exit_code(d.failure), 1);
}

#[test]
fn unusable_terminal_never_reaches_the_loop() {
    let (d, a, releases) = run(&[Event::SessionFailed]);
    assert_eq!((d.stage, a), (Stage::Draining, Action::ReleaseSession));
    assert_eq!(d.failure, Some(Failure::Session));
    assert_eq!(releases, 1);
    let (d, a) = d.step(Event::SessionReleased);
    assert_eq!((d.stage, a), (Stage::Terminated, Action::Exit(Some(Failure::Session))));
}

#[test]
fn an_event_that_answers_nothing_asks_again() {
    let r = reading(10, false);
    let (d, a, _) = run(&[Event::FrameDrawn]);
    assert_eq!((d.stage, a), (Stage::EnteringSession, Action::EnterSession));
    let (d, a, _) = run(&[Event::SessionEntered, Event::NoInput]);
    assert_eq!((d.stage, a), (Stage::AcquiringProvider, Action::AcquireProvider));
    let (d, a, _) = run(&[Event::SessionEntered, Event::ProviderReady(r), Event::RefreshFailed]);
    assert_eq!((d.stage, a), (Stage::Rendering, Action::Draw(r)));
    let mut events = polling(r);
    events.push(Event::FrameDrawn);
    let (d, a, _) = run(&events);
    assert_eq!((d.stage, a), (Stage::Polling, Action::PollInput(50)));
    let mut events = polling(r);
    events.push(Event::NoInput);
    events.push(Event::FrameDrawn);
    let (d, a, releases) = run(&events);
    assert_eq!((d.stage, a), (Stage::Refreshing, Action::Refresh));
    assert_eq!(releases, 0);
}

#[test]
fn terminated_stays_terminated() {
    let mut events = polling(reading(88, true));
    events.push(press('q'));
    events.push(Event::Refreshed(reading(88, true)));
    events.push(Event::SessionReleased);
    for extra in [Event::SessionEntered, press('q'), Event::Refreshed(reading(1, false)), Event::DrawFailed] {
        events.push(extra);
        let (d, a, releases) = run(&events);
        assert_eq!((d.stage, a), (Stage::Terminated, Action::Exit(None)));
        assert_eq!(releases, 1);
        assert!(d.should_quit());
    }
}

#[test]
fn well_formed_readings_events_and_dashboards() {
    assert!(PowerReading { percent: 100, charging: false }.is_wf());
    assert!(!PowerReading { percent: 101, charging: false }.is_wf());
    assert!(Event::NoInput.is_wf());
    assert!(Event::Refreshed(reading(5, true)).is_wf());
    assert!(!Event::Refreshed(PowerReading { percent: 300, charging: true }).is_wf());
    assert!(!Event::ProviderReady(PowerReading { percent: 101, charging: true }).is_wf());
    let (d, _) = Dashboard::new();
    assert!(d.is_wf());
    let running_without_reading = Dashboard {
        stage: Stage::Rendering,
        state: DashboardState { quit: false },
        reading: None,
        failure: None,
    };
    assert!(!running_without_reading.is_wf());
    let drained_without_cause = Dashboard {
        stage: Stage::Terminated,
        state: DashboardState { quit: false },
        reading: Some(reading(5, true)),
        failure: None,
    };
    assert!(!drained_without_cause.is_wf());
    let polling_after_quit = Dashboard {
        stage: Stage::Polling,
        state: DashboardState { quit: true },
        reading: Some(reading(5, true)),
        failure: None,
    };
    assert!(!polling_after_quit.is_wf());
}

#[test]
fn every_step_of_a_run_is_well_formed() {
    let r = reading(42, false);
    let events = [
        Event::SessionEntered,
        Event::ProviderReady(r),
        Event::FrameDrawn,
        Event::NoInput,
        Event::RefreshFailed,
        Event::FrameDrawn,
        press('q'),
        Event::Refreshed(r),
        Event::SessionReleased,
    ];
    let (mut d, _) = Dashboard::new();
    for event in events {
        assert!(d.is_wf());
        d = d.step(event).0;
    }
    assert!(d.is_wf());
    assert_eq!(d.stage, Stage::Terminated);
}

#[test]
fn one_frame_and_one_poll_in_each_round() {
    let r = reading(73, false);
    for k in [1usize, 2, 3, 17] {
        let mut events = vec![Event::SessionEntered, Event::ProviderReady(r)];
        for round in 0..k {
            events.push(Event::FrameDrawn);
            events.push(if round + 1 == k { press('q') } else { Event::NoInput });
            events.push(if round % 2 == 0 { Event::Refreshed(r) } else { Event::RefreshFailed });
        }
        let (mut d, _) = Dashboard::new();
        let mut draws: usize = 0;
        let mut polls: usize = 0;
        let mut releases: usize = 0;
        for event in &events {
            let (next, action) = d.step(*event);
            d = next;
            match action {
                Action::Draw(shown) => {
                    assert_eq!(shown, r);
                    draws += 1;
                }
                Action::PollInput(_) => polls += 1,
                Action::ReleaseSession => releases += 1,
                _ => {}
            }
        }
        assert_eq!((draws, polls, releases), (k, k, 1));
        assert_eq!(d.stage, Stage::Draining);
        assert_eq!(d.failure, None);
        assert!(d.should_quit());
    }
}
