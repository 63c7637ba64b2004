//! The decisions of the dashboard loop, as a machine from state and event to
//! next state and action. The caller owns the terminal and the power source:
//! it performs each action and hands back what happened.

use crate::layout::{centered_rect, centered_rect_spec, ViewportRect};
use vstd::prelude::*;

verus! {

/// The share of the viewport's width that the gauge takes, in percent.
pub const GAUGE_PERCENT_WIDTH: u16 = 50;

/// The share of the viewport's height that the gauge takes, in percent.
pub const GAUGE_PERCENT_HEIGHT: u16 = 30;

/// How long one poll for input waits, in milliseconds.
pub const POLL_TIMEOUT_MS: u64 = 50;

/// The key that ends the loop.
pub const QUIT_KEY: char = 'q';

/// A snapshot of the power source: the charge in percent, and whether it is
/// charging.
#[derive(Clone, Copy, Debug, PartialEq, Eq)]
pub struct PowerReading {
    pub percent: u16,
    pub charging: bool,
}

impl PowerReading {
    /// The charge is a percentage.
    pub open spec fn wf(self) -> bool {
        self.percent <= 100
    }

    /// Whether the charge is a percentage.
    pub fn is_wf(&self) -> (ok: bool)
        ensures
            ok == self.wf(),
    {
        self.percent <= 100
    }

    /// A reading of `percent` percent; none where `percent` is over 100.
    pub fn new(percent: u16, charging: bool) -> (reading: Option<PowerReading>)
        ensures
            reading == (if percent <= 100 {
                Some(PowerReading { percent, charging })
            } else {
                None
            }),
    {
        if percent <= 100 {
            Some(PowerReading { percent, charging })
        } else {
            None
        }
    }
}

/// The color of the gauge's bar.
#[derive(Clone, Copy, Debug, PartialEq, Eq)]
pub enum GaugeColor {
    /// The power source is charging.
    Green,
    /// It is not.
    White,
}

/// One frame: where the gauge stands, how far it is filled, and its color.
#[derive(Clone, Copy, Debug, PartialEq, Eq)]
pub struct Frame {
    pub area: ViewportRect,
    pub percent: u16,
    pub color: GaugeColor,
}

pub open spec fn gauge_color_spec(charging: bool) -> GaugeColor {
    if charging {
        GaugeColor::Green
    } else {
        GaugeColor::White
    }
}

/// Green while charging, white otherwise.
pub fn gauge_color(charging: bool) -> (color: GaugeColor)
    ensures
        color == gauge_color_spec(charging),
{
    if charging {
        GaugeColor::Green
    } else {
        GaugeColor::White
    }
}

/// The frame that shows `reading` in `viewport`. It depends on these two
/// alone: the fill is the reading's percentage, the color tells whether it is
/// charging, and the gauge stands in the centered rectangle of half the
/// viewport's width and three tenths of its height, inside the viewport.
pub fn render(reading: PowerReading, viewport: ViewportRect) -> (frame: Frame)
    requires
        reading.wf(),
    ensures
        frame.percent == reading.percent,
        frame.percent <= 100,
        frame.color == gauge_color_spec(reading.charging),
        frame.area == centered_rect_spec(viewport, GAUGE_PERCENT_WIDTH, GAUGE_PERCENT_HEIGHT),
        viewport.contains(frame.area),
{
    Frame {
        area: centered_rect(viewport, GAUGE_PERCENT_WIDTH, GAUGE_PERCENT_HEIGHT),
        percent: reading.percent,
        color: gauge_color(reading.charging),
    }
}

/// What happened to a key.
#[derive(Clone, Copy, Debug, PartialEq, Eq)]
pub enum KeyKind {
    Press,
    Repeat,
    Release,
}

/// Which key it was.
#[derive(Clone, Copy, Debug, PartialEq, Eq)]
pub enum Key {
    Char(char),
    Other,
}

/// A keyboard event.
#[derive(Clone, Copy, Debug, PartialEq, Eq)]
pub struct KeyInput {
    pub kind: KeyKind,
    pub key: Key,
}

impl KeyInput {
    /// A press of the quit key.
    pub open spec fn is_quit_spec(self) -> bool {
        self.kind == KeyKind::Press && self.key == Key::Char(QUIT_KEY)
    }

    /// Whether this input is a press of the quit key.
    pub fn is_quit(&self) -> (quit: bool)
        ensures
            quit == self.is_quit_spec(),
    {
        match (self.kind, self.key) {
            (KeyKind::Press, Key::Char(c)) => c == QUIT_KEY,
            _ => false,
        }
    }
}

/// The four phases of the dashboard's life.
#[derive(Clone, Copy, Debug, PartialEq, Eq)]
pub enum Phase {
    Initializing,
    Running,
    Draining,
    Terminated,
}

/// Where the dashboard stands: the phase, and within it the step whose
/// outcome is awaited.
#[derive(Clone, Copy, Debug, PartialEq, Eq)]
pub enum Stage {
    /// Initializing: the terminal session is being entered.
    EnteringSession,
    /// Initializing: the power source is being acquired and read.
    AcquiringProvider,
    /// Running: a frame is being drawn.
    Rendering,
    /// Running: input is being polled.
    Polling,
    /// Running: the power source is being read again.
    Refreshing,
    /// The terminal session is being released.
    Draining,
    /// Nothing is left to do.
    Terminated,
}

impl Stage {
    pub open spec fn phase_spec(self) -> Phase {
        match self {
            Stage::EnteringSession | Stage::AcquiringProvider => Phase::Initializing,
            Stage::Rendering | Stage::Polling | Stage::Refreshing => Phase::Running,
            Stage::Draining => Phase::Draining,
            Stage::Terminated => Phase::Terminated,
        }
    }

    /// The phase that this stage belongs to.
    pub fn phase(&self) -> (phase: Phase)
        ensures
            phase == self.phase_spec(),
    {
        match self {
            Stage::EnteringSession | Stage::AcquiringProvider => Phase::Initializing,
            Stage::Rendering | Stage::Polling | Stage::Refreshing => Phase::Running,
            Stage::Draining => Phase::Draining,
            Stage::Terminated => Phase::Terminated,
        }
    }
}

/// A failure that ends the dashboard.
#[derive(Clone, Copy, Debug, PartialEq, Eq)]
pub enum Failure {
    /// The terminal session could not be entered.
    Session,
    /// No power source was found, or it could not be read at startup.
    NoPowerSource,
    /// A frame could not be written to the terminal.
    Draw,
    /// Polling for input failed.
    Input,
}

/// What the caller reports back after it has performed an action.
#[derive(Clone, Copy, Debug, PartialEq, Eq)]
pub enum Event {
    SessionEntered,
    SessionFailed,
    ProviderReady(PowerReading),
    ProviderMissing,
    FrameDrawn,
    DrawFailed,
    /// A keyboard event arrived within the timeout.
    Key(KeyInput),
    /// The timeout passed without a keyboard event.
    NoInput,
    PollFailed,
    Refreshed(PowerReading),
    RefreshFailed,
    SessionReleased,
}

impl Event {
    /// A reading that the event carries is a percentage.
    pub open spec fn wf(self) -> bool {
        match self {
            Event::ProviderReady(r) => r.wf(),
            Event::Refreshed(r) => r.wf(),
            _ => true,
        }
    }

    /// A press of the quit key.
    pub open spec fn is_quit_key(self) -> bool {
        match self {
            Event::Key(k) => k.is_quit_spec(),
            _ => false,
        }
    }

    /// Whether a reading that the event carries is a percentage.
    pub fn is_wf(&self) -> (ok: bool)
        ensures
            ok == self.wf(),
    {
        match self {
            Event::ProviderReady(r) => r.is_wf(),
            Event::Refreshed(r) => r.is_wf(),
            _ => true,
        }
    }
}

/// What the caller is asked to do next.
#[derive(Clone, Copy, Debug, PartialEq, Eq)]
pub enum Action {
    /// Enter raw input mode and the alternate screen.
    EnterSession,
    /// Take the first power source and read it.
    AcquireProvider,
    /// Draw the frame that `render` gives for this reading and the current
    /// viewport.
    Draw(PowerReading),
    /// Wait for a keyboard event, for this many milliseconds at most.
    PollInput(u64),
    /// Read the power source again.
    Refresh,
    /// Leave the alternate screen and raw input mode.
    ReleaseSession,
    /// Stop, with this failure to report if there is one.
    Exit(Option<Failure>),
}

/// The loop's own mutable state.
#[derive(Clone, Copy, Debug, PartialEq, Eq)]
pub struct DashboardState {
    pub quit: bool,
}

/// The dashboard: its stage, its state, the latest reading and the failure
/// that ended it, if one did.
#[derive(Clone, Copy, Debug, PartialEq, Eq)]
pub struct Dashboard {
    pub stage: Stage,
    pub state: DashboardState,
    pub reading: Option<PowerReading>,
    pub failure: Option<Failure>,
}

/// The process's exit code: zero after a clean quit, one after a failure.
pub fn exit_code(failure: Option<Failure>) -> (code: u8)
    ensures
        code == (if failure is None { 0u8 } else { 1u8 }),
{
    match failure {
        None => 0,
        Some(_) => 1,
    }
}

impl Dashboard {
    /// The dashboard before anything has happened.
    pub open spec fn initial() -> Dashboard {
        Dashboard {
            stage: Stage::EnteringSession,
            state: DashboardState { quit: false },
            reading: None,
            failure: None,
        }
    }

    /// What holds of a dashboard at every moment: before the loop runs
    /// nothing is set; the loop runs only with a reading and without a
    /// failure, and renders and polls only while `quit` is unset; it is left
    /// only on `quit` or on a failure.
    pub open spec fn wf(self) -> bool {
        &&& match self.reading {
            Some(r) => r.wf(),
            None => true,
        }
        &&& match self.stage {
            Stage::EnteringSession | Stage::AcquiringProvider => {
                !self.state.quit && self.failure is None && self.reading is None
            },
            Stage::Rendering | Stage::Polling => {
                !self.state.quit && self.failure is None && self.reading is Some
            },
            Stage::Refreshing => self.failure is None && self.reading is Some,
            Stage::Draining | Stage::Terminated => self.state.quit || self.failure is Some,
        }
    }

    /// The dashboard with the loop left on `failure`.
    pub open spec fn failed(self, failure: Failure) -> Dashboard {
        Dashboard { stage: Stage::Draining, failure: Some(failure), ..self }
    }

    /// The dashboard at `stage`, all else unchanged.
    pub open spec fn at(self, stage: Stage) -> Dashboard {
        Dashboard { stage, ..self }
    }

    /// The dashboard after a refresh that gave `reading`, or none: the new
    /// reading replaces the old one, a missing one leaves it; the loop is
    /// left if `quit` is set, and renders again otherwise.
    pub open spec fn refreshed(self, reading: Option<PowerReading>) -> (Dashboard, Action) {
        let kept = match reading {
            Some(r) => Some(r),
            None => self.reading,
        };
        if self.state.quit {
            (Dashboard { stage: Stage::Draining, reading: kept, ..self }, Action::ReleaseSession)
        } else {
            (Dashboard { stage: Stage::Rendering, reading: kept, ..self }, Action::Draw(kept.unwrap()))
        }
    }

    /// The transition: the dashboard after `event`, and the action it asks
    /// for. An event that does not answer the awaited step changes nothing,
    /// and the step is asked for again.
    pub open spec fn step_spec(self, event: Event) -> (Dashboard, Action) {
        match self.stage {
            Stage::EnteringSession => match event {
                Event::SessionEntered => (self.at(Stage::AcquiringProvider), Action::AcquireProvider),
                Event::SessionFailed => (self.failed(Failure::Session), Action::ReleaseSession),
                _ => (self, Action::EnterSession),
            },
            Stage::AcquiringProvider => match event {
                Event::ProviderReady(r) => (
                    Dashboard { stage: Stage::Rendering, reading: Some(r), ..self },
                    Action::Draw(r),
                ),
                Event::ProviderMissing => (
                    self.failed(Failure::NoPowerSource),
                    Action::ReleaseSession,
                ),
                _ => (self, Action::AcquireProvider),
            },
            Stage::Rendering => match event {
                Event::FrameDrawn => (self.at(Stage::Polling), Action::PollInput(POLL_TIMEOUT_MS)),
                Event::DrawFailed => (self.failed(Failure::Draw), Action::ReleaseSession),
                _ => (self, Action::Draw(self.reading.unwrap())),
            },
            Stage::Polling => match event {
                Event::Key(k) => (
                    Dashboard {
                        stage: Stage::Refreshing,
                        state: DashboardState { quit: k.is_quit_spec() },
                        ..self
                    },
                    Action::Refresh,
                ),
                Event::NoInput => (self.at(Stage::Refreshing), Action::Refresh),
                Event::PollFailed => (self.failed(Failure::Input), Action::ReleaseSession),
                _ => (self, Action::PollInput(POLL_TIMEOUT_MS)),
            },
            Stage::Refreshing => match event {
                Event::Refreshed(r) => self.refreshed(Some(r)),
                Event::RefreshFailed => self.refreshed(None),
                _ => (self, Action::Refresh),
            },
            Stage::Draining => (self.at(Stage::Terminated), Action::Exit(self.failure)),
            Stage::Terminated => (self, Action::Exit(self.failure)),
        }
    }

    /// Whether the dashboard is well-formed.
    pub fn is_wf(&self) -> (ok: bool)
        ensures
            ok == self.wf(),
    {
        let reading_ok = match self.reading {
            Some(r) => r.is_wf(),
            None => true,
        };
        let stage_ok = match self.stage {
            Stage::EnteringSession | Stage::AcquiringProvider => {
                !self.state.quit && self.failure.is_none() && self.reading.is_none()
            },
            Stage::Rendering | Stage::Polling => {
                !self.state.quit && self.failure.is_none() && self.reading.is_some()
            },
            Stage::Refreshing => self.failure.is_none() && self.reading.is_some(),
            Stage::Draining | Stage::Terminated => self.state.quit || self.failure.is_some(),
        };
        reading_ok && stage_ok
    }

    /// A new dashboard, and the first action it asks for.
    pub fn new() -> (start: (Dashboard, Action))
        ensures
            start == (Dashboard::initial(), Action::EnterSession),
            start.0.wf(),
    {
        (
            Dashboard {
                stage: Stage::EnteringSession,
                state: DashboardState { quit: false },
                reading: None,
                failure: None,
            },
            Action::EnterSession,
        )
    }

    /// Whether the loop has been told to end.
    pub fn should_quit(&self) -> (quit: bool)
        ensures
            quit == self.state.quit,
    {
        self.state.quit
    }

    fn fail(self, failure: Failure) -> (next: (Dashboard, Action))
        ensures
            next == (self.failed(failure), Action::ReleaseSession),
    {
        (
            Dashboard {
                stage: Stage::Draining,
                state: self.state,
                reading: self.reading,
                failure: Some(failure),
            },
            Action::ReleaseSession,
        )
    }

    fn go(self, stage: Stage, action: Action) -> (next: (Dashboard, Action))
        ensures
            next == (self.at(stage), action),
    {
        (
            Dashboard { stage, state: self.state, reading: self.reading, failure: self.failure },
            action,
        )
    }

    fn after_refresh(self, reading: Option<PowerReading>) -> (next: (Dashboard, Action))
        requires
            self.reading is Some || reading is Some,
        ensures
            next == self.refreshed(reading),
    {
        let kept = match reading {
            Some(r) => Some(r),
            None => self.reading,
        };
        let stage = if self.state.quit {
            Stage::Draining
        } else {
            Stage::Rendering
        };
        let action = if self.state.quit {
            Action::ReleaseSession
        } else {
            Action::Draw(kept.unwrap())
        };
        (Dashboard { stage, state: self.state, reading: kept, failure: self.failure }, action)
    }

    /// Takes the outcome of the last action and decides what comes next.
    ///
    /// `quit` is set by a press of the quit key that arrives while input is
    /// polled, and by nothing else; once set it stays set. A failed refresh
    /// keeps the last reading and ends nothing. The session's release is
    /// asked for on the step that leaves the loop or the startup, and on no
    /// other.
    pub fn step(self, event: Event) -> (next: (Dashboard, Action))
        requires
            self.wf(),
            event.wf(),
        ensures
            next == self.step_spec(event),
            next.0.wf(),
            next.0.state.quit == (self.state.quit || (self.stage == Stage::Polling
                && event.is_quit_key())),
            next.1 == Action::ReleaseSession <==> (next.0.stage == Stage::Draining && self.stage
                != Stage::Draining),
            event == Event::RefreshFailed ==> next.0.reading == self.reading && next.0.failure
                == self.failure,
    {
        match self.stage {
            Stage::EnteringSession => match event {
                Event::SessionEntered => self.go(Stage::AcquiringProvider, Action::AcquireProvider),
                Event::SessionFailed => self.fail(Failure::Session),
                _ => (self, Action::EnterSession),
            },
            Stage::AcquiringProvider => match event {
                Event::ProviderReady(r) => (
                    Dashboard {
                        stage: Stage::Rendering,
                        state: self.state,
                        reading: Some(r),
                        failure: self.failure,
                    },
                    Action::Draw(r),
                ),
                Event::ProviderMissing => self.fail(Failure::NoPowerSource),
                _ => (self, Action::AcquireProvider),
            },
            Stage::Rendering => match event {
                Event::FrameDrawn => self.go(Stage::Polling, Action::PollInput(POLL_TIMEOUT_MS)),
                Event::DrawFailed => self.fail(Failure::Draw),
                _ => (self, Action::Draw(self.reading.unwrap())),
            },
            Stage::Polling => match event {
                Event::Key(k) => (
                    Dashboard {
                        stage: Stage::Refreshing,
                        state: DashboardState { quit: k.is_quit() },
                        reading: self.reading,
                        failure: self.failure,
                    },
                    Action::Refresh,
                ),
                Event::NoInput => self.go(Stage::Refreshing, Action::Refresh),
                Event::PollFailed => self.fail(Failure::Input),
                _ => (self, Action::PollInput(POLL_TIMEOUT_MS)),
            },
            Stage::Refreshing => match event {
                Event::Refreshed(r) => self.after_refresh(Some(r)),
                Event::RefreshFailed => self.after_refresh(None),
                _ => (self, Action::Refresh),
            },
            Stage::Draining => self.go(Stage::Terminated, Action::Exit(self.failure)),
            Stage::Terminated => (self, Action::Exit(self.failure)),
        }
    }
}

} // verus!
