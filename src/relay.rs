//! The relay as a state machine: `step` takes the current phase and one input
//! (a window event or the answer to a query) and returns the next phase and
//! the commands for the host to carry out, in order.
use vstd::prelude::*;

verus! {

/// Channel of the notification that the scale factor changed.
pub const DPI_CHANGED_CHANNEL: &'static str = "app://dpi-changed";

/// Channel of the notification of the window's fullscreen and maximized flags.
pub const WINDOW_STATE_CHANNEL: &'static str = "app://window-state";

/// A window event as the host reports it. `F` is the host's scale factor.
#[derive(Clone, Copy, Debug, PartialEq)]
pub enum WindowEventKind<F> {
    ScaleFactorChanged(F),
    Resized,
    Other,
}

/// Payload of the `window-state` notification, without the window label.
#[derive(Clone, Copy, Debug, PartialEq, Eq)]
pub struct WindowState {
    pub fullscreen: bool,
    pub maximized: bool,
}

/// Payload of the `dpi-changed` notification, without the window label.
/// `S` is the host's logical size; `None` when the size query failed.
#[derive(Clone, Copy, Debug, PartialEq)]
pub struct DpiChange<F, S> {
    pub scale_factor: F,
    pub logical_size: Option<S>,
}

/// What the relay is waiting for.
#[derive(Clone, Copy, Debug, PartialEq)]
pub enum Phase<F> {
    /// No event in progress.
    Idle,
    /// The window size, converted to logical units with this scale factor.
    AwaitingLogicalSize(F),
    /// Whether the window is fullscreen.
    AwaitingFullscreen,
    /// Whether the window is maximized; holds the fullscreen flag already known.
    AwaitingMaximized(bool),
}

/// An input to the relay: an event, or the answer to the last query
/// (`None` where the host could not answer).
#[derive(Clone, Copy, Debug, PartialEq)]
pub enum Input<F, S> {
    Event(WindowEventKind<F>),
    LogicalSize(Option<S>),
    Fullscreen(Option<bool>),
    Maximized(Option<bool>),
}

/// A command for the host. Queries are answered with the matching `Input`;
/// the other commands are fire-and-forget, and their failures are ignored.
#[derive(Clone, Copy, Debug, PartialEq)]
pub enum Command<F, S> {
    /// Read the window's physical size and convert it to logical units with
    /// this scale factor; answered by `Input::LogicalSize`.
    ReadLogicalSize(F),
    /// Apply this logical size to the window.
    SetSize(S),
    /// Publish on the `dpi-changed` channel.
    PublishDpiChanged(DpiChange<F, S>),
    /// Ask whether the window is fullscreen; answered by `Input::Fullscreen`.
    QueryFullscreen,
    /// Ask whether the window is maximized; answered by `Input::Maximized`.
    QueryMaximized,
    /// Publish on the `window-state` channel.
    PublishWindowState(WindowState),
}

/// A boolean query's answer, where no answer counts as `false`.
pub open spec fn or_false(answer: Option<bool>) -> bool {
    answer == Some(true)
}

/// The answer of a boolean host query, `false` where the host could not answer.
pub fn answer_or_false(answer: Option<bool>) -> (r: bool)
    ensures
        r == or_false(answer),
{
    match answer {
        Some(b) => b,
        None => false,
    }
}

impl WindowState {
    pub open spec fn from_answers_spec(fullscreen: Option<bool>, maximized: Option<bool>) -> WindowState {
        WindowState { fullscreen: or_false(fullscreen), maximized: or_false(maximized) }
    }

    /// The window state from the answers of the two queries; a failed query
    /// gives `false`, never an error.
    pub fn from_answers(fullscreen: Option<bool>, maximized: Option<bool>) -> (r: WindowState)
        ensures
            r == Self::from_answers_spec(fullscreen, maximized),
    {
        WindowState { fullscreen: answer_or_false(fullscreen), maximized: answer_or_false(maximized) }
    }
}

/// The size to apply after a scale-factor change: the converted size if the
/// query succeeded, nothing otherwise.
pub open spec fn resize_commands<F, S>(size: Option<S>) -> Seq<Command<F, S>> {
    match size {
        Some(s) => seq![Command::SetSize(s)],
        None => Seq::empty(),
    }
}

/// One transition of the relay. An input that does not fit the phase is
/// ignored.
pub open spec fn step_spec<F, S>(phase: Phase<F>, input: Input<F, S>) -> (Phase<F>, Seq<Command<F, S>>) {
    match (phase, input) {
        (Phase::Idle, Input::Event(WindowEventKind::ScaleFactorChanged(f))) =>
            (Phase::AwaitingLogicalSize(f), seq![Command::ReadLogicalSize(f)]),
        (Phase::Idle, Input::Event(WindowEventKind::Resized)) =>
            (Phase::AwaitingFullscreen, seq![Command::QueryFullscreen]),
        (Phase::AwaitingLogicalSize(f), Input::LogicalSize(size)) => (
            Phase::AwaitingFullscreen,
            resize_commands(size) + seq![
                Command::PublishDpiChanged(DpiChange { scale_factor: f, logical_size: size }),
                Command::QueryFullscreen,
            ],
        ),
        (Phase::AwaitingFullscreen, Input::Fullscreen(a)) =>
            (Phase::AwaitingMaximized(or_false(a)), seq![Command::QueryMaximized]),
        (Phase::AwaitingMaximized(fs), Input::Maximized(a)) => (
            Phase::Idle,
            seq![Command::PublishWindowState(WindowState { fullscreen: fs, maximized: or_false(a) })],
        ),
        _ => (phase, Seq::empty()),
    }
}

/// Takes one input in the given phase; returns the next phase and the
/// commands to carry out, in order.
pub fn step<F: Copy, S: Copy>(phase: Phase<F>, input: Input<F, S>) -> (r: (Phase<F>, Vec<Command<F, S>>))
    ensures
        (r.0, r.1@) == step_spec(phase, input),
{
    let mut cmds: Vec<Command<F, S>> = Vec::new();
    match (phase, input) {
        (Phase::Idle, Input::Event(WindowEventKind::ScaleFactorChanged(f))) => {
            cmds.push(Command::ReadLogicalSize(f));
            (Phase::AwaitingLogicalSize(f), cmds)
        },
        (Phase::Idle, Input::Event(WindowEventKind::Resized)) => {
            cmds.push(Command::QueryFullscreen);
            (Phase::AwaitingFullscreen, cmds)
        },
        (Phase::AwaitingLogicalSize(f), Input::LogicalSize(size)) => {
            if let Some(s) = size {
                cmds.push(Command::SetSize(s));
            }
            cmds.push(Command::PublishDpiChanged(DpiChange { scale_factor: f, logical_size: size }));
            cmds.push(Command::QueryFullscreen);
            assert(cmds@ =~= resize_commands(size) + seq![
                Command::PublishDpiChanged(DpiChange { scale_factor: f, logical_size: size }),
                Command::QueryFullscreen,
            ]);
            (Phase::AwaitingFullscreen, cmds)
        },
        (Phase::AwaitingFullscreen, Input::Fullscreen(a)) => {
            cmds.push(Command::QueryMaximized);
            (Phase::AwaitingMaximized(answer_or_false(a)), cmds)
        },
        (Phase::AwaitingMaximized(fs), Input::Maximized(a)) => {
            cmds.push(Command::PublishWindowState(WindowState { fullscreen: fs, maximized: answer_or_false(a) }));
            (Phase::Idle, cmds)
        },
        _ => {
            assert(cmds@ =~= Seq::<Command<F, S>>::empty());
            (phase, cmds)
        },
    }
}

} // verus!
