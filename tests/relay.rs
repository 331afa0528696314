use window_relay::relay::{
    answer_or_false, step, Command, DpiChange, Input, Phase, WindowEventKind, WindowState,
};

type Size = (f64, f64);

/// Answers the relay's queries as a host would: the physical size is divided
/// by the scale factor, the flags are handed over as given.
fn run(
    event: WindowEventKind<f64>,
    physical: Option<(u32, u32)>,
    fullscreen: Option<bool>,
    maximized: Option<bool>,
) -> (Phase<f64>, Vec<Command<f64, Size>>) {
    let (mut phase, mut pending) = step::<f64, Size>(Phase::Idle, Input::Event(event));
    let mut all = Vec::new();
    loop {
        all.extend(pending.iter().copied());
        let answer = match pending.last() {
            Some(Command::ReadLogicalSize(f)) => {
                Input::LogicalSize(physical.map(|(w, h)| (w as f64 / f, h as f64 / f)))
            }
            Some(Command::QueryFullscreen) => Input::Fullscreen(fullscreen),
            Some(Command::QueryMaximized) => Input::Maximized(maximized),
            _ => return (phase, all),
        };
        let next = step(phase, answer);
        phase = next.0;
        pending = next.1;
    }
}

fn publishes(cmds: &[Command<f64, Size>]) -> Vec<Command<f64, Size>> {
    cmds.iter()
        .copied()
        .filter(|c| matches!(c, Command::PublishDpiChanged(_) | Command::PublishWindowState(_)))
        .collect()
}

#[test]
fn scale_change_to_two_halves_the_size() {
    let (phase, cmds) = run(WindowEventKind::ScaleFactorChanged(2.0), Some((800, 600)), Some(false), Some(false));
    assert_eq!(phase, Phase::Idle);
    assert_eq!(
        cmds,
        vec![
            Command::ReadLogicalSize(2.0),
            Command::SetSize((400.0, 300.0)),
            Command::PublishDpiChanged(DpiChange { scale_factor: 2.0, logical_size: Some((400.0, 300.0)) }),
            Command::QueryFullscreen,
            Command::QueryMaximized,
            Command::PublishWindowState(WindowState { fullscreen: false, maximized: false }),
        ]
    );
}

#[test]
fn failed_size_query_leaves_size_alone() {
    let (_, cmds) = run(WindowEventKind::ScaleFactorChanged(1.5), None, Some(true), None);
    assert!(!cmds.iter().any(|c| matches!(c, Command::SetSize(_))));
    assert_eq!(
        publishes(&cmds),
        vec![
            Command::PublishDpiChanged(DpiChange { scale_factor: 1.5, logical_size: None }),
            Command::PublishWindowState(WindowState { fullscreen: true, maximized: false }),
        ]
    );
}

#[test]
fn scale_change_publishes_dpi_then_state() {
    let (_, cmds) = run(WindowEventKind::ScaleFactorChanged(1.25), Some((1000, 500)), Some(false), Some(true));
    assert_eq!(
        publishes(&cmds),
        vec![
            Command::PublishDpiChanged(DpiChange { scale_factor: 1.25, logical_size: Some((800.0, 400.0)) }),
            Command::PublishWindowState(WindowState { fullscreen: false, maximized: true }),
        ]
    );
}

#[test]
fn resize_while_maximized_not_fullscreen() {
    let (phase, cmds) = run(WindowEventKind::Resized, None, Some(false), Some(true));
    assert_eq!(phase, Phase::Idle);
    assert_eq!(
        cmds,
        vec![
            Command::QueryFullscreen,
            Command::QueryMaximized,
            Command::PublishWindowState(WindowState { fullscreen: false, maximized: true }),
        ]
    );
}

#[test]
fn resize_with_failed_fullscreen_query() {
    let (_, cmds) = run(WindowEventKind::Resized, None, None, Some(false));
    assert_eq!(
        publishes(&cmds),
        vec![Command::PublishWindowState(WindowState { fullscreen: false, maximized: false })]
    );
}

#[test]
fn resize_with_both_queries_failed() {
    let (_, cmds) = run(WindowEventKind::Resized, Some((10, 10)), None, None);
    assert_eq!(
        publishes(&cmds),
        vec![Command::PublishWindowState(WindowState { fullscreen: false, maximized: false })]
    );
}

#[test]
fn other_event_does_nothing() {
    let (phase, cmds) = run(WindowEventKind::Other, Some((800, 600)), Some(true), Some(true));
    assert_eq!(phase, Phase::Idle);
    assert!(cmds.is_empty());
}

#[test]
fn answer_that_does_not_fit_is_ignored() {
    let (phase, cmds) = step::<f64, Size>(Phase::AwaitingFullscreen, Input::Maximized(Some(true)));
    assert_eq!(phase, Phase::AwaitingFullscreen);
    assert!(cmds.is_empty());
    let (phase, cmds) = step::<f64, Size>(Phase::Idle, Input::LogicalSize(Some((1.0, 1.0))));
    assert_eq!(phase, Phase::Idle);
    assert!(cmds.is_empty());
}

#[test]
fn fullscreen_answer_is_kept_until_maximized_answer() {
    let (phase, cmds) = step::<f64, Size>(Phase::AwaitingFullscreen, Input::Fullscreen(Some(true)));
    assert_eq!(phase, Phase::AwaitingMaximized(true));
    assert_eq!(cmds, vec![Command::QueryMaximized]);
    let (phase, cmds) = step::<f64, Size>(phase, Input::Maximized(Some(true)));
    assert_eq!(phase, Phase::Idle);
    assert_eq!(cmds, vec![Command::PublishWindowState(WindowState { fullscreen: true, maximized: true })]);
}

#[test]
fn failed_queries_count_as_false() {
    assert!(!answer_or_false(None));
    assert!(!answer_or_false(Some(false)));
    assert!(answer_or_false(Some(true)));
    assert_eq!(
        WindowState::from_answers(None, Some(true)),
        WindowState { fullscreen: false, maximized: true }
    );
    assert_eq!(
        WindowState::from_answers(Some(true), None),
        WindowState { fullscreen: true, maximized: false }
    );
}

#[test]
fn channel_names() {
    assert_eq!(window_relay::relay::DPI_CHANGED_CHANNEL, "app://dpi-changed");
    assert_eq!(window_relay::relay::WINDOW_STATE_CHANNEL, "app://window-state");
}
