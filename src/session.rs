//! What the relay does over one whole event: the host answers each query as
//! it comes, and the laws below state the commands that result.
use vstd::prelude::*;
use crate::relay::{Command, DpiChange, Input, Phase, WindowEventKind, WindowState, resize_commands, step_spec};

verus! {

/// The input with which a host answers a command, given its answers to the
/// size, fullscreen and maximized queries; `None` for a command that is no query.
pub open spec fn reply<F, S>(
    c: Command<F, S>,
    size: Option<S>,
    fullscreen: Option<bool>,
    maximized: Option<bool>,
) -> Option<Input<F, S>> {
    match c {
        Command::ReadLogicalSize(_) => Some(Input::LogicalSize(size)),
        Command::QueryFullscreen => Some(Input::Fullscreen(fullscreen)),
        Command::QueryMaximized => Some(Input::Maximized(maximized)),
        _ => None,
    }
}

/// How many answers a phase still waits for before the relay is idle again.
pub open spec fn pending<F>(phase: Phase<F>) -> nat {
    match phase {
        Phase::Idle => 0,
        Phase::AwaitingMaximized(_) => 1,
        Phase::AwaitingFullscreen => 2,
        Phase::AwaitingLogicalSize(_) => 3,
    }
}

/// The commands that follow `cmds` when the host answers the last of them,
/// and each query after it, with the given answers.
pub open spec fn follow<F, S>(
    phase: Phase<F>,
    cmds: Seq<Command<F, S>>,
    size: Option<S>,
    fullscreen: Option<bool>,
    maximized: Option<bool>,
) -> Seq<Command<F, S>>
    decreases pending(phase),
{
    if cmds.len() > 0 && reply(cmds.last(), size, fullscreen, maximized) is Some {
        let next = step_spec(phase, reply(cmds.last(), size, fullscreen, maximized)->Some_0);
        if pending(next.0) < pending(phase) {
            next.1 + follow(next.0, next.1, size, fullscreen, maximized)
        } else {
            next.1
        }
    } else {
        Seq::empty()
    }
}

/// All commands for one event that reaches an idle relay, where the host
/// answers the size, fullscreen and maximized queries as given.
pub open spec fn session<F, S>(
    event: WindowEventKind<F>,
    size: Option<S>,
    fullscreen: Option<bool>,
    maximized: Option<bool>,
) -> Seq<Command<F, S>> {
    let first = step_spec(Phase::Idle, Input::Event(event));
    first.1 + follow(first.0, first.1, size, fullscreen, maximized)
}

pub open spec fn is_publish<F, S>(c: Command<F, S>) -> bool {
    c is PublishDpiChanged || c is PublishWindowState
}

/// The notifications among the commands, in order.
pub open spec fn publishes<F, S>(cmds: Seq<Command<F, S>>) -> Seq<Command<F, S>> {
    cmds.filter(|c: Command<F, S>| is_publish(c))
}

/// The commands of a scale-factor change: read the size converted with the
/// new factor, apply it if the read succeeded, publish `dpi-changed`, then
/// query both flags and publish `window-state`.
pub proof fn lemma_scale_change_session<F, S>(
    f: F,
    size: Option<S>,
    fullscreen: Option<bool>,
    maximized: Option<bool>,
)
    ensures
        session(WindowEventKind::ScaleFactorChanged(f), size, fullscreen, maximized)
            == seq![Command::<F, S>::ReadLogicalSize(f)] + resize_commands(size) + seq![
                Command::PublishDpiChanged(DpiChange { scale_factor: f, logical_size: size }),
                Command::QueryFullscreen,
                Command::QueryMaximized,
                Command::PublishWindowState(WindowState::from_answers_spec(fullscreen, maximized)),
            ],
{
    let c0 = seq![Command::<F, S>::ReadLogicalSize(f)];
    let c1 = resize_commands::<F, S>(size) + seq![
        Command::PublishDpiChanged(DpiChange { scale_factor: f, logical_size: size }),
        Command::QueryFullscreen,
    ];
    let c2 = seq![Command::<F, S>::QueryMaximized];
    let c3 = seq![Command::<F, S>::PublishWindowState(WindowState::from_answers_spec(fullscreen, maximized))];
    assert(c1.last() == Command::<F, S>::QueryFullscreen);
    assert(follow(Phase::Idle, c3, size, fullscreen, maximized) =~= Seq::empty());
    assert(follow(Phase::AwaitingMaximized(crate::relay::or_false(fullscreen)), c2, size, fullscreen, maximized) =~= c3);
    assert(follow(Phase::AwaitingFullscreen, c1, size, fullscreen, maximized) =~= c2 + c3);
    assert(follow(Phase::AwaitingLogicalSize(f), c0, size, fullscreen, maximized) =~= c1 + c2 + c3);
    assert(session(WindowEventKind::ScaleFactorChanged(f), size, fullscreen, maximized) =~= c0 + c1 + c2 + c3);
}

/// When the size query succeeds, a scale-factor change applies the size
/// converted with the new factor, and `dpi-changed` carries that same size
/// and factor.
pub proof fn lemma_converted_size_applied<F, S>(
    f: F,
    s: S,
    fullscreen: Option<bool>,
    maximized: Option<bool>,
)
    ensures
        session(WindowEventKind::ScaleFactorChanged(f), Some(s), fullscreen, maximized) == seq![
            Command::ReadLogicalSize(f),
            Command::SetSize(s),
            Command::PublishDpiChanged(DpiChange { scale_factor: f, logical_size: Some(s) }),
            Command::QueryFullscreen,
            Command::QueryMaximized,
            Command::PublishWindowState(WindowState::from_answers_spec(fullscreen, maximized)),
        ],
{
    lemma_scale_change_session(f, Some(s), fullscreen, maximized);
    assert(session(WindowEventKind::ScaleFactorChanged(f), Some(s), fullscreen, maximized) =~= seq![
        Command::ReadLogicalSize(f),
        Command::SetSize(s),
        Command::PublishDpiChanged(DpiChange { scale_factor: f, logical_size: Some(s) }),
        Command::QueryFullscreen,
        Command::QueryMaximized,
        Command::PublishWindowState(WindowState::from_answers_spec(fullscreen, maximized)),
    ]);
}

/// When the size query fails, a scale-factor change leaves the window's size
/// alone and `dpi-changed` carries no logical size.
pub proof fn lemma_failed_size_query_keeps_size<F, S>(
    f: F,
    fullscreen: Option<bool>,
    maximized: Option<bool>,
)
    ensures
        session(WindowEventKind::ScaleFactorChanged(f), None::<S>, fullscreen, maximized) == seq![
            Command::<F, S>::ReadLogicalSize(f),
            Command::PublishDpiChanged(DpiChange { scale_factor: f, logical_size: None }),
            Command::QueryFullscreen,
            Command::QueryMaximized,
            Command::PublishWindowState(WindowState::from_answers_spec(fullscreen, maximized)),
        ],
        forall|i: int|
            0 <= i < session(WindowEventKind::ScaleFactorChanged(f), None::<S>, fullscreen, maximized).len()
                ==> !(#[trigger] session(WindowEventKind::ScaleFactorChanged(f), None::<S>, fullscreen, maximized)[i] is SetSize),
{
    lemma_scale_change_session(f, None::<S>, fullscreen, maximized);
    assert(session(WindowEventKind::ScaleFactorChanged(f), None::<S>, fullscreen, maximized) =~= seq![
        Command::ReadLogicalSize(f),
        Command::PublishDpiChanged(DpiChange { scale_factor: f, logical_size: None }),
        Command::QueryFullscreen,
        Command::QueryMaximized,
        Command::PublishWindowState(WindowState::from_answers_spec(fullscreen, maximized)),
    ]);
}

/// A scale-factor change publishes exactly twice: `dpi-changed`, then
/// `window-state`.
pub proof fn lemma_scale_change_publishes<F, S>(
    f: F,
    size: Option<S>,
    fullscreen: Option<bool>,
    maximized: Option<bool>,
)
    ensures
        publishes(session(WindowEventKind::ScaleFactorChanged(f), size, fullscreen, maximized)) == seq![
            Command::PublishDpiChanged(DpiChange { scale_factor: f, logical_size: size }),
            Command::PublishWindowState(WindowState::from_answers_spec(fullscreen, maximized)),
        ],
{
    broadcast use Seq::lemma_filter_push;
    reveal_with_fuel(Seq::filter, 2);
    lemma_scale_change_session(f, size, fullscreen, maximized);
    let all = session(WindowEventKind::ScaleFactorChanged(f), size, fullscreen, maximized);
    let dpi = Command::<F, S>::PublishDpiChanged(DpiChange { scale_factor: f, logical_size: size });
    let state = Command::<F, S>::PublishWindowState(WindowState::from_answers_spec(fullscreen, maximized));
    let head = seq![Command::<F, S>::ReadLogicalSize(f)] + resize_commands(size);
    assert(head.filter(|c: Command<F, S>| is_publish(c)) =~= Seq::empty()) by {
        match size {
            Some(s) => assert(head =~= seq![Command::<F, S>::ReadLogicalSize(f)].push(Command::SetSize(s))),
            None => assert(head =~= seq![Command::<F, S>::ReadLogicalSize(f)]),
        }
    }
    assert(all =~= head.push(dpi).push(Command::QueryFullscreen).push(Command::QueryMaximized).push(state));
}

/// A resize publishes `window-state` once and nothing else.
pub proof fn lemma_resize_publishes<F, S>(size: Option<S>, fullscreen: Option<bool>, maximized: Option<bool>)
    ensures
        session(WindowEventKind::<F>::Resized, size, fullscreen, maximized) == seq![
            Command::<F, S>::QueryFullscreen,
            Command::QueryMaximized,
            Command::PublishWindowState(WindowState::from_answers_spec(fullscreen, maximized)),
        ],
        publishes(session(WindowEventKind::<F>::Resized, size, fullscreen, maximized)) == seq![
            Command::<F, S>::PublishWindowState(WindowState::from_answers_spec(fullscreen, maximized)),
        ],
{
    broadcast use Seq::lemma_filter_push;
    reveal_with_fuel(Seq::filter, 2);
    let c1 = seq![Command::<F, S>::QueryFullscreen];
    let c2 = seq![Command::<F, S>::QueryMaximized];
    let c3 = seq![Command::<F, S>::PublishWindowState(WindowState::from_answers_spec(fullscreen, maximized))];
    assert(follow(Phase::Idle, c3, size, fullscreen, maximized) =~= Seq::empty());
    assert(follow(Phase::AwaitingMaximized(crate::relay::or_false(fullscreen)), c2, size, fullscreen, maximized) =~= c3);
    assert(follow(Phase::<F>::AwaitingFullscreen, c1, size, fullscreen, maximized) =~= c2 + c3);
    let all = session(WindowEventKind::<F>::Resized, size, fullscreen, maximized);
    assert(all =~= c1 + c2 + c3);
    assert(all =~= Seq::empty().push(Command::QueryFullscreen).push(Command::QueryMaximized).push(c3[0]));
}

/// Any other event does nothing: no command, no publish.
pub proof fn lemma_other_event_silent<F, S>(size: Option<S>, fullscreen: Option<bool>, maximized: Option<bool>)
    ensures
        session(WindowEventKind::<F>::Other, size, fullscreen, maximized) == Seq::<Command<F, S>>::empty(),
        publishes(session(WindowEventKind::<F>::Other, size, fullscreen, maximized)) == Seq::<Command<F, S>>::empty(),
{
    reveal_with_fuel(Seq::filter, 1);
    assert(session(WindowEventKind::<F>::Other, size, fullscreen, maximized) =~= Seq::<Command<F, S>>::empty());
}

} // verus!
