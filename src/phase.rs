use vstd::prelude::*;

verus! {

/// Lifecycle phase of the client: running, asking whether to quit, or done.
#[derive(Clone, Copy, Debug, PartialEq, Eq, Structural)]
pub enum AppState {
    Running,
    Quitting,
    Quit,
}

/// What may move the phase machine.
#[derive(Clone, Copy, Debug, PartialEq, Eq, Structural)]
pub enum PhaseEvent {
    QuitRequest,
    Confirm,
    Cancel,
}

/// Whether key presses go to the navigation keymap or into the chat editor.
#[derive(Clone, Copy, Debug, PartialEq, Eq, Structural)]
pub enum InputMode {
    Normal,
    Editing,
}

/// Whether the tab list is shown beside the feed.
#[derive(Clone, Copy, Debug, PartialEq, Eq, Structural)]
pub enum SliderBarState {
    Normal,
    Hiding,
}

/// One transition of the phase machine.
pub open spec fn phase_step(p: AppState, e: PhaseEvent) -> AppState {
    match e {
        PhaseEvent::QuitRequest => match p {
            AppState::Running => AppState::Quitting,
            AppState::Quitting => AppState::Quit,
            AppState::Quit => AppState::Quit,
        },
        PhaseEvent::Confirm => if p == AppState::Quitting {
            AppState::Quit
        } else {
            p
        },
        PhaseEvent::Cancel => if p == AppState::Quitting {
            AppState::Running
        } else {
            p
        },
    }
}

/// The phase reached from `p` after the events `es`, in order.
pub open spec fn phase_run(p: AppState, es: Seq<PhaseEvent>) -> AppState
    decreases es.len(),
{
    if es.len() == 0 {
        p
    } else {
        phase_run(phase_step(p, es[0]), es.drop_first())
    }
}

pub open spec fn toggled(s: SliderBarState) -> SliderBarState {
    match s {
        SliderBarState::Normal => SliderBarState::Hiding,
        SliderBarState::Hiding => SliderBarState::Normal,
    }
}

impl AppState {
    /// The phase after event `e`.
    pub fn step(self, e: PhaseEvent) -> (r: AppState)
        ensures
            r == phase_step(self, e),
    {
        match e {
            PhaseEvent::QuitRequest => match self {
                AppState::Running => AppState::Quitting,
                AppState::Quitting => AppState::Quit,
                AppState::Quit => AppState::Quit,
            },
            PhaseEvent::Confirm => match self {
                AppState::Quitting => AppState::Quit,
                _ => self,
            },
            PhaseEvent::Cancel => match self {
                AppState::Quitting => AppState::Running,
                _ => self,
            },
        }
    }
}

impl Default for AppState {
    fn default() -> (r: AppState)
        ensures
            r == AppState::Running,
    {
        AppState::Running
    }
}

impl Default for InputMode {
    fn default() -> (r: InputMode)
        ensures
            r == InputMode::Normal,
    {
        InputMode::Normal
    }
}

impl Default for SliderBarState {
    fn default() -> (r: SliderBarState)
        ensures
            r == SliderBarState::Normal,
    {
        SliderBarState::Normal
    }
}

impl SliderBarState {
    /// The other visibility.
    pub fn toggle(self) -> (r: SliderBarState)
        ensures
            r == toggled(self),
    {
        match self {
            SliderBarState::Normal => SliderBarState::Hiding,
            SliderBarState::Hiding => SliderBarState::Normal,
        }
    }
}

/// Two quit requests take a running client to `Quit`; a cancel while the quit
/// is being confirmed returns to `Running`; every run of events ends in one of
/// the three phases, and once `Quit` is reached no event leaves it.
pub proof fn lemma_phase_machine(p: AppState, es: Seq<PhaseEvent>)
    ensures
        phase_run(AppState::Running, seq![PhaseEvent::QuitRequest, PhaseEvent::QuitRequest])
            == AppState::Quit,
        phase_step(AppState::Quitting, PhaseEvent::Cancel) == AppState::Running,
        phase_run(p, es) == AppState::Running || phase_run(p, es) == AppState::Quitting
            || phase_run(p, es) == AppState::Quit,
        phase_run(AppState::Quit, es) == AppState::Quit,
    decreases es.len(),
{
    let two = seq![PhaseEvent::QuitRequest, PhaseEvent::QuitRequest];
    assert(two.drop_first() =~= seq![PhaseEvent::QuitRequest]);
    assert(two.drop_first().drop_first() =~= Seq::<PhaseEvent>::empty());
    assert(phase_run(AppState::Quit, two.drop_first().drop_first()) == AppState::Quit);
    assert(phase_run(AppState::Quitting, two.drop_first()) == AppState::Quit);
    if es.len() > 0 {
        lemma_phase_machine(phase_step(p, es[0]), es.drop_first());
    }
}

} // verus!
