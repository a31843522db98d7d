use vstd::prelude::*;

verus! {

/// Where the terminal front end stands.
#[derive(Debug, Clone, Copy, PartialEq, Eq, Structural)]
pub enum TuiState {
    /// Nothing done yet; the terminal check comes first.
    Start,
    /// Standard output is a terminal; raw mode and the alternate screen are being entered.
    Entering,
    /// The screen is up: samples are drained, the screen drawn and input polled.
    Running,
    /// The front end has returned.
    Done,
}

/// What one poll of the terminal brought.
#[derive(Debug, Clone, Copy, PartialEq, Eq, Structural)]
pub enum TuiInput {
    /// A key was pressed.
    KeyPress,
    /// A key event other than a press (a release or a repeat).
    KeyOther,
    /// A mouse event.
    Mouse,
    /// Any other terminal event (a resize, a paste, focus).
    Other,
    /// The poll timed out with no event.
    Nothing,
}

/// What the surrounding program reports back after doing an action.
#[derive(Debug, Clone, Copy, PartialEq, Eq, Structural)]
pub enum TuiEvent {
    /// Whether standard output is a terminal.
    TtyChecked(bool),
    /// Raw mode, the alternate screen and mouse capture are on.
    SetupOk,
    /// Entering raw mode, the alternate screen or mouse capture failed.
    SetupFailed,
    /// One drain, draw and poll round ended with this input.
    Input(TuiInput),
    /// The screen was asked about the key press; `true` means it asks to quit.
    KeyHandled(bool),
    /// The mouse event was handed to the screen.
    Forwarded,
    /// Creating the terminal, drawing, polling or reading failed.
    Failed,
    /// The screen panicked.
    Panicked,
}

/// The messages the terminal front end fails with.
#[derive(Debug, Clone, Copy, PartialEq, Eq, Structural)]
pub enum TuiMessage {
    /// Standard output is not a terminal.
    NotATerminal,
    /// The screen panicked; the terminal was restored before returning.
    Panicked,
}

/// What the surrounding program is to do next.
#[derive(Debug, Clone, Copy, PartialEq, Eq, Structural)]
pub enum TuiAction {
    /// Return this error at once, without touching the terminal.
    Fail(TuiMessage),
    /// Enter raw mode and the alternate screen, and capture the mouse.
    EnterTerminal,
    /// Return the error that entering the terminal gave.
    ReturnError,
    /// Take every pending sample, draw the screen, and poll for input.
    DrainDrawPoll,
    /// Hand the key press to the screen and ask whether it quits.
    AskHandleKey,
    /// Hand the mouse event to the screen.
    ForwardMouse,
    /// Restore the terminal, then return: the screen's own result with
    /// `None`, or an error with this message.
    RestoreThenReturn(Option<TuiMessage>),
    /// Nothing to do.
    Nothing,
}

/// The text of a failure message.
pub open spec fn spec_tui_message_text(m: TuiMessage) -> Seq<char> {
    match m {
        TuiMessage::NotATerminal => "TUI requires a real terminal. Use --json for piped output."@,
        TuiMessage::Panicked => "TUI panicked unexpectedly. Terminal has been restored."@,
    }
}

/// The text of a failure message of the terminal front end.
pub fn tui_message_text(m: TuiMessage) -> (text: String)
    ensures
        text@ == spec_tui_message_text(m),
{
    match m {
        TuiMessage::NotATerminal => String::from_str(
            "TUI requires a real terminal. Use --json for piped output.",
        ),
        TuiMessage::Panicked => String::from_str(
            "TUI panicked unexpectedly. Terminal has been restored.",
        ),
    }
}

/// One step of the terminal front end: the next state and the action to do.
/// An event that does not fit the state changes nothing.
pub open spec fn spec_tui_step(s: TuiState, e: TuiEvent) -> (TuiState, TuiAction) {
    match (s, e) {
        (TuiState::Start, TuiEvent::TtyChecked(false)) => (
            TuiState::Done,
            TuiAction::Fail(TuiMessage::NotATerminal),
        ),
        (TuiState::Start, TuiEvent::TtyChecked(true)) => (
            TuiState::Entering,
            TuiAction::EnterTerminal,
        ),
        (TuiState::Entering, TuiEvent::SetupOk) => (TuiState::Running, TuiAction::DrainDrawPoll),
        (TuiState::Entering, TuiEvent::SetupFailed) => (TuiState::Done, TuiAction::ReturnError),
        (TuiState::Running, TuiEvent::Input(TuiInput::KeyPress)) => (
            TuiState::Running,
            TuiAction::AskHandleKey,
        ),
        (TuiState::Running, TuiEvent::Input(TuiInput::Mouse)) => (
            TuiState::Running,
            TuiAction::ForwardMouse,
        ),
        (TuiState::Running, TuiEvent::Input(_)) => (TuiState::Running, TuiAction::DrainDrawPoll),
        (TuiState::Running, TuiEvent::KeyHandled(true)) => (
            TuiState::Done,
            TuiAction::RestoreThenReturn(None),
        ),
        (TuiState::Running, TuiEvent::KeyHandled(false)) => (
            TuiState::Running,
            TuiAction::DrainDrawPoll,
        ),
        (TuiState::Running, TuiEvent::Forwarded) => (TuiState::Running, TuiAction::DrainDrawPoll),
        (TuiState::Running, TuiEvent::Failed) => (
            TuiState::Done,
            TuiAction::RestoreThenReturn(None),
        ),
        (TuiState::Running, TuiEvent::Panicked) => (
            TuiState::Done,
            TuiAction::RestoreThenReturn(Some(TuiMessage::Panicked)),
        ),
        _ => (s, TuiAction::Nothing),
    }
}

/// Decides the next state and action of the terminal front end.
pub fn tui_step(s: TuiState, e: TuiEvent) -> (r: (TuiState, TuiAction))
    ensures
        r == spec_tui_step(s, e),
{
    match (s, e) {
        (TuiState::Start, TuiEvent::TtyChecked(false)) => (
            TuiState::Done,
            TuiAction::Fail(TuiMessage::NotATerminal),
        ),
        (TuiState::Start, TuiEvent::TtyChecked(true)) => (
            TuiState::Entering,
            TuiAction::EnterTerminal,
        ),
        (TuiState::Entering, TuiEvent::SetupOk) => (TuiState::Running, TuiAction::DrainDrawPoll),
        (TuiState::Entering, TuiEvent::SetupFailed) => (TuiState::Done, TuiAction::ReturnError),
        (TuiState::Running, TuiEvent::Input(TuiInput::KeyPress)) => (
            TuiState::Running,
            TuiAction::AskHandleKey,
        ),
        (TuiState::Running, TuiEvent::Input(TuiInput::Mouse)) => (
            TuiState::Running,
            TuiAction::ForwardMouse,
        ),
        (TuiState::Running, TuiEvent::Input(_)) => (TuiState::Running, TuiAction::DrainDrawPoll),
        (TuiState::Running, TuiEvent::KeyHandled(true)) => (
            TuiState::Done,
            TuiAction::RestoreThenReturn(None),
        ),
        (TuiState::Running, TuiEvent::KeyHandled(false)) => (
            TuiState::Running,
            TuiAction::DrainDrawPoll,
        ),
        (TuiState::Running, TuiEvent::Forwarded) => (TuiState::Running, TuiAction::DrainDrawPoll),
        (TuiState::Running, TuiEvent::Failed) => (
            TuiState::Done,
            TuiAction::RestoreThenReturn(None),
        ),
        (TuiState::Running, TuiEvent::Panicked) => (
            TuiState::Done,
            TuiAction::RestoreThenReturn(Some(TuiMessage::Panicked)),
        ),
        _ => (s, TuiAction::Nothing),
    }
}

/// While the screen runs, input never ends it: a key press goes to the screen,
/// a mouse event is forwarded, and every other input (a key release, a resize,
/// a paste, a focus change, or none at all) is ignored and the screen keeps
/// draining, drawing and polling.
pub proof fn lemma_tui_running_input(input: TuiInput)
    ensures
        spec_tui_step(TuiState::Running, TuiEvent::Input(input)).0 == TuiState::Running,
        input == TuiInput::KeyPress ==> spec_tui_step(TuiState::Running, TuiEvent::Input(input)).1
            == TuiAction::AskHandleKey,
        input == TuiInput::Mouse ==> spec_tui_step(TuiState::Running, TuiEvent::Input(input)).1
            == TuiAction::ForwardMouse,
        input != TuiInput::KeyPress && input != TuiInput::Mouse ==> spec_tui_step(
            TuiState::Running,
            TuiEvent::Input(input),
        ) == (TuiState::Running, TuiAction::DrainDrawPoll),
{
}

/// The running screen is left only on a key the screen accepts as quit, an
/// error or a panic; then it is done and restores the terminal, with the panic
/// message only after a panic. A key the screen declines and a forwarded mouse
/// event lead to the next draw.
pub proof fn lemma_tui_leaves_running(e: TuiEvent)
    ensures
        ({
            let r = spec_tui_step(TuiState::Running, e);
            let leaves = e == TuiEvent::KeyHandled(true) || e == TuiEvent::Failed || e
                == TuiEvent::Panicked;
            &&& r.0 != TuiState::Running <==> leaves
            &&& leaves ==> r.0 == TuiState::Done && r.1 is RestoreThenReturn
            &&& leaves ==> (r.1 == TuiAction::RestoreThenReturn(Some(TuiMessage::Panicked))
                <==> e == TuiEvent::Panicked)
            &&& (e == TuiEvent::KeyHandled(false) || e == TuiEvent::Forwarded) ==> r.1
                == TuiAction::DrainDrawPoll
            &&& !leaves && !(e is Input) && e != TuiEvent::KeyHandled(false) && e
                != TuiEvent::Forwarded ==> r.1 == TuiAction::Nothing
        }),
{
}

/// Before the screen runs: the terminal check is the only way out of the
/// start (a terminal leads to entering it, none to the failure), and entering
/// ends only on its outcome (success starts the screen with a first draw,
/// failure returns the set-up error). A finished front end stays finished and
/// does nothing.
pub proof fn lemma_tui_before_and_after(e: TuiEvent)
    ensures
        spec_tui_step(TuiState::Start, e).0 != TuiState::Start <==> e is TtyChecked,
        e == TuiEvent::TtyChecked(true) ==> spec_tui_step(TuiState::Start, e) == (
            TuiState::Entering,
            TuiAction::EnterTerminal,
        ),
        !(e is TtyChecked) ==> spec_tui_step(TuiState::Start, e).1 == TuiAction::Nothing,
        spec_tui_step(TuiState::Entering, e).0 != TuiState::Entering <==> (e == TuiEvent::SetupOk
            || e == TuiEvent::SetupFailed),
        e == TuiEvent::SetupOk ==> spec_tui_step(TuiState::Entering, e) == (
            TuiState::Running,
            TuiAction::DrainDrawPoll,
        ),
        e == TuiEvent::SetupFailed ==> spec_tui_step(TuiState::Entering, e) == (
            TuiState::Done,
            TuiAction::ReturnError,
        ),
        !(e == TuiEvent::SetupOk || e == TuiEvent::SetupFailed) ==> spec_tui_step(
            TuiState::Entering,
            e,
        ).1 == TuiAction::Nothing,
        spec_tui_step(TuiState::Done, e) == (TuiState::Done, TuiAction::Nothing),
{
}

/// The state reached and the actions issued when the events `es` arrive in
/// turn from state `s`.
pub open spec fn tui_run(s: TuiState, es: Seq<TuiEvent>) -> (TuiState, Seq<TuiAction>)
    decreases es.len(),
{
    if es.len() == 0 {
        (s, Seq::<TuiAction>::empty())
    } else {
        let first = spec_tui_step(s, es[0]);
        let rest = tui_run(first.0, es.drop_first());
        (rest.0, seq![first.1] + rest.1)
    }
}

/// Once the front end has returned, no event makes it do anything more.
pub proof fn lemma_tui_done_is_final(es: Seq<TuiEvent>)
    ensures
        tui_run(TuiState::Done, es).0 == TuiState::Done,
        tui_run(TuiState::Done, es).1.len() == es.len(),
        forall|j: int|
            0 <= j < es.len() ==> #[trigger] tui_run(TuiState::Done, es).1[j] == TuiAction::Nothing,
    decreases es.len(),
{
    if es.len() > 0 {
        lemma_tui_done_is_final(es.drop_first());
        let rest = tui_run(TuiState::Done, es.drop_first());
        assert forall|j: int| 0 <= j < es.len() implies #[trigger] tui_run(
            TuiState::Done,
            es,
        ).1[j] == TuiAction::Nothing by {
            if j > 0 {
                assert(tui_run(TuiState::Done, es).1[j] == rest.1[j - 1]);
            }
        }
    }
}

/// Without a terminal the front end fails at once with "TUI requires a real
/// terminal. Use --json for piped output." and touches the terminal in no way,
/// whatever comes after.
pub proof fn lemma_tui_not_a_terminal(es: Seq<TuiEvent>)
    ensures
        ({
            let r = tui_run(TuiState::Start, seq![TuiEvent::TtyChecked(false)] + es);
            &&& r.0 == TuiState::Done
            &&& r.1.len() == es.len() + 1
            &&& r.1[0] == TuiAction::Fail(TuiMessage::NotATerminal)
            &&& forall|j: int| 1 <= j < r.1.len() ==> #[trigger] r.1[j] == TuiAction::Nothing
        }),
        spec_tui_message_text(TuiMessage::NotATerminal)
            == "TUI requires a real terminal. Use --json for piped output."@,
{
    let all = seq![TuiEvent::TtyChecked(false)] + es;
    assert(all.drop_first() =~= es);
    assert(all[0] == TuiEvent::TtyChecked(false));
    lemma_tui_done_is_final(es);
    let r = tui_run(TuiState::Start, all);
    let rest = tui_run(TuiState::Done, es);
    assert(r.1 == seq![TuiAction::Fail(TuiMessage::NotATerminal)] + rest.1);
    assert forall|j: int| 1 <= j < r.1.len() implies #[trigger] r.1[j] == TuiAction::Nothing by {
        assert(r.1[j] == rest.1[j - 1]);
    }
}

/// Every way out of the running screen (a quit key, an error, a panic)
/// restores the terminal exactly once, as the last thing it does: no draw and
/// no other action follows. While the screen runs it never restores, and it
/// never fails without restoring or touches the terminal setup again.
pub proof fn lemma_tui_restores_once(es: Seq<TuiEvent>)
    ensures
        ({
            let r = tui_run(TuiState::Running, es);
            &&& r.1.len() == es.len()
            &&& r.0 == TuiState::Running || r.0 == TuiState::Done
            &&& forall|j: int|
                0 <= j < r.1.len() ==> !(#[trigger] r.1[j] is Fail) && !(r.1[j] is EnterTerminal)
                    && !(r.1[j] is ReturnError)
            &&& r.0 == TuiState::Running ==> forall|j: int|
                0 <= j < r.1.len() ==> !(#[trigger] r.1[j] is RestoreThenReturn)
            &&& r.0 == TuiState::Done ==> exists|i: int|
                0 <= i < r.1.len() && (#[trigger] r.1[i] is RestoreThenReturn) && (forall|j: int|
                    0 <= j < i ==> !(#[trigger] r.1[j] is RestoreThenReturn)) && (forall|j: int|
                    i < j < r.1.len() ==> #[trigger] r.1[j] == TuiAction::Nothing)
        }),
        spec_tui_message_text(TuiMessage::Panicked)
            == "TUI panicked unexpectedly. Terminal has been restored."@,
    decreases es.len(),
{
    if es.len() > 0 {
        let first = spec_tui_step(TuiState::Running, es[0]);
        let tail = es.drop_first();
        let r = tui_run(TuiState::Running, es);
        if first.0 == TuiState::Done {
            lemma_tui_done_is_final(tail);
            let rest = tui_run(TuiState::Done, tail);
            assert(r.1 == seq![first.1] + rest.1);
            assert(first.1 is RestoreThenReturn);
            assert forall|j: int| 0 < j < r.1.len() implies #[trigger] r.1[j]
                == TuiAction::Nothing by {
                assert(r.1[j] == rest.1[j - 1]);
            }
            assert(r.1[0] is RestoreThenReturn);
        } else {
            assert(first.0 == TuiState::Running);
            lemma_tui_restores_once(tail);
            let rest = tui_run(TuiState::Running, tail);
            assert(r.1 == seq![first.1] + rest.1);
            assert(!(first.1 is RestoreThenReturn));
            assert forall|j: int| 0 < j < r.1.len() implies #[trigger] r.1[j] == rest.1[j - 1] by {}
            if r.0 == TuiState::Done {
                let i0 = choose|i: int|
                    0 <= i < rest.1.len() && (#[trigger] rest.1[i] is RestoreThenReturn) && (forall|
                        j: int,
                    | 0 <= j < i ==> !(#[trigger] rest.1[j] is RestoreThenReturn)) && (forall|j: int|
                        i < j < rest.1.len() ==> #[trigger] rest.1[j] == TuiAction::Nothing);
                assert(r.1[i0 + 1] is RestoreThenReturn);
                assert forall|j: int| 0 <= j < i0 + 1 implies !(#[trigger] r.1[j] is RestoreThenReturn) by {
                    if j > 0 {
                        assert(r.1[j] == rest.1[j - 1]);
                    }
                }
                assert forall|j: int| i0 + 1 < j < r.1.len() implies #[trigger] r.1[j]
                    == TuiAction::Nothing by {
                    assert(r.1[j] == rest.1[j - 1]);
                }
            }
        }
    }
}

} // verus!
