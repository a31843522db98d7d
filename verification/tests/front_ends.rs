use macpow::json::{json_step, JsonAction, RecvOutcome};
use macpow::smc_dump::{ioreport_init_error, smc_dump_output, smc_open_error};
use macpow::tui::{
    tui_message_text, tui_step, TuiAction, TuiEvent, TuiInput, TuiMessage, TuiState,
};

fn run(start: TuiState, events: &[TuiEvent]) -> (TuiState, Vec<TuiAction>) {
    let mut s = start;
    let mut actions = Vec::new();
    for e in events {
        let (n, a) = tui_step(s, *e);
        s = n;
        actions.push(a);
    }
    (s, actions)
}

#[test]
fn tui_without_terminal_fails_at_once() {
    let (s, a) = tui_step(TuiState::Start, TuiEvent::TtyChecked(false));
    assert_eq!(s, TuiState::Done);
    assert_eq!(a, TuiAction::Fail(TuiMessage::NotATerminal));
    assert_eq!(
        tui_message_text(TuiMessage::NotATerminal),
        "TUI requires a real terminal. Use --json for piped output."
    );
    let (s, actions) = run(
        TuiState::Start,
        &[TuiEvent::TtyChecked(false), TuiEvent::SetupOk, TuiEvent::Input(TuiInput::KeyPress)],
    );
    assert_eq!(s, TuiState::Done);
    assert_eq!(
        actions,
        vec![TuiAction::Fail(TuiMessage::NotATerminal), TuiAction::Nothing, TuiAction::Nothing]
    );
}

#[test]
fn tui_setup_failure_returns_its_error_without_restoring() {
    let (s, actions) = run(TuiState::Start, &[TuiEvent::TtyChecked(true), TuiEvent::SetupFailed]);
    assert_eq!(s, TuiState::Done);
    assert_eq!(actions, vec![TuiAction::EnterTerminal, TuiAction::ReturnError]);
}

#[test]
fn tui_quits_on_a_handled_key_and_restores_once() {
    let (s, actions) = run(
        TuiState::Start,
        &[
            TuiEvent::TtyChecked(true),
            TuiEvent::SetupOk,
            TuiEvent::Input(TuiInput::Nothing),
            TuiEvent::Input(TuiInput::Mouse),
            TuiEvent::Forwarded,
            TuiEvent::Input(TuiInput::KeyOther),
            TuiEvent::Input(TuiInput::KeyPress),
            TuiEvent::KeyHandled(false),
            TuiEvent::Input(TuiInput::KeyPress),
            TuiEvent::KeyHandled(true),
            TuiEvent::Input(TuiInput::Other),
        ],
    );
    assert_eq!(s, TuiState::Done);
    assert_eq!(
        actions,
        vec![
            TuiAction::EnterTerminal,
            TuiAction::DrainDrawPoll,
            TuiAction::DrainDrawPoll,
            TuiAction::ForwardMouse,
            TuiAction::DrainDrawPoll,
            TuiAction::DrainDrawPoll,
            TuiAction::AskHandleKey,
            TuiAction::DrainDrawPoll,
            TuiAction::AskHandleKey,
            TuiAction::RestoreThenReturn(None),
            TuiAction::Nothing,
        ]
    );
}

#[test]
fn tui_restores_after_an_error() {
    let (s, a) = tui_step(TuiState::Running, TuiEvent::Failed);
    assert_eq!(s, TuiState::Done);
    assert_eq!(a, TuiAction::RestoreThenReturn(None));
}

#[test]
fn tui_restores_after_a_panic_and_says_so() {
    let (s, a) = tui_step(TuiState::Running, TuiEvent::Panicked);
    assert_eq!(s, TuiState::Done);
    assert_eq!(a, TuiAction::RestoreThenReturn(Some(TuiMessage::Panicked)));
    assert_eq!(
        tui_message_text(TuiMessage::Panicked),
        "TUI panicked unexpectedly. Terminal has been restored."
    );
    let (_, after) = tui_step(s, TuiEvent::Input(TuiInput::KeyPress));
    assert_eq!(after, TuiAction::Nothing);
}

#[test]
fn tui_ignores_events_out_of_place() {
    assert_eq!(tui_step(TuiState::Start, TuiEvent::SetupOk), (TuiState::Start, TuiAction::Nothing));
    assert_eq!(
        tui_step(TuiState::Running, TuiEvent::TtyChecked(true)),
        (TuiState::Running, TuiAction::Nothing)
    );
    assert_eq!(
        tui_step(TuiState::Entering, TuiEvent::Panicked),
        (TuiState::Entering, TuiAction::Nothing)
    );
}

#[test]
fn json_prints_waits_and_stops() {
    assert_eq!(json_step(RecvOutcome::Message), JsonAction::Print);
    assert_eq!(json_step(RecvOutcome::Timeout), JsonAction::Wait);
    assert_eq!(json_step(RecvOutcome::Disconnected), JsonAction::Stop);
}

#[test]
fn smc_dump_output_of_no_entries_is_the_note() {
    let (lines, note) = smc_dump_output(&Vec::new());
    assert!(lines.is_empty());
    assert_eq!(note.as_deref(), Some("SMC: no keys returned (kernel may have refused enumeration)"));
}

#[test]
fn smc_dump_output_lists_entries_in_order() {
    let entries = vec![
        ("TC0P".to_string(), "flt ".to_string(), "41.50".to_string(), "00 00 26 42".to_string()),
        ("#KEY".to_string(), "ui32".to_string(), String::new(), "00 00 04 a1".to_string()),
    ];
    let (lines, note) = smc_dump_output(&entries);
    assert_eq!(note, None);
    assert_eq!(
        lines,
        vec![
            "  TC0P  [flt ]  41.50 (bytes 00 00 26 42)".to_string(),
            "  #KEY  [ui32]  (bytes 00 00 04 a1)".to_string(),
        ]
    );
}

#[test]
fn smc_open_error_prefixes_the_cause() {
    assert_eq!(smc_open_error("kIOReturnNotPrivileged"), "SMC open failed: kIOReturnNotPrivileged");
    assert_eq!(smc_open_error(""), "SMC open failed: ");
}

#[test]
fn ioreport_init_error_names_the_cause() {
    assert_eq!(
        ioreport_init_error("no channels"),
        "Failed to initialize IOReport: no channels\nThis Mac may not support the required IOReport channels."
    );
}
