use failure_kit::byop_setup::{
    api_key_step_view, handle_byop_setup_key, handle_byop_setup_mouse, handle_byop_setup_paste,
    prepare_render, provider_rows, render_shortcuts, setup_title, submitting_text, try_submit,
    ByopSetupModalState, ByopSetupOutcome, ByopSetupStep, KeyCode, KeyInput, ModalWindowOutcome,
    MouseKind, Rect, SHORTCUT_ID_CANCEL,
};
use failure_kit::slash_commands::ProviderPreset;

fn preset(id: &str, name: &str, base_url: Option<&str>, requires_api_key: bool) -> ProviderPreset {
    ProviderPreset {
        id: id.to_owned(),
        display_name: name.to_owned(),
        base_url: base_url.map(|u| u.to_owned()),
        requires_api_key,
    }
}

fn builtin_provider_presets() -> Vec<ProviderPreset> {
    vec![
        preset("xai", "xAI", Some("https://api.x.ai/v1"), true),
        preset("openai", "OpenAI", Some("https://api.openai.com/v1"), true),
        preset("anthropic", "Anthropic", Some("https://api.anthropic.com/v1"), true),
        preset("openrouter", "OpenRouter", Some("https://openrouter.ai/api/v1"), true),
        preset("groq", "Groq", Some("https://api.groq.com/openai/v1"), true),
        preset("ollama", "Ollama", Some("http://localhost:11434/v1"), false),
    ]
}

fn key(code: KeyCode) -> KeyInput {
    KeyInput { code, control: false, alt: false }
}

fn press(state: &mut ByopSetupModalState, code: KeyCode) -> ByopSetupOutcome {
    handle_byop_setup_key(state, &builtin_provider_presets(), &key(code), ModalWindowOutcome::Unhandled)
}

#[test]
fn enter_on_provider_advances_to_key_step() {
    let mut state = ByopSetupModalState::new();
    state.focus = 1;
    let outcome = press(&mut state, KeyCode::Enter);
    assert_eq!(outcome, ByopSetupOutcome::Changed);
    assert_eq!(state.step, ByopSetupStep::EnterApiKey);
}

#[test]
fn submit_requires_key_for_openai() {
    let mut state = ByopSetupModalState::new();
    state.focus = 1; // openai
    state.step = ByopSetupStep::EnterApiKey;
    let outcome = press(&mut state, KeyCode::Enter);
    assert_eq!(outcome, ByopSetupOutcome::Changed);
    assert!(state.error.is_some());
    assert_eq!(state.step, ByopSetupStep::EnterApiKey);
}

#[test]
fn submit_with_key_emits_action() {
    let mut state = ByopSetupModalState::new();
    state.focus = 1; // openai
    state.step = ByopSetupStep::EnterApiKey;
    state.api_key_input = "sk-test".into();
    let outcome = press(&mut state, KeyCode::Enter);
    match outcome {
        ByopSetupOutcome::Submit { name, api_key, base_url } => {
            assert_eq!(name, "openai");
            assert_eq!(api_key, "sk-test");
            assert_eq!(base_url.as_deref(), Some("https://api.openai.com/v1"));
        }
        other => panic!("expected Submit, got {other:?}"),
    }
    assert_eq!(state.step, ByopSetupStep::Submitting);
}

#[test]
fn ollama_allows_empty_key() {
    let mut state = ByopSetupModalState::new();
    let ollama_idx = builtin_provider_presets()
        .iter()
        .position(|p| p.id == "ollama")
        .expect("ollama preset");
    state.focus = ollama_idx;
    state.step = ByopSetupStep::EnterApiKey;
    let outcome = press(&mut state, KeyCode::Enter);
    match outcome {
        ByopSetupOutcome::Submit { name, api_key, .. } => {
            assert_eq!(name, "ollama");
            assert_eq!(api_key, "ollama");
        }
        other => panic!("expected Submit, got {other:?}"),
    }
}

#[test]
fn typing_editing_and_going_back() {
    let mut state = ByopSetupModalState::new();
    assert_eq!(press(&mut state, KeyCode::Down), ByopSetupOutcome::Changed);
    assert_eq!(press(&mut state, KeyCode::Char('j')), ByopSetupOutcome::Changed);
    assert_eq!(state.focus, 2);
    assert_eq!(press(&mut state, KeyCode::Char('k')), ByopSetupOutcome::Changed);
    assert_eq!(state.focus, 1);
    assert_eq!(press(&mut state, KeyCode::Char('x')), ByopSetupOutcome::Unchanged);
    press(&mut state, KeyCode::Enter);
    for c in "ab".chars() {
        assert_eq!(press(&mut state, KeyCode::Char(c)), ByopSetupOutcome::Changed);
    }
    assert_eq!(press(&mut state, KeyCode::Backspace), ByopSetupOutcome::Changed);
    assert_eq!(state.api_key_input, "a");
    let alt_x = KeyInput { code: KeyCode::Char('x'), control: false, alt: true };
    let out = handle_byop_setup_key(
        &mut state,
        &builtin_provider_presets(),
        &alt_x,
        ModalWindowOutcome::Unhandled,
    );
    assert_eq!(out, ByopSetupOutcome::Unchanged);
    // Esc on the key step goes back to the list and keeps the typed key.
    let out = handle_byop_setup_key(
        &mut state,
        &builtin_provider_presets(),
        &key(KeyCode::Other),
        ModalWindowOutcome::CloseRequested,
    );
    assert_eq!(out, ByopSetupOutcome::Changed);
    assert_eq!(state.step, ByopSetupStep::PickProvider);
    assert_eq!(state.focus, 1);
    assert_eq!(state.api_key_input, "a");
    // Esc on the list cancels.
    let out = handle_byop_setup_key(
        &mut state,
        &builtin_provider_presets(),
        &key(KeyCode::Other),
        ModalWindowOutcome::CloseRequested,
    );
    assert_eq!(out, ByopSetupOutcome::Cancelled);
}

#[test]
fn ctrl_c_cancels_and_submitting_ignores_input() {
    let mut state = ByopSetupModalState::new();
    state.step = ByopSetupStep::EnterApiKey;
    let ctrl_c = KeyInput { code: KeyCode::Char('c'), control: true, alt: false };
    let out = handle_byop_setup_key(
        &mut state,
        &builtin_provider_presets(),
        &ctrl_c,
        ModalWindowOutcome::Unhandled,
    );
    assert_eq!(out, ByopSetupOutcome::Cancelled);
    let out = handle_byop_setup_key(
        &mut state,
        &builtin_provider_presets(),
        &key(KeyCode::Other),
        ModalWindowOutcome::ShortcutActivated(SHORTCUT_ID_CANCEL),
    );
    assert_eq!(out, ByopSetupOutcome::Cancelled);
    state.step = ByopSetupStep::Submitting;
    assert_eq!(press(&mut state, KeyCode::Char('z')), ByopSetupOutcome::Unchanged);
    assert_eq!(state.api_key_input, "");
    assert_eq!(
        handle_byop_setup_paste(&mut state, "pasted"),
        ByopSetupOutcome::Unchanged
    );
}

#[test]
fn submit_trims_the_key() {
    let mut state = ByopSetupModalState::new();
    state.focus = 99;
    state.step = ByopSetupStep::EnterApiKey;
    state.api_key_input = "  k \n".into();
    match try_submit(&mut state, &builtin_provider_presets()) {
        ByopSetupOutcome::Submit { name, api_key, .. } => {
            assert_eq!(name, "ollama");
            assert_eq!(api_key, "k");
        }
        other => panic!("expected Submit, got {other:?}"),
    }
}

#[test]
fn paste_strips_line_breaks() {
    let mut state = ByopSetupModalState::new();
    assert_eq!(handle_byop_setup_paste(&mut state, "sk"), ByopSetupOutcome::Unchanged);
    state.step = ByopSetupStep::EnterApiKey;
    state.error = Some("old".into());
    assert_eq!(handle_byop_setup_paste(&mut state, "sk-\r\nabc\n"), ByopSetupOutcome::Changed);
    assert_eq!(state.api_key_input, "sk-abc");
    assert!(state.error.is_none());
    assert_eq!(handle_byop_setup_paste(&mut state, "\n\r"), ByopSetupOutcome::Unchanged);
}

#[test]
fn mouse_click_selects_a_row() {
    let presets = builtin_provider_presets();
    let mut state = ByopSetupModalState::new();
    let area = Rect { x: 10, y: 5, width: 30, height: 3 };
    prepare_render(&mut state, area, presets.len());
    let out = handle_byop_setup_mouse(&mut state, presets.len(), MouseKind::LeftDown, 12, 7, ModalWindowOutcome::Unhandled);
    assert_eq!(out, ByopSetupOutcome::Changed);
    assert_eq!(state.focus, 2);
    assert_eq!(state.step, ByopSetupStep::EnterApiKey);
    let mut state = ByopSetupModalState::new();
    prepare_render(&mut state, area, presets.len());
    let out = handle_byop_setup_mouse(&mut state, presets.len(), MouseKind::LeftDown, 9, 7, ModalWindowOutcome::Unhandled);
    assert_eq!(out, ByopSetupOutcome::Unchanged);
    let out = handle_byop_setup_mouse(&mut state, presets.len(), MouseKind::ScrollDown, 0, 0, ModalWindowOutcome::Unhandled);
    assert_eq!(out, ByopSetupOutcome::Changed);
    assert_eq!(state.focus, 1);
    let out = handle_byop_setup_mouse(&mut state, presets.len(), MouseKind::LeftDown, 0, 0, ModalWindowOutcome::CloseRequested);
    assert_eq!(out, ByopSetupOutcome::Cancelled);
}

#[test]
fn rendering_content() {
    let presets = builtin_provider_presets();
    let mut state = ByopSetupModalState::new();
    state.focus = 5;
    prepare_render(&mut state, Rect { x: 0, y: 0, width: 40, height: 2 }, presets.len());
    assert_eq!(state.scroll_offset, 4);
    let rows = provider_rows(&state, &presets, 2);
    assert_eq!(rows.len(), 2);
    assert_eq!(rows[0].label, "  Groq  (groq)");
    assert_eq!(rows[1].label, "› Ollama  (ollama)");
    assert!(rows[1].selected);
    state.api_key_input = "abc".into();
    let v = api_key_step_view(&state, &presets);
    assert_eq!(v.provider_line, "Provider: Ollama (ollama)");
    assert_eq!(v.endpoint_line.as_deref(), Some("Endpoint: http://localhost:11434/v1"));
    assert_eq!(v.hint, "API key optional for local Ollama — press Enter to continue.");
    assert_eq!(v.masked_key, "•••");
    state.api_key_input = "x".repeat(100);
    assert_eq!(api_key_step_view(&state, &presets).masked_key.chars().count(), 64);
    assert_eq!(setup_title(ByopSetupStep::EnterApiKey), "Enter API key");
    assert_eq!(render_shortcuts(ByopSetupStep::Submitting).len(), 1);
    assert_eq!(render_shortcuts(ByopSetupStep::EnterApiKey)[2].label, "ctrl-c cancel");
    assert_eq!(submitting_text(), "Saving credentials and refreshing models…");
}

#[test]
fn mouse_click_with_huge_scroll_offset_hits_no_row() {
    let mut state = ByopSetupModalState::new();
    state.content_area = Some(Rect { x: 0, y: 0, width: 10, height: 10 });
    state.scroll_offset = usize::MAX;
    let out = handle_byop_setup_mouse(&mut state, 6, MouseKind::LeftDown, 1, 5, ModalWindowOutcome::Unhandled);
    assert_eq!(out, ByopSetupOutcome::Unchanged);
    assert_eq!(state.step, ByopSetupStep::PickProvider);
    assert_eq!(state.focus, 0);
}
