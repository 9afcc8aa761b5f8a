//! First-launch / `/provider setup` wizard: pick a built-in provider,
//! paste an API key, finish. This is the wizard's state machine and the
//! content of its screens; the modal window around it (its own key and
//! mouse handling, its drawing) is the caller's.
use vstd::prelude::*;
use crate::text::{trim, trim_str, push_char, chars_of, opt_view};
use crate::slash_commands::ProviderPreset;

verus! {

/// Which step of the wizard is active.
#[derive(Debug, Clone, Copy, PartialEq, Eq, Structural)]
pub enum ByopSetupStep {
    PickProvider,
    EnterApiKey,
    Submitting,
}

/// Outcome of an input event for the caller to act on.
#[derive(Debug, Clone, PartialEq, Eq)]
pub enum ByopSetupOutcome {
    /// The user cancelled (Esc / Cancel).
    Cancelled,
    /// The user confirmed provider and key: the caller adds the provider.
    Submit { name: String, api_key: String, base_url: Option<String> },
    /// State changed; re-render.
    Changed,
    /// The event was not consumed.
    Unchanged,
}

/// A screen rectangle.
#[derive(Debug, Clone, Copy, PartialEq, Eq, Structural)]
pub struct Rect {
    pub x: u16,
    pub y: u16,
    pub width: u16,
    pub height: u16,
}

/// What the modal window made of an event before the wizard sees it.
#[derive(Debug, Clone, Copy, PartialEq, Eq, Structural)]
pub enum ModalWindowOutcome {
    Unhandled,
    Handled,
    CloseRequested,
    ShortcutActivated(usize),
    TabChanged(usize),
    CollapseGroup,
    ExpandGroup,
    CollapseDetails,
    ExpandDetails,
    JumpToParent(usize),
}

/// The keys the wizard distinguishes.
#[derive(Debug, Clone, Copy, PartialEq, Eq, Structural)]
pub enum KeyCode {
    Up,
    Down,
    Enter,
    Backspace,
    Char(char),
    Other,
}

/// A key press with its Control and Alt modifiers.
#[derive(Debug, Clone, Copy, PartialEq, Eq, Structural)]
pub struct KeyInput {
    pub code: KeyCode,
    pub control: bool,
    pub alt: bool,
}

/// The mouse events the wizard distinguishes.
#[derive(Debug, Clone, Copy, PartialEq, Eq, Structural)]
pub enum MouseKind {
    LeftDown,
    ScrollUp,
    ScrollDown,
    Other,
}

/// The id of the Cancel shortcut; hint shortcuts have `SHORTCUT_ID_HINT`.
pub const SHORTCUT_ID_CANCEL: usize = 0;
pub const SHORTCUT_ID_HINT: usize = usize::MAX;

/// The wizard's state.
#[derive(Debug)]
pub struct ByopSetupModalState {
    pub step: ByopSetupStep,
    /// Index into the preset list.
    pub focus: usize,
    /// Top of the visible window of the provider list.
    pub scroll_offset: usize,
    pub api_key_input: String,
    pub error: Option<String>,
    pub content_area: Option<Rect>,
}

impl ByopSetupModalState {
    pub fn new() -> (s: Self)
        ensures
            s.step == ByopSetupStep::PickProvider,
            s.focus == 0,
            s.scroll_offset == 0,
            s.api_key_input@.len() == 0,
            s.error is None,
            s.content_area is None,
    {
        ByopSetupModalState {
            step: ByopSetupStep::PickProvider,
            focus: 0,
            scroll_offset: 0,
            api_key_input: String::new(),
            error: None,
            content_area: None,
        }
    }

    /// The preset under the focus (the last one when the focus is past
    /// the end).
    pub fn selected_index(&self, preset_count: usize) -> (i: usize)
        requires
            preset_count > 0,
        ensures
            i == spec_selected_index(self.focus, preset_count),
            i < preset_count,
    {
        if self.focus < preset_count - 1 { self.focus } else { preset_count - 1 }
    }

    /// Keeps the focus on an existing preset.
    pub fn clamp_focus(&mut self, preset_count: usize)
        ensures
            final(self).focus == (if preset_count == 0 { 0 } else if old(self).focus >= preset_count {
                (preset_count - 1) as usize
            } else {
                old(self).focus
            }),
            final(self).step == old(self).step,
            final(self).scroll_offset == old(self).scroll_offset,
            final(self).api_key_input == old(self).api_key_input,
            final(self).error == old(self).error,
            final(self).content_area == old(self).content_area,
    {
        if preset_count == 0 {
            self.focus = 0;
            return;
        }
        if self.focus >= preset_count {
            self.focus = preset_count - 1;
        }
    }

    /// Scrolls the list just enough for the focused row to be visible.
    pub fn ensure_focus_visible(&mut self, visible_rows: usize)
        ensures
            final(self).scroll_offset == (if visible_rows == 0 {
                old(self).scroll_offset
            } else if old(self).focus < old(self).scroll_offset {
                old(self).focus
            } else if old(self).focus >= old(self).scroll_offset + visible_rows {
                (old(self).focus + 1 - visible_rows) as usize
            } else {
                old(self).scroll_offset
            }),
            visible_rows > 0 ==> final(self).scroll_offset <= final(self).focus < final(self).scroll_offset
                + visible_rows,
            final(self).focus == old(self).focus,
            final(self).step == old(self).step,
            final(self).api_key_input == old(self).api_key_input,
            final(self).error == old(self).error,
            final(self).content_area == old(self).content_area,
    {
        if visible_rows == 0 {
            return;
        }
        if self.focus < self.scroll_offset {
            self.scroll_offset = self.focus;
        } else if self.focus - self.scroll_offset >= visible_rows {
            self.scroll_offset = self.focus - visible_rows + 1;
        }
    }
}

impl Default for ByopSetupModalState {
    fn default() -> (s: Self)
        ensures
            s.step == ByopSetupStep::PickProvider,
            s.focus == 0,
            s.scroll_offset == 0,
            s.api_key_input@.len() == 0,
            s.error is None,
            s.content_area is None,
    {
        Self::new()
    }
}

pub open spec fn spec_selected_index(focus: usize, n: usize) -> usize {
    if focus < n - 1 { focus } else { (n - 1) as usize }
}

/// Everything but the focus is kept.
pub open spec fn same_but_focus(a: ByopSetupModalState, b: ByopSetupModalState) -> bool {
    &&& a.step == b.step
    &&& a.scroll_offset == b.scroll_offset
    &&& a.api_key_input == b.api_key_input
    &&& a.error == b.error
    &&& a.content_area == b.content_area
}

pub open spec fn unchanged(a: ByopSetupModalState, b: ByopSetupModalState) -> bool {
    same_but_focus(a, b) && a.focus == b.focus
}

pub open spec fn paste_key_error() -> Seq<char> {
    "Paste an API key to continue."@
}

/// What confirming the key step does: a preset that needs a key refuses
/// a blank one; otherwise the trimmed key (or `ollama` when blank, which
/// local servers accept) is submitted with the preset's id and endpoint.
pub open spec fn submit_spec(
    old_s: ByopSetupModalState,
    new_s: ByopSetupModalState,
    presets: Seq<ProviderPreset>,
    out: ByopSetupOutcome,
) -> bool {
    let p = presets[spec_selected_index(old_s.focus, presets.len() as usize) as int];
    let key = trim(old_s.api_key_input@);
    if p.requires_api_key && key.len() == 0 {
        &&& out == ByopSetupOutcome::Changed
        &&& new_s.error matches Some(e) && e@ == paste_key_error()
        &&& new_s.step == old_s.step && new_s.focus == old_s.focus && new_s.scroll_offset == old_s.scroll_offset
        &&& new_s.api_key_input == old_s.api_key_input && new_s.content_area == old_s.content_area
    } else {
        &&& out matches ByopSetupOutcome::Submit { name, api_key, base_url }
        &&& name@ == p.id@
        &&& api_key@ == (if key.len() == 0 { "ollama"@ } else { key })
        &&& opt_view(base_url) == opt_view(p.base_url)
        &&& new_s.step == ByopSetupStep::Submitting
        &&& new_s.error is None
        &&& new_s.focus == old_s.focus && new_s.scroll_offset == old_s.scroll_offset
        &&& new_s.api_key_input == old_s.api_key_input && new_s.content_area == old_s.content_area
    }
}

pub fn try_submit(state: &mut ByopSetupModalState, presets: &Vec<ProviderPreset>) -> (out: ByopSetupOutcome)
    requires
        presets@.len() > 0,
    ensures
        submit_spec(*old(state), *final(state), presets@, out),
{
    let idx = state.selected_index(presets.len());
    let preset = &presets[idx];
    let trimmed = trim_str(state.api_key_input.as_str());
    if preset.requires_api_key && trimmed.as_str().is_empty() {
        state.error = Some("Paste an API key to continue.".to_owned());
        return ByopSetupOutcome::Changed;
    }
    let api_key = if trimmed.as_str().is_empty() { "ollama".to_owned() } else { trimmed };
    state.step = ByopSetupStep::Submitting;
    state.error = None;
    ByopSetupOutcome::Submit {
        name: preset.id.clone(),
        api_key,
        base_url: match &preset.base_url {
            Some(u) => Some(u.clone()),
            None => None,
        },
    }
}

/// Focus one row up (not above the first).
pub open spec fn focus_up(f: usize) -> usize {
    if f > 0 { (f - 1) as usize } else { f }
}

/// Focus one row down (not below the last of `n` presets).
pub open spec fn focus_down(f: usize, n: usize) -> usize {
    let max = if n > 0 { n - 1 } else { 0 };
    if f < max { (f + 1) as usize } else { f }
}

/// The wizard's answer to a key press, after the modal window reported
/// `window` for it.
pub open spec fn key_spec(
    old_s: ByopSetupModalState,
    new_s: ByopSetupModalState,
    presets: Seq<ProviderPreset>,
    key: KeyInput,
    window: ModalWindowOutcome,
    out: ByopSetupOutcome,
) -> bool {
    let n = presets.len() as usize;
    if old_s.step == ByopSetupStep::Submitting {
        out == ByopSetupOutcome::Unchanged && unchanged(old_s, new_s)
    } else if window == ModalWindowOutcome::CloseRequested {
        if old_s.step == ByopSetupStep::EnterApiKey {
            &&& out == ByopSetupOutcome::Changed
            &&& new_s.step == ByopSetupStep::PickProvider && new_s.error is None
            &&& new_s.focus == old_s.focus && new_s.scroll_offset == old_s.scroll_offset
            &&& new_s.api_key_input == old_s.api_key_input && new_s.content_area == old_s.content_area
        } else {
            out == ByopSetupOutcome::Cancelled && unchanged(old_s, new_s)
        }
    } else if window == ModalWindowOutcome::ShortcutActivated(SHORTCUT_ID_CANCEL) {
        out == ByopSetupOutcome::Cancelled && unchanged(old_s, new_s)
    } else if window == ModalWindowOutcome::Handled {
        out == ByopSetupOutcome::Changed && unchanged(old_s, new_s)
    } else if old_s.step == ByopSetupStep::PickProvider {
        match key.code {
            KeyCode::Up | KeyCode::Char('k') => out == ByopSetupOutcome::Changed && same_but_focus(old_s, new_s)
                && new_s.focus == focus_up(old_s.focus),
            KeyCode::Down | KeyCode::Char('j') => out == ByopSetupOutcome::Changed && same_but_focus(old_s, new_s)
                && new_s.focus == focus_down(old_s.focus, n),
            KeyCode::Enter => {
                &&& out == ByopSetupOutcome::Changed
                &&& new_s.step == ByopSetupStep::EnterApiKey && new_s.error is None
                &&& new_s.focus == old_s.focus && new_s.scroll_offset == old_s.scroll_offset
                &&& new_s.api_key_input == old_s.api_key_input && new_s.content_area == old_s.content_area
            },
            _ => out == ByopSetupOutcome::Unchanged && unchanged(old_s, new_s),
        }
    } else if key.control && (key.code == KeyCode::Char('c') || key.code == KeyCode::Char('C')) {
        out == ByopSetupOutcome::Cancelled && unchanged(old_s, new_s)
    } else {
        match key.code {
            KeyCode::Enter => submit_spec(old_s, new_s, presets, out),
            KeyCode::Backspace => {
                &&& out == ByopSetupOutcome::Changed
                &&& new_s.api_key_input@ == (if old_s.api_key_input@.len() > 0 {
                    old_s.api_key_input@.drop_last()
                } else {
                    old_s.api_key_input@
                })
                &&& new_s.step == old_s.step && new_s.error == old_s.error && new_s.focus == old_s.focus
                &&& new_s.scroll_offset == old_s.scroll_offset && new_s.content_area == old_s.content_area
            },
            KeyCode::Char(c) => if !key.control && !key.alt {
                &&& out == ByopSetupOutcome::Changed
                &&& new_s.api_key_input@ == old_s.api_key_input@.push(c)
                &&& new_s.error is None
                &&& new_s.step == old_s.step && new_s.focus == old_s.focus
                &&& new_s.scroll_offset == old_s.scroll_offset && new_s.content_area == old_s.content_area
            } else {
                out == ByopSetupOutcome::Unchanged && unchanged(old_s, new_s)
            },
            _ => out == ByopSetupOutcome::Unchanged && unchanged(old_s, new_s),
        }
    }
}

/// `String::pop`.
#[verifier::external_body]
fn pop_char(s: &mut String)
    ensures
        final(s)@ == (if old(s)@.len() > 0 { old(s)@.drop_last() } else { old(s)@ }),
{
    s.pop();
}

/// Handles a key press. `window` is what the modal window made of it;
/// the window is not consulted while the wizard is submitting.
pub fn handle_byop_setup_key(
    state: &mut ByopSetupModalState,
    presets: &Vec<ProviderPreset>,
    key: &KeyInput,
    window: ModalWindowOutcome,
) -> (out: ByopSetupOutcome)
    requires
        presets@.len() > 0,
    ensures
        key_spec(*old(state), *final(state), presets@, *key, window, out),
{
    if state.step == ByopSetupStep::Submitting {
        return ByopSetupOutcome::Unchanged;
    }
    match window {
        ModalWindowOutcome::CloseRequested => {
            return if state.step == ByopSetupStep::EnterApiKey {
                state.step = ByopSetupStep::PickProvider;
                state.error = None;
                ByopSetupOutcome::Changed
            } else {
                ByopSetupOutcome::Cancelled
            };
        },
        ModalWindowOutcome::ShortcutActivated(id) => {
            if id == SHORTCUT_ID_CANCEL {
                return ByopSetupOutcome::Cancelled;
            }
        },
        ModalWindowOutcome::Handled => return ByopSetupOutcome::Changed,
        _ => {},
    }
    match state.step {
        ByopSetupStep::PickProvider => match key.code {
            KeyCode::Up | KeyCode::Char('k') => {
                if state.focus > 0 {
                    state.focus = state.focus - 1;
                }
                ByopSetupOutcome::Changed
            },
            KeyCode::Down | KeyCode::Char('j') => {
                let max = if presets.len() > 0 { presets.len() - 1 } else { 0 };
                if state.focus < max {
                    state.focus = state.focus + 1;
                }
                ByopSetupOutcome::Changed
            },
            KeyCode::Enter => {
                state.step = ByopSetupStep::EnterApiKey;
                state.error = None;
                ByopSetupOutcome::Changed
            },
            _ => ByopSetupOutcome::Unchanged,
        },
        ByopSetupStep::EnterApiKey => {
            if key.control && (key.code == KeyCode::Char('c') || key.code == KeyCode::Char('C')) {
                return ByopSetupOutcome::Cancelled;
            }
            match key.code {
                KeyCode::Enter => try_submit(state, presets),
                KeyCode::Backspace => {
                    pop_char(&mut state.api_key_input);
                    ByopSetupOutcome::Changed
                },
                KeyCode::Char(c) => {
                    if !key.control && !key.alt {
                        push_char(&mut state.api_key_input, c);
                        state.error = None;
                        ByopSetupOutcome::Changed
                    } else {
                        ByopSetupOutcome::Unchanged
                    }
                },
                _ => ByopSetupOutcome::Unchanged,
            }
        },
        ByopSetupStep::Submitting => ByopSetupOutcome::Unchanged,
    }
}

} // verus!

verus! {

/// Whether a point lies in a rectangle.
pub open spec fn in_rect(area: Rect, column: u16, row: u16) -> bool {
    area.x <= column < area.x + area.width && area.y <= row < area.y + area.height
}

/// The wizard's answer to a mouse event, after the modal window reported
/// `window` for it. A left click on a row of the provider list picks that
/// provider; scrolling moves the focus.
pub open spec fn mouse_spec(
    old_s: ByopSetupModalState,
    new_s: ByopSetupModalState,
    n: usize,
    kind: MouseKind,
    column: u16,
    row: u16,
    window: ModalWindowOutcome,
    out: ByopSetupOutcome,
) -> bool {
    if old_s.step == ByopSetupStep::Submitting {
        out == ByopSetupOutcome::Unchanged && unchanged(old_s, new_s)
    } else if window == ModalWindowOutcome::CloseRequested || window == ModalWindowOutcome::ShortcutActivated(
        SHORTCUT_ID_CANCEL,
    ) {
        out == ByopSetupOutcome::Cancelled && unchanged(old_s, new_s)
    } else if window == ModalWindowOutcome::Handled {
        out == ByopSetupOutcome::Changed && unchanged(old_s, new_s)
    } else if old_s.step != ByopSetupStep::PickProvider || old_s.content_area is None {
        out == ByopSetupOutcome::Unchanged && unchanged(old_s, new_s)
    } else {
        let area = old_s.content_area->0;
        match kind {
            MouseKind::LeftDown => {
                let idx = row - area.y + old_s.scroll_offset;
                if in_rect(area, column, row) && idx < n {
                    &&& out == ByopSetupOutcome::Changed
                    &&& new_s.focus == idx && new_s.step == ByopSetupStep::EnterApiKey && new_s.error is None
                    &&& new_s.scroll_offset == old_s.scroll_offset && new_s.api_key_input == old_s.api_key_input
                    &&& new_s.content_area == old_s.content_area
                } else {
                    out == ByopSetupOutcome::Unchanged && unchanged(old_s, new_s)
                }
            },
            MouseKind::ScrollUp => out == ByopSetupOutcome::Changed && same_but_focus(old_s, new_s)
                && new_s.focus == focus_up(old_s.focus),
            MouseKind::ScrollDown => out == ByopSetupOutcome::Changed && same_but_focus(old_s, new_s)
                && new_s.focus == focus_down(old_s.focus, n),
            MouseKind::Other => out == ByopSetupOutcome::Unchanged && unchanged(old_s, new_s),
        }
    }
}

/// Handles a mouse event over the wizard.
pub fn handle_byop_setup_mouse(
    state: &mut ByopSetupModalState,
    preset_count: usize,
    kind: MouseKind,
    column: u16,
    row: u16,
    window: ModalWindowOutcome,
) -> (out: ByopSetupOutcome)
    ensures
        mouse_spec(*old(state), *final(state), preset_count, kind, column, row, window, out),
{
    if state.step == ByopSetupStep::Submitting {
        return ByopSetupOutcome::Unchanged;
    }
    match window {
        ModalWindowOutcome::CloseRequested => return ByopSetupOutcome::Cancelled,
        ModalWindowOutcome::ShortcutActivated(id) => {
            if id == SHORTCUT_ID_CANCEL {
                return ByopSetupOutcome::Cancelled;
            }
        },
        ModalWindowOutcome::Handled => return ByopSetupOutcome::Changed,
        _ => {},
    }
    if state.step != ByopSetupStep::PickProvider {
        return ByopSetupOutcome::Unchanged;
    }
    let area = match state.content_area {
        Some(a) => a,
        None => return ByopSetupOutcome::Unchanged,
    };
    match kind {
        MouseKind::LeftDown => {
            if column >= area.x && (column as u32) < (area.x as u32) + (area.width as u32) && row >= area.y
                && (row as u32) < (area.y as u32) + (area.height as u32) {
                // An index past `usize::MAX` is past every preset.
                let row_idx = match ((row - area.y) as usize).checked_add(state.scroll_offset) {
                    Some(i) => i,
                    None => return ByopSetupOutcome::Unchanged,
                };
                if row_idx < preset_count {
                    state.focus = row_idx;
                    state.step = ByopSetupStep::EnterApiKey;
                    state.error = None;
                    return ByopSetupOutcome::Changed;
                }
            }
            ByopSetupOutcome::Unchanged
        },
        MouseKind::ScrollUp => {
            if state.focus > 0 {
                state.focus = state.focus - 1;
            }
            ByopSetupOutcome::Changed
        },
        MouseKind::ScrollDown => {
            let max = if preset_count > 0 { preset_count - 1 } else { 0 };
            if state.focus < max {
                state.focus = state.focus + 1;
            }
            ByopSetupOutcome::Changed
        },
        MouseKind::Other => ByopSetupOutcome::Unchanged,
    }
}

/// Pasted text without its line breaks.
pub open spec fn strip_newlines(s: Seq<char>) -> Seq<char> {
    s.filter(|c: char| c != '\n' && c != '\r')
}

/// Handles a paste: on the key step, the text (without line breaks) is
/// appended to the key.
pub fn handle_byop_setup_paste(state: &mut ByopSetupModalState, text: &str) -> (out: ByopSetupOutcome)
    ensures
        ({
            let cleaned = strip_newlines(text@);
            if old(state).step != ByopSetupStep::EnterApiKey || cleaned.len() == 0 {
                out == ByopSetupOutcome::Unchanged && unchanged(*old(state), *final(state))
            } else {
                &&& out == ByopSetupOutcome::Changed
                &&& final(state).api_key_input@ == old(state).api_key_input@ + cleaned
                &&& final(state).error is None
                &&& final(state).step == old(state).step && final(state).focus == old(state).focus
                &&& final(state).scroll_offset == old(state).scroll_offset
                &&& final(state).content_area == old(state).content_area
            }
        }),
{
    if state.step != ByopSetupStep::EnterApiKey {
        return ByopSetupOutcome::Unchanged;
    }
    let v = chars_of(text);
    let mut cleaned = String::new();
    let mut i: usize = 0;
    while i < v.len()
        invariant
            v@ == text@,
            i <= v@.len(),
            cleaned@ == strip_newlines(v@.take(i as int)),
        decreases v@.len() - i,
    {
        let c = v[i];
        proof {
            assert(v@.take(i + 1).drop_last() =~= v@.take(i as int));
            reveal_with_fuel(Seq::filter, 1);
        }
        if c != '\n' && c != '\r' {
            push_char(&mut cleaned, c);
        }
        i = i + 1;
    }
    proof {
        assert(v@.take(v@.len() as int) =~= v@);
    }
    if cleaned.as_str().is_empty() {
        return ByopSetupOutcome::Unchanged;
    }
    state.api_key_input.append(cleaned.as_str());
    state.error = None;
    ByopSetupOutcome::Changed
}

} // verus!

verus! {

/// A shortcut of the modal's footer.
#[derive(Debug, Clone)]
pub struct Shortcut {
    pub label: String,
    pub clickable: bool,
    pub id: usize,
}

pub open spec fn shortcut_is(s: Shortcut, label: Seq<char>, clickable: bool, id: usize) -> bool {
    s.label@ == label && s.clickable == clickable && s.id == id
}

fn shortcut(label: &str, clickable: bool, id: usize) -> (s: Shortcut)
    ensures
        shortcut_is(s, label@, clickable, id),
{
    Shortcut { label: label.to_owned(), clickable, id }
}

/// The modal's title on each step.
pub fn setup_title(step: ByopSetupStep) -> (t: &'static str)
    ensures
        t@ == (match step {
            ByopSetupStep::PickProvider => "Set up a provider"@,
            ByopSetupStep::EnterApiKey => "Enter API key"@,
            ByopSetupStep::Submitting => "Saving provider…"@,
        }),
{
    match step {
        ByopSetupStep::PickProvider => "Set up a provider",
        ByopSetupStep::EnterApiKey => "Enter API key",
        ByopSetupStep::Submitting => "Saving provider…",
    }
}

/// The shortcuts the modal window handles key presses with.
pub fn key_shortcuts() -> (s: Vec<Shortcut>)
    ensures
        s@.len() == 3,
        shortcut_is(s@[0], "↑↓ navigate"@, false, SHORTCUT_ID_HINT),
        shortcut_is(s@[1], "enter confirm"@, false, SHORTCUT_ID_HINT),
        shortcut_is(s@[2], "Esc cancel"@, true, SHORTCUT_ID_CANCEL),
{
    vec![
        shortcut("↑↓ navigate", false, SHORTCUT_ID_HINT),
        shortcut("enter confirm", false, SHORTCUT_ID_HINT),
        shortcut("Esc cancel", true, SHORTCUT_ID_CANCEL),
    ]
}

/// The footer shortcuts drawn on each step.
pub fn render_shortcuts(step: ByopSetupStep) -> (s: Vec<Shortcut>)
    ensures
        match step {
            ByopSetupStep::PickProvider => s@.len() == 3 && shortcut_is(s@[0], "↑↓ navigate"@, false, SHORTCUT_ID_HINT)
                && shortcut_is(s@[1], "enter select"@, false, SHORTCUT_ID_HINT) && shortcut_is(
                s@[2],
                "Esc cancel"@,
                true,
                SHORTCUT_ID_CANCEL,
            ),
            ByopSetupStep::EnterApiKey => s@.len() == 3 && shortcut_is(s@[0], "enter save"@, false, SHORTCUT_ID_HINT)
                && shortcut_is(s@[1], "Esc back"@, false, SHORTCUT_ID_HINT) && shortcut_is(
                s@[2],
                "ctrl-c cancel"@,
                true,
                SHORTCUT_ID_CANCEL,
            ),
            ByopSetupStep::Submitting => s@.len() == 1 && shortcut_is(s@[0], "saving…"@, false, SHORTCUT_ID_HINT),
        },
{
    match step {
        ByopSetupStep::PickProvider => vec![
            shortcut("↑↓ navigate", false, SHORTCUT_ID_HINT),
            shortcut("enter select", false, SHORTCUT_ID_HINT),
            shortcut("Esc cancel", true, SHORTCUT_ID_CANCEL),
        ],
        ByopSetupStep::EnterApiKey => vec![
            shortcut("enter save", false, SHORTCUT_ID_HINT),
            shortcut("Esc back", false, SHORTCUT_ID_HINT),
            shortcut("ctrl-c cancel", true, SHORTCUT_ID_CANCEL),
        ],
        ByopSetupStep::Submitting => vec![shortcut("saving…", false, SHORTCUT_ID_HINT)],
    }
}

/// Records where the content is drawn; on the provider step keeps the
/// focus on a preset and scrolls it into the visible rows.
pub fn prepare_render(state: &mut ByopSetupModalState, content_area: Rect, preset_count: usize)
    ensures
        final(state).content_area == Some(content_area),
        final(state).step == old(state).step,
        final(state).api_key_input == old(state).api_key_input,
        final(state).error == old(state).error,
        old(state).step != ByopSetupStep::PickProvider ==> final(state).focus == old(state).focus
            && final(state).scroll_offset == old(state).scroll_offset,
        old(state).step == ByopSetupStep::PickProvider ==> {
            &&& final(state).focus == (if preset_count == 0 { 0 } else if old(state).focus >= preset_count {
                (preset_count - 1) as usize
            } else {
                old(state).focus
            })
            &&& content_area.height > 0 ==> final(state).scroll_offset <= final(state).focus
                < final(state).scroll_offset + content_area.height
        },
{
    state.content_area = Some(content_area);
    if state.step == ByopSetupStep::PickProvider {
        state.clamp_focus(preset_count);
        state.ensure_focus_visible(content_area.height as usize);
    }
}

/// One drawn row of the provider list.
#[derive(Debug, Clone)]
pub struct ProviderRow {
    pub label: String,
    pub selected: bool,
}

/// The first preset drawn: the scroll offset, pulled back so that a full
/// window of rows stays in the list.
pub open spec fn first_row(scroll_offset: usize, n: usize, visible: usize) -> int {
    let window = if visible > 1 { visible } else { 1 };
    let limit = if n >= window { n - window } else { 0 };
    if scroll_offset < limit { scroll_offset as int } else { limit }
}

pub open spec fn row_label(p: ProviderPreset, selected: bool) -> Seq<char> {
    (if selected { "› "@ } else { "  "@ }) + p.display_name@ + "  ("@ + p.id@ + ")"@
}

/// The rows of the provider list that fit in `visible` rows.
pub fn provider_rows(state: &ByopSetupModalState, presets: &Vec<ProviderPreset>, visible: usize) -> (rows: Vec<ProviderRow>)
    ensures
        ({
            let start = first_row(state.scroll_offset, presets@.len() as usize, visible);
            let count = if presets@.len() - start < visible { presets@.len() - start } else { visible as int };
            &&& rows@.len() == count
            &&& forall|k: int| 0 <= k < count ==> {
                &&& (#[trigger] rows@[k]).selected == (start + k == state.focus)
                &&& rows@[k].label@ == row_label(presets@[start + k], start + k == state.focus)
            }
        }),
{
    let n = presets.len();
    let window = if visible > 1 { visible } else { 1 };
    let limit = if n >= window { n - window } else { 0 };
    let start = if state.scroll_offset < limit { state.scroll_offset } else { limit };
    let mut rows: Vec<ProviderRow> = Vec::new();
    let mut k: usize = 0;
    let ghost count = if n - start < visible { n - start } else { visible as int };
    while k < visible && start + k < n
        invariant
            start <= n,
            n == presets@.len(),
            start == first_row(state.scroll_offset, n, visible),
            count == (if n - start < visible { n - start } else { visible as int }),
            k <= count,
            rows@.len() == k,
            forall|j: int| 0 <= j < k ==> {
                &&& (#[trigger] rows@[j]).selected == (start + j == state.focus)
                &&& rows@[j].label@ == row_label(presets@[start + j], start + j == state.focus)
            },
        decreases visible - k,
    {
        let idx = start + k;
        let selected = idx == state.focus;
        let p = &presets[idx];
        let mut label = if selected { "› ".to_owned() } else { "  ".to_owned() };
        label.append(p.display_name.as_str());
        label.append("  (");
        label.append(p.id.as_str());
        label.append(")");
        rows.push(ProviderRow { label, selected });
        k = k + 1;
    }
    rows
}

/// The content of the key step.
#[derive(Debug, Clone)]
pub struct ApiKeyStepView {
    pub provider_line: String,
    pub endpoint_line: Option<String>,
    pub hint: String,
    /// One `•` per typed character, at most 64.
    pub masked_key: String,
    pub error: Option<String>,
}

pub open spec fn bullets(n: nat) -> Seq<char> {
    Seq::new(n, |i: int| '•')
}

/// The key step: the chosen provider, its endpoint, a hint (the key is
/// optional for presets that need none), the key as bullets, the error.
pub fn api_key_step_view(state: &ByopSetupModalState, presets: &Vec<ProviderPreset>) -> (v: ApiKeyStepView)
    requires
        presets@.len() > 0,
    ensures
        ({
            let p = presets@[spec_selected_index(state.focus, presets@.len() as usize) as int];
            let typed = state.api_key_input@.len();
            &&& v.provider_line@ == "Provider: "@ + p.display_name@ + " ("@ + p.id@ + ")"@
            &&& opt_view(v.endpoint_line) == (match p.base_url {
                Some(u) => Some("Endpoint: "@ + u@),
                None => None,
            })
            &&& v.hint@ == (if p.requires_api_key {
                "Paste your API key, then press Enter."@
            } else {
                "API key optional for local Ollama — press Enter to continue."@
            })
            &&& v.masked_key@ == bullets(if typed < 64 { typed } else { 64 })
            &&& opt_view(v.error) == opt_view(state.error)
        }),
{
    let idx = state.selected_index(presets.len());
    let p = &presets[idx];
    let mut provider_line = "Provider: ".to_owned();
    provider_line.append(p.display_name.as_str());
    provider_line.append(" (");
    provider_line.append(p.id.as_str());
    provider_line.append(")");
    let endpoint_line = match &p.base_url {
        Some(u) => {
            let mut l = "Endpoint: ".to_owned();
            l.append(u.as_str());
            Some(l)
        },
        None => None,
    };
    let hint = if p.requires_api_key {
        "Paste your API key, then press Enter.".to_owned()
    } else {
        "API key optional for local Ollama — press Enter to continue.".to_owned()
    };
    let typed = chars_of(state.api_key_input.as_str()).len();
    let count = if typed < 64 { typed } else { 64 };
    let mut masked = String::new();
    let mut i: usize = 0;
    while i < count
        invariant
            i <= count,
            masked@ == bullets(i as nat),
        decreases count - i,
    {
        push_char(&mut masked, '•');
        i = i + 1;
        proof {
            assert(masked@ =~= bullets(i as nat));
        }
    }
    let error = match &state.error {
        Some(e) => Some(e.clone()),
        None => None,
    };
    ApiKeyStepView { provider_line, endpoint_line, hint, masked_key: masked, error }
}

/// The text shown while the provider is being saved.
pub fn submitting_text() -> (t: &'static str)
    ensures
        t@ == "Saving credentials and refreshing models…"@,
{
    "Saving credentials and refreshing models…"
}

} // verus!

verus! {

/// Key presses and mouse events keep the focus on an existing preset.
pub proof fn law_focus_stays_in_list(
    old_s: ByopSetupModalState,
    new_key: ByopSetupModalState,
    new_mouse: ByopSetupModalState,
    presets: Seq<ProviderPreset>,
    key: KeyInput,
    kind: MouseKind,
    column: u16,
    row: u16,
    window: ModalWindowOutcome,
    out_key: ByopSetupOutcome,
    out_mouse: ByopSetupOutcome,
)
    requires
        old_s.focus < presets.len(),
        key_spec(old_s, new_key, presets, key, window, out_key),
        mouse_spec(old_s, new_mouse, presets.len() as usize, kind, column, row, window, out_mouse),
    ensures
        new_key.focus < presets.len(),
        new_mouse.focus < presets.len(),
{
}

/// Whatever is submitted carries a non-empty API key: the trimmed typed
/// key, or `ollama` for a preset that needs none when nothing was typed;
/// a preset that needs a key is never submitted with a blank one.
pub proof fn law_submitted_key(
    old_s: ByopSetupModalState,
    new_s: ByopSetupModalState,
    presets: Seq<ProviderPreset>,
    out: ByopSetupOutcome,
)
    requires
        presets.len() > 0,
        submit_spec(old_s, new_s, presets, out),
        out is Submit,
    ensures
        out->api_key@.len() > 0,
        trim(old_s.api_key_input@).len() == 0 ==> !presets[spec_selected_index(old_s.focus, presets.len() as usize) as int].requires_api_key,
        new_s.step == ByopSetupStep::Submitting,
{
    reveal_strlit("ollama");
}

/// While saving, the wizard ignores every key press and mouse event.
pub proof fn law_submitting_ignores_input(
    old_s: ByopSetupModalState,
    new_s: ByopSetupModalState,
    presets: Seq<ProviderPreset>,
    key: KeyInput,
    window: ModalWindowOutcome,
    out: ByopSetupOutcome,
)
    requires
        old_s.step == ByopSetupStep::Submitting,
        key_spec(old_s, new_s, presets, key, window, out),
    ensures
        out == ByopSetupOutcome::Unchanged,
        unchanged(old_s, new_s),
{
}

/// Going back undoes picking: Enter on the provider list, then Esc on the
/// key step, returns to the list with the same provider focused, the same
/// typed key and no error.
pub proof fn law_back_undoes_pick(
    s0: ByopSetupModalState,
    s1: ByopSetupModalState,
    s2: ByopSetupModalState,
    presets: Seq<ProviderPreset>,
    enter: KeyInput,
    esc: KeyInput,
    out1: ByopSetupOutcome,
    out2: ByopSetupOutcome,
)
    requires
        s0.step == ByopSetupStep::PickProvider,
        enter.code == KeyCode::Enter,
        key_spec(s0, s1, presets, enter, ModalWindowOutcome::Unhandled, out1),
        key_spec(s1, s2, presets, esc, ModalWindowOutcome::CloseRequested, out2),
    ensures
        s2.step == ByopSetupStep::PickProvider,
        s2.focus == s0.focus,
        s2.scroll_offset == s0.scroll_offset,
        s2.api_key_input == s0.api_key_input,
        s2.error is None,
        out1 == ByopSetupOutcome::Changed && out2 == ByopSetupOutcome::Changed,
{
}

/// A mouse event changes nothing while saving, nor, unless the window
/// closed, cancelled or handled it, on the key step, before the list was
/// drawn, or for a left click outside the list.
pub proof fn law_mouse_outside_changes_nothing(
    old_s: ByopSetupModalState,
    new_s: ByopSetupModalState,
    n: usize,
    kind: MouseKind,
    column: u16,
    row: u16,
    window: ModalWindowOutcome,
    out: ByopSetupOutcome,
)
    requires
        mouse_spec(old_s, new_s, n, kind, column, row, window, out),
        old_s.step == ByopSetupStep::Submitting || (window != ModalWindowOutcome::CloseRequested
            && window != ModalWindowOutcome::ShortcutActivated(SHORTCUT_ID_CANCEL) && window
            != ModalWindowOutcome::Handled && (old_s.step == ByopSetupStep::EnterApiKey
            || old_s.content_area is None || (kind == MouseKind::LeftDown && !in_rect(
            old_s.content_area->0,
            column,
            row,
        )))),
    ensures
        out == ByopSetupOutcome::Unchanged,
        unchanged(old_s, new_s),
{
}

} // verus!
