//! The Dracula theme of the pager: the official Dracula palette
//! (draculatheme.com) and a few derived shades for the background and
//! border roles the theme has beyond that palette.
use vstd::prelude::*;

verus! {

/// A 24-bit color.
#[derive(Debug, Clone, Copy, PartialEq, Eq, Structural)]
pub struct Rgb {
    pub r: u8,
    pub g: u8,
    pub b: u8,
}

/// Text modifier bits (bold is bit 0).
#[derive(Debug, Clone, Copy, PartialEq, Eq, Structural)]
pub struct TextModifier {
    pub bits: u16,
}

pub open spec fn bold() -> TextModifier {
    TextModifier { bits: 1 }
}

pub fn rgb(r: u8, g: u8, b: u8) -> (c: Rgb)
    ensures
        c == (Rgb { r, g, b }),
{
    Rgb { r, g, b }
}

/// #282a36, official palette.
pub open spec fn background() -> Rgb {
    Rgb { r: 40, g: 42, b: 54 }
}

/// #44475a, official palette.
pub open spec fn current_line() -> Rgb {
    Rgb { r: 68, g: 71, b: 90 }
}

/// #f8f8f2, official palette.
pub open spec fn foreground() -> Rgb {
    Rgb { r: 248, g: 248, b: 242 }
}

/// #6272a4, official palette.
pub open spec fn comment() -> Rgb {
    Rgb { r: 98, g: 114, b: 164 }
}

/// #8be9fd, official palette.
pub open spec fn cyan() -> Rgb {
    Rgb { r: 139, g: 233, b: 253 }
}

/// #50fa7b, official palette.
pub open spec fn green() -> Rgb {
    Rgb { r: 80, g: 250, b: 123 }
}

/// #ffb86c, official palette.
pub open spec fn orange() -> Rgb {
    Rgb { r: 255, g: 184, b: 108 }
}

/// #ff79c6, official palette.
pub open spec fn pink() -> Rgb {
    Rgb { r: 255, g: 121, b: 198 }
}

/// #bd93f9, official palette.
pub open spec fn purple() -> Rgb {
    Rgb { r: 189, g: 147, b: 249 }
}

/// #ff5555, official palette.
pub open spec fn red() -> Rgb {
    Rgb { r: 255, g: 85, b: 85 }
}

/// #f1fa8c, official palette.
pub open spec fn yellow() -> Rgb {
    Rgb { r: 241, g: 250, b: 140 }
}

/// Derived shade, outside the official palette.
pub open spec fn background_dark() -> Rgb {
    Rgb { r: 30, g: 31, b: 42 }
}

/// Derived shade, outside the official palette.
pub open spec fn background_darker() -> Rgb {
    Rgb { r: 23, g: 24, b: 33 }
}

/// Derived shade, outside the official palette.
pub open spec fn hover() -> Rgb {
    Rgb { r: 58, g: 61, b: 78 }
}

/// Derived shade, outside the official palette.
pub open spec fn subtle() -> Rgb {
    Rgb { r: 158, g: 165, b: 194 }
}

/// Derived shade, outside the official palette.
pub open spec fn border_active() -> Rgb {
    Rgb { r: 90, g: 94, b: 120 }
}

/// The colors and modifiers of every role of the pager's theme.
#[derive(Debug, Clone, Copy, PartialEq, Eq)]
pub struct Theme {
    pub bg_base: Rgb,
    pub bg_light: Rgb,
    pub bg_dark: Rgb,
    pub bg_highlight: Rgb,
    pub bg_hover: Rgb,
    pub bg_terminal: Rgb,
    pub accent_user: Rgb,
    pub accent_assistant: Rgb,
    pub accent_thinking: Rgb,
    pub accent_tool: Rgb,
    pub accent_system: Rgb,
    pub accent_error: Rgb,
    pub accent_success: Rgb,
    pub accent_running: Rgb,
    pub accent_skill: Rgb,
    pub text_primary: Rgb,
    pub text_secondary: Rgb,
    pub gray_dim: Rgb,
    pub gray: Rgb,
    pub gray_bright: Rgb,
    pub command: Rgb,
    pub path: Rgb,
    pub running: Rgb,
    pub warning: Rgb,
    pub fuzzy_accent: Rgb,
    pub accent_plan: Rgb,
    pub accent_verify: Rgb,
    pub accent_feedback: Rgb,
    pub accent_remember: Rgb,
    pub selection_border: Rgb,
    pub hover_border: Rgb,
    pub prompt_border: Rgb,
    pub prompt_border_active: Rgb,
    pub accent_model: Rgb,
    pub scrollbar_bg: Rgb,
    pub scrollbar_fg: Rgb,
    pub diff_delete_bg: Rgb,
    pub diff_delete_fg: Rgb,
    pub diff_insert_bg: Rgb,
    pub diff_insert_fg: Rgb,
    pub diff_equal_fg: Rgb,
    pub diff_gutter_fg: Rgb,
    pub bg_visual: Rgb,
    pub paste_bg: Rgb,
    pub paste_fg: Rgb,
    pub paste_dim: Rgb,
    pub md_heading_h1: Rgb,
    pub md_heading_h1_mod: TextModifier,
    pub md_heading_h2: Rgb,
    pub md_heading_h2_mod: TextModifier,
    pub md_heading_h3: Rgb,
    pub md_heading_h3_mod: TextModifier,
    pub md_heading_h4: Rgb,
    pub md_heading_h4_mod: TextModifier,
    pub md_heading_h5: Rgb,
    pub md_heading_h5_mod: TextModifier,
    pub md_heading_h6: Rgb,
    pub md_heading_h6_mod: TextModifier,
    pub md_code: Rgb,
    pub md_task_checked: Rgb,
    pub md_task_unchecked: Rgb,
    pub md_muted: Rgb,
    pub md_code_bg: Rgb,
    pub md_text: Rgb,
    pub link_fg: Rgb,
}

impl Theme {
    /// Dracula theme (draculatheme.com).
    pub fn dracula() -> (t: Self)
        ensures
            t.bg_base == background(),
            t.bg_light == current_line(),
            t.bg_dark == background_dark(),
            t.bg_highlight == current_line(),
            t.bg_hover == hover(),
            t.bg_terminal == background_dark(),
            t.accent_user == purple(),
            t.accent_assistant == pink(),
            t.accent_thinking == comment(),
            t.accent_tool == subtle(),
            t.accent_system == purple(),
            t.accent_error == red(),
            t.accent_success == green(),
            t.accent_running == pink(),
            t.accent_skill == cyan(),
            t.text_primary == foreground(),
            t.text_secondary == subtle(),
            t.gray_dim == current_line(),
            t.gray == comment(),
            t.gray_bright == subtle(),
            t.command == yellow(),
            t.path == orange(),
            t.running == cyan(),
            t.warning == yellow(),
            t.fuzzy_accent == purple(),
            t.accent_plan == orange(),
            t.accent_verify == purple(),
            t.accent_feedback == green(),
            t.accent_remember == green(),
            t.selection_border == current_line(),
            t.hover_border == hover(),
            t.prompt_border == current_line(),
            t.prompt_border_active == border_active(),
            t.accent_model == cyan(),
            t.scrollbar_bg == background_darker(),
            t.scrollbar_fg == current_line(),
            t.diff_delete_bg == (Rgb { r: 80, g: 25, b: 30 }),
            t.diff_delete_fg == red(),
            t.diff_insert_bg == (Rgb { r: 20, g: 60, b: 30 }),
            t.diff_insert_fg == green(),
            t.diff_equal_fg == comment(),
            t.diff_gutter_fg == comment(),
            t.bg_visual == (Rgb { r: 58, g: 61, b: 84 }),
            t.paste_bg == background_dark(),
            t.paste_fg == subtle(),
            t.paste_dim == comment(),
            t.md_heading_h1 == purple(),
            t.md_heading_h1_mod == bold(),
            t.md_heading_h2 == pink(),
            t.md_heading_h2_mod == bold(),
            t.md_heading_h3 == orange(),
            t.md_heading_h3_mod == bold(),
            t.md_heading_h4 == red(),
            t.md_heading_h4_mod == bold(),
            t.md_heading_h5 == green(),
            t.md_heading_h5_mod == bold(),
            t.md_heading_h6 == cyan(),
            t.md_heading_h6_mod == bold(),
            t.md_code == green(),
            t.md_task_checked == green(),
            t.md_task_unchecked == subtle(),
            t.md_muted == comment(),
            t.md_code_bg == background_dark(),
            t.md_text == foreground(),
            t.link_fg == cyan(),
    {
        Theme {
            bg_base: rgb(40, 42, 54),
            bg_light: rgb(68, 71, 90),
            bg_dark: rgb(30, 31, 42),
            bg_highlight: rgb(68, 71, 90),
            bg_hover: rgb(58, 61, 78),
            bg_terminal: rgb(30, 31, 42),
            accent_user: rgb(189, 147, 249),
            accent_assistant: rgb(255, 121, 198),
            accent_thinking: rgb(98, 114, 164),
            accent_tool: rgb(158, 165, 194),
            accent_system: rgb(189, 147, 249),
            accent_error: rgb(255, 85, 85),
            accent_success: rgb(80, 250, 123),
            accent_running: rgb(255, 121, 198),
            accent_skill: rgb(139, 233, 253),
            text_primary: rgb(248, 248, 242),
            text_secondary: rgb(158, 165, 194),
            gray_dim: rgb(68, 71, 90),
            gray: rgb(98, 114, 164),
            gray_bright: rgb(158, 165, 194),
            command: rgb(241, 250, 140),
            path: rgb(255, 184, 108),
            running: rgb(139, 233, 253),
            warning: rgb(241, 250, 140),
            fuzzy_accent: rgb(189, 147, 249),
            accent_plan: rgb(255, 184, 108),
            accent_verify: rgb(189, 147, 249),
            accent_feedback: rgb(80, 250, 123),
            accent_remember: rgb(80, 250, 123),
            selection_border: rgb(68, 71, 90),
            hover_border: rgb(58, 61, 78),
            prompt_border: rgb(68, 71, 90),
            prompt_border_active: rgb(90, 94, 120),
            accent_model: rgb(139, 233, 253),
            scrollbar_bg: rgb(23, 24, 33),
            scrollbar_fg: rgb(68, 71, 90),
            diff_delete_bg: rgb(80, 25, 30),
            diff_delete_fg: rgb(255, 85, 85),
            diff_insert_bg: rgb(20, 60, 30),
            diff_insert_fg: rgb(80, 250, 123),
            diff_equal_fg: rgb(98, 114, 164),
            diff_gutter_fg: rgb(98, 114, 164),
            bg_visual: rgb(58, 61, 84),
            paste_bg: rgb(30, 31, 42),
            paste_fg: rgb(158, 165, 194),
            paste_dim: rgb(98, 114, 164),
            md_heading_h1: rgb(189, 147, 249),
            md_heading_h1_mod: TextModifier { bits: 1 },
            md_heading_h2: rgb(255, 121, 198),
            md_heading_h2_mod: TextModifier { bits: 1 },
            md_heading_h3: rgb(255, 184, 108),
            md_heading_h3_mod: TextModifier { bits: 1 },
            md_heading_h4: rgb(255, 85, 85),
            md_heading_h4_mod: TextModifier { bits: 1 },
            md_heading_h5: rgb(80, 250, 123),
            md_heading_h5_mod: TextModifier { bits: 1 },
            md_heading_h6: rgb(139, 233, 253),
            md_heading_h6_mod: TextModifier { bits: 1 },
            md_code: rgb(80, 250, 123),
            md_task_checked: rgb(80, 250, 123),
            md_task_unchecked: rgb(158, 165, 194),
            md_muted: rgb(98, 114, 164),
            md_code_bg: rgb(30, 31, 42),
            md_text: rgb(248, 248, 242),
            link_fg: rgb(139, 233, 253),
        }
    }
}

} // verus!
