use failure_kit::theme::{Rgb, Theme};

#[test]
fn test_dracula_theme() {
    let theme = Theme::dracula();
    assert!(matches!(theme.bg_base, Rgb { r: 40, g: 42, b: 54 }));
    assert!(matches!(theme.accent_user, Rgb { r: 189, g: 147, b: 249 }));
}

#[test]
fn dracula_palette_roles() {
    let theme = Theme::dracula();
    assert_eq!(theme.accent_error, Rgb { r: 255, g: 85, b: 85 });
    assert_eq!(theme.accent_success, Rgb { r: 80, g: 250, b: 123 });
    assert_eq!(theme.text_primary, Rgb { r: 248, g: 248, b: 242 });
    assert_eq!(theme.md_heading_h1_mod.bits & 1, 1);
}
