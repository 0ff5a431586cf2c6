use musicplayer::styles::{aqua_glass, sonic_flux, vintage_pro};
use musicplayer::theme::{get_stylesheet, ThemeManager, UiStyle};
use musicplayer::ui::Theme;

#[test]
fn test_theme_css() {
    assert_eq!(Theme::Dark.to_css(), "theme-dark");
}

#[test]
fn light_theme_css() {
    assert_eq!(Theme::Light.to_css(), "theme-light");
}

#[test]
fn style_shortcuts_round_trip() {
    for s in UiStyle::all() {
        assert_eq!(UiStyle::from_index(s.shortcut()), Some(s));
    }
    assert_eq!(UiStyle::from_index(0), None);
    assert_eq!(UiStyle::from_index(4), None);
    assert_eq!(UiStyle::all(), vec![UiStyle::AquaGlass, UiStyle::SonicFlux, UiStyle::VintagePro]);
}

#[test]
fn style_display_names() {
    assert_eq!(UiStyle::AquaGlass.display_name(), "AQUA GLASS");
    assert_eq!(UiStyle::SonicFlux.display_name(), "SONIC FLUX");
    assert_eq!(UiStyle::VintagePro.display_name(), "VINTAGE PRO");
    assert_eq!(UiStyle::VintagePro.shortcut(), 3);
}

#[test]
fn theme_manager_switches_sheet() {
    let mut m = ThemeManager::new(UiStyle::AquaGlass);
    assert_eq!(m.style_sheet.primary, "#667eea");
    m.switch(UiStyle::SonicFlux);
    assert_eq!(m.current, UiStyle::SonicFlux);
    assert_eq!(m.style_sheet.primary, "#00f0ff");
    assert!(m.style_sheet == get_stylesheet(UiStyle::SonicFlux));
    m.switch(UiStyle::SonicFlux);
    assert_eq!(m.current, UiStyle::SonicFlux);
    m.switch(UiStyle::VintagePro);
    assert_eq!(m.style_sheet.font_family, "'Georgia', 'Playfair Display', 'Times New Roman', serif");
}

#[test]
fn css_vars_block() {
    let sheet = get_stylesheet(UiStyle::AquaGlass);
    let css = sheet.to_css_vars();
    assert!(css.starts_with("\n:root {\n    --primary: #667eea;\n    --secondary: #764ba2;\n"));
    assert!(css.contains("    --color-accent: #64ffda;\n"));
    assert!(css.contains("    --bg-glass: rgba(255,255,255,0.06);\n"));
    assert!(css.ends_with("    --font-family: 'Inter', -apple-system, BlinkMacSystemFont, 'Segoe UI', sans-serif;\n}\n"));
}

#[test]
fn design_sheets() {
    assert_eq!(aqua_glass::create().accent, "#ff6b6b");
    assert_eq!(sonic_flux::create().primary, "#00ffff");
    assert!(aqua_glass::create().animations.contains("@keyframes spin {{"));
    assert!(!vintage_pro::create().primary.is_empty());
}
