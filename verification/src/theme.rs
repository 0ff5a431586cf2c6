//! Theme system: the three UI styles, their style sheets, and the theme
//! manager that switches between them.

use vstd::prelude::*;

verus! {

broadcast use vstd::string::group_string_axioms;

/// CSS variables and inline snippets of one UI style.
#[derive(Clone, PartialEq)]
pub struct StyleSheet {
    pub primary: String,
    pub secondary: String,
    pub accent: String,
    pub bg_start: String,
    pub bg_end: String,
    pub glass_bg: String,
    pub text_primary: String,
    pub text_secondary: String,
    pub radius_large: String,
    pub radius_medium: String,
    pub radius_small: String,
    pub glass_blur: String,
    pub neon_glow: String,
    pub shadow: String,
    pub title_bar_style: String,
    pub button_style: String,
    pub slider_style: String,
    pub vu_style: String,
    pub font_family: String,
    pub animations: String,
}

/// The texts of a style sheet.
pub struct StyleSheetView {
    pub primary: Seq<char>,
    pub secondary: Seq<char>,
    pub accent: Seq<char>,
    pub bg_start: Seq<char>,
    pub bg_end: Seq<char>,
    pub glass_bg: Seq<char>,
    pub text_primary: Seq<char>,
    pub text_secondary: Seq<char>,
    pub radius_large: Seq<char>,
    pub radius_medium: Seq<char>,
    pub radius_small: Seq<char>,
    pub glass_blur: Seq<char>,
    pub neon_glow: Seq<char>,
    pub shadow: Seq<char>,
    pub title_bar_style: Seq<char>,
    pub button_style: Seq<char>,
    pub slider_style: Seq<char>,
    pub vu_style: Seq<char>,
    pub font_family: Seq<char>,
    pub animations: Seq<char>,
}

impl View for StyleSheet {
    type V = StyleSheetView;

    open spec fn view(&self) -> StyleSheetView {
        StyleSheetView {
            primary: self.primary@,
            secondary: self.secondary@,
            accent: self.accent@,
            bg_start: self.bg_start@,
            bg_end: self.bg_end@,
            glass_bg: self.glass_bg@,
            text_primary: self.text_primary@,
            text_secondary: self.text_secondary@,
            radius_large: self.radius_large@,
            radius_medium: self.radius_medium@,
            radius_small: self.radius_small@,
            glass_blur: self.glass_blur@,
            neon_glow: self.neon_glow@,
            shadow: self.shadow@,
            title_bar_style: self.title_bar_style@,
            button_style: self.button_style@,
            slider_style: self.slider_style@,
            vu_style: self.vu_style@,
            font_family: self.font_family@,
            animations: self.animations@,
        }
    }
}

/// The `:root` block of CSS variables for a style sheet.
pub open spec fn css_vars(v: StyleSheetView) -> Seq<char> {
    "\n:root {\n    --primary: "@
        + v.primary
        + ";\n    --secondary: "@
        + v.secondary
        + ";\n    --accent: "@
        + v.accent
        + ";\n    --color-primary: "@
        + v.primary
        + ";\n    --color-secondary: "@
        + v.secondary
        + ";\n    --color-accent: "@
        + v.accent
        + ";\n    --bg-start: "@
        + v.bg_start
        + ";\n    --bg-end: "@
        + v.bg_end
        + ";\n    --glass-bg: "@
        + v.glass_bg
        + ";\n    --bg-glass: "@
        + v.glass_bg
        + ";\n    --text-primary: "@
        + v.text_primary
        + ";\n    --text-secondary: "@
        + v.text_secondary
        + ";\n    --radius-lg: "@
        + v.radius_large
        + ";\n    --radius-md: "@
        + v.radius_medium
        + ";\n    --radius-sm: "@
        + v.radius_small
        + ";\n    --glass-blur: "@
        + v.glass_blur
        + ";\n    --neon-glow: "@
        + v.neon_glow
        + ";\n    --shadow: "@
        + v.shadow
        + ";\n    --font-family: "@
        + v.font_family
        + ";\n}\n"@
}

impl StyleSheet {
    /// The style sheet as a `:root` block of CSS variables.
    pub fn to_css_vars(&self) -> (s: String)
        ensures
            s@ == css_vars(self@),
    {
        let s = String::from_str("\n:root {\n    --primary: ");
        let s = s.concat(self.primary.as_str());
        let s = s.concat(";\n    --secondary: ");
        let s = s.concat(self.secondary.as_str());
        let s = s.concat(";\n    --accent: ");
        let s = s.concat(self.accent.as_str());
        let s = s.concat(";\n    --color-primary: ");
        let s = s.concat(self.primary.as_str());
        let s = s.concat(";\n    --color-secondary: ");
        let s = s.concat(self.secondary.as_str());
        let s = s.concat(";\n    --color-accent: ");
        let s = s.concat(self.accent.as_str());
        let s = s.concat(";\n    --bg-start: ");
        let s = s.concat(self.bg_start.as_str());
        let s = s.concat(";\n    --bg-end: ");
        let s = s.concat(self.bg_end.as_str());
        let s = s.concat(";\n    --glass-bg: ");
        let s = s.concat(self.glass_bg.as_str());
        let s = s.concat(";\n    --bg-glass: ");
        let s = s.concat(self.glass_bg.as_str());
        let s = s.concat(";\n    --text-primary: ");
        let s = s.concat(self.text_primary.as_str());
        let s = s.concat(";\n    --text-secondary: ");
        let s = s.concat(self.text_secondary.as_str());
        let s = s.concat(";\n    --radius-lg: ");
        let s = s.concat(self.radius_large.as_str());
        let s = s.concat(";\n    --radius-md: ");
        let s = s.concat(self.radius_medium.as_str());
        let s = s.concat(";\n    --radius-sm: ");
        let s = s.concat(self.radius_small.as_str());
        let s = s.concat(";\n    --glass-blur: ");
        let s = s.concat(self.glass_blur.as_str());
        let s = s.concat(";\n    --neon-glow: ");
        let s = s.concat(self.neon_glow.as_str());
        let s = s.concat(";\n    --shadow: ");
        let s = s.concat(self.shadow.as_str());
        let s = s.concat(";\n    --font-family: ");
        let s = s.concat(self.font_family.as_str());
        let s = s.concat(";\n}\n");
        s
    }
}

/// The Aqua Glass style (organic, fluid).
pub open spec fn aqua_glass_sheet() -> StyleSheetView {
    StyleSheetView {
        primary: "#667eea"@,
        secondary: "#764ba2"@,
        accent: "#64ffda"@,
        bg_start: "linear-gradient(135deg, #0f0c29 0%, #302b63 50%, #24243e 100%)"@,
        bg_end: "linear-gradient(135deg, #0f0c29 0%, #302b63 50%, #24243e 100%)"@,
        glass_bg: "rgba(255,255,255,0.06)"@,
        text_primary: "#ffffff"@,
        text_secondary: "rgba(255,255,255,0.6)"@,
        radius_large: "24px"@,
        radius_medium: "14px"@,
        radius_small: "8px"@,
        glass_blur: "blur(28px) saturate(1.2)"@,
        neon_glow: "0 0 20px rgba(100,255,218,0.3)"@,
        shadow: "0 8px 32px rgba(0,0,0,0.3), 0 0 12px rgba(100,255,218,0.1)"@,
        title_bar_style: "height: 48px; background: rgba(255,255,255,0.06); backdrop-filter: blur(24px); border-bottom: 1px solid rgba(255,255,255,0.08); display: flex; justify-content: space-between; align-items: center; padding: 0 16px; box-shadow: 0 2px 8px rgba(0,0,0,0.1);"@,
        button_style: "padding: 10px 20px; background: rgba(255,255,255,0.12); border: 1px solid rgba(255,255,255,0.2); border-radius: var(--radius-md); color: var(--text-primary); cursor: pointer; backdrop-filter: blur(12px); transition: all 0.2s ease; box-shadow: 0 4px 12px rgba(0,0,0,0.1);"@,
        slider_style: "-webkit-appearance: none; width: 100%; height: 8px; border-radius: 4px; background: rgba(255,255,255,0.15); outline: none; box-shadow: inset 0 2px 4px rgba(0,0,0,0.1);"@,
        vu_style: "display: flex; gap: 2px; align-items: flex-end; filter: drop-shadow(0 0 4px var(--accent));"@,
        font_family: "'Inter', -apple-system, BlinkMacSystemFont, 'Segoe UI', sans-serif"@,
        animations: "@keyframes rotate { from { transform: rotate(0deg); } to { transform: rotate(360deg); } } @keyframes vinylSpin { from { transform: rotate(0deg); } to { transform: rotate(360deg); } } @keyframes shimmer { 0% { background-position: -200% 0; } 100% { background-position: 200% 0; } } @keyframes glowPulse { 0%, 100% { box-shadow: 0 0 20px rgba(100,255,218,0.2); } 50% { box-shadow: 0 0 30px rgba(100,255,218,0.4); } } @keyframes floatUp { 0%, 100% { transform: translateY(0px); } 50% { transform: translateY(-6px); } } @keyframes breathe { 0%, 100% { opacity: 0.3; } 50% { opacity: 0.6; } }"@,
    }
}

/// The Aqua Glass style (organic, fluid).
pub fn create_aqua_glass() -> (s: StyleSheet)
    ensures
        s@ == aqua_glass_sheet(),
{
    StyleSheet {
        primary: String::from_str("#667eea"),
        secondary: String::from_str("#764ba2"),
        accent: String::from_str("#64ffda"),
        bg_start: String::from_str("linear-gradient(135deg, #0f0c29 0%, #302b63 50%, #24243e 100%)"),
        bg_end: String::from_str("linear-gradient(135deg, #0f0c29 0%, #302b63 50%, #24243e 100%)"),
        glass_bg: String::from_str("rgba(255,255,255,0.06)"),
        text_primary: String::from_str("#ffffff"),
        text_secondary: String::from_str("rgba(255,255,255,0.6)"),
        radius_large: String::from_str("24px"),
        radius_medium: String::from_str("14px"),
        radius_small: String::from_str("8px"),
        glass_blur: String::from_str("blur(28px) saturate(1.2)"),
        neon_glow: String::from_str("0 0 20px rgba(100,255,218,0.3)"),
        shadow: String::from_str("0 8px 32px rgba(0,0,0,0.3), 0 0 12px rgba(100,255,218,0.1)"),
        title_bar_style: String::from_str("height: 48px; background: rgba(255,255,255,0.06); backdrop-filter: blur(24px); border-bottom: 1px solid rgba(255,255,255,0.08); display: flex; justify-content: space-between; align-items: center; padding: 0 16px; box-shadow: 0 2px 8px rgba(0,0,0,0.1);"),
        button_style: String::from_str("padding: 10px 20px; background: rgba(255,255,255,0.12); border: 1px solid rgba(255,255,255,0.2); border-radius: var(--radius-md); color: var(--text-primary); cursor: pointer; backdrop-filter: blur(12px); transition: all 0.2s ease; box-shadow: 0 4px 12px rgba(0,0,0,0.1);"),
        slider_style: String::from_str("-webkit-appearance: none; width: 100%; height: 8px; border-radius: 4px; background: rgba(255,255,255,0.15); outline: none; box-shadow: inset 0 2px 4px rgba(0,0,0,0.1);"),
        vu_style: String::from_str("display: flex; gap: 2px; align-items: flex-end; filter: drop-shadow(0 0 4px var(--accent));"),
        font_family: String::from_str("'Inter', -apple-system, BlinkMacSystemFont, 'Segoe UI', sans-serif"),
        animations: String::from_str("@keyframes rotate { from { transform: rotate(0deg); } to { transform: rotate(360deg); } } @keyframes vinylSpin { from { transform: rotate(0deg); } to { transform: rotate(360deg); } } @keyframes shimmer { 0% { background-position: -200% 0; } 100% { background-position: 200% 0; } } @keyframes glowPulse { 0%, 100% { box-shadow: 0 0 20px rgba(100,255,218,0.2); } 50% { box-shadow: 0 0 30px rgba(100,255,218,0.4); } } @keyframes floatUp { 0%, 100% { transform: translateY(0px); } 50% { transform: translateY(-6px); } } @keyframes breathe { 0%, 100% { opacity: 0.3; } 50% { opacity: 0.6; } }"),
    }
}

/// The Sonic Flux style (cyberpunk).
pub open spec fn sonic_flux_sheet() -> StyleSheetView {
    StyleSheetView {
        primary: "#00f0ff"@,
        secondary: "#ff00ff"@,
        accent: "#00ff9d"@,
        bg_start: "linear-gradient(135deg, #050510 0%, #0a0a1a 40%, #0d1117 100%)"@,
        bg_end: "linear-gradient(135deg, #050510 0%, #0a0a1a 40%, #0d1117 100%)"@,
        glass_bg: "rgba(0,240,255,0.04)"@,
        text_primary: "#e6e6e6"@,
        text_secondary: "rgba(255,255,255,0.5)"@,
        radius_large: "4px"@,
        radius_medium: "2px"@,
        radius_small: "0px"@,
        glass_blur: "blur(12px)"@,
        neon_glow: "0 0 10px var(--primary), 0 0 20px var(--accent), 0 0 30px var(--primary)"@,
        shadow: "0 0 25px rgba(0,240,255,0.4), 0 0 50px rgba(0,255,157,0.2)"@,
        title_bar_style: "height: 60px; background: rgba(10,10,10,0.95); border-bottom: 1px solid rgba(0,240,255,0.4); display: flex; justify-content: space-between; align-items: center; padding: 0 16px; box-shadow: 0 2px 12px rgba(0,240,255,0.2);"@,
        button_style: "padding: 8px 16px; background: rgba(0,240,255,0.1); border: 1px solid var(--primary); color: var(--primary); border-radius: 0; cursor: pointer; transition: all 0.15s; box-shadow: 0 0 8px rgba(0,240,255,0.3); text-shadow: 0 0 4px var(--primary);"@,
        slider_style: "-webkit-appearance: none; width: 100%; height: 4px; border-radius: 0; background: rgba(0,240,255,0.3); outline: none; box-shadow: 0 0 6px rgba(0,240,255,0.5);"@,
        vu_style: "display: flex; gap: 1px; align-items: flex-end; filter: drop-shadow(0 0 6px var(--accent));"@,
        font_family: "'JetBrains Mono', 'Consolas', 'Courier New', monospace"@,
        animations: "@keyframes scan { 0% { transform: translateY(-100%); opacity: 0; } 50% { opacity: 1; } 100% { transform: translateY(100%); opacity: 0; } } @keyframes glitch { 0% { transform: translate(0); } 20% { transform: translate(-2px, 2px); } 40% { transform: translate(-2px, -2px); } 60% { transform: translate(2px, 2px); } 80% { transform: translate(2px, -2px); } 100% { transform: translate(0); } } @keyframes neonPulse { 0%, 100% { box-shadow: 0 0 8px var(--primary), 0 0 16px var(--accent); } 50% { box-shadow: 0 0 16px var(--primary), 0 0 32px var(--accent); } } @keyframes scanline { 0% { top: -10%; } 100% { top: 110%; } } @keyframes dataStream { 0% { background-position: 0 0; } 100% { background-position: 0 100%; } }"@,
    }
}

/// The Sonic Flux style (cyberpunk).
pub fn create_sonic_flux() -> (s: StyleSheet)
    ensures
        s@ == sonic_flux_sheet(),
{
    StyleSheet {
        primary: String::from_str("#00f0ff"),
        secondary: String::from_str("#ff00ff"),
        accent: String::from_str("#00ff9d"),
        bg_start: String::from_str("linear-gradient(135deg, #050510 0%, #0a0a1a 40%, #0d1117 100%)"),
        bg_end: String::from_str("linear-gradient(135deg, #050510 0%, #0a0a1a 40%, #0d1117 100%)"),
        glass_bg: String::from_str("rgba(0,240,255,0.04)"),
        text_primary: String::from_str("#e6e6e6"),
        text_secondary: String::from_str("rgba(255,255,255,0.5)"),
        radius_large: String::from_str("4px"),
        radius_medium: String::from_str("2px"),
        radius_small: String::from_str("0px"),
        glass_blur: String::from_str("blur(12px)"),
        neon_glow: String::from_str("0 0 10px var(--primary), 0 0 20px var(--accent), 0 0 30px var(--primary)"),
        shadow: String::from_str("0 0 25px rgba(0,240,255,0.4), 0 0 50px rgba(0,255,157,0.2)"),
        title_bar_style: String::from_str("height: 60px; background: rgba(10,10,10,0.95); border-bottom: 1px solid rgba(0,240,255,0.4); display: flex; justify-content: space-between; align-items: center; padding: 0 16px; box-shadow: 0 2px 12px rgba(0,240,255,0.2);"),
        button_style: String::from_str("padding: 8px 16px; background: rgba(0,240,255,0.1); border: 1px solid var(--primary); color: var(--primary); border-radius: 0; cursor: pointer; transition: all 0.15s; box-shadow: 0 0 8px rgba(0,240,255,0.3); text-shadow: 0 0 4px var(--primary);"),
        slider_style: String::from_str("-webkit-appearance: none; width: 100%; height: 4px; border-radius: 0; background: rgba(0,240,255,0.3); outline: none; box-shadow: 0 0 6px rgba(0,240,255,0.5);"),
        vu_style: String::from_str("display: flex; gap: 1px; align-items: flex-end; filter: drop-shadow(0 0 6px var(--accent));"),
        font_family: String::from_str("'JetBrains Mono', 'Consolas', 'Courier New', monospace"),
        animations: String::from_str("@keyframes scan { 0% { transform: translateY(-100%); opacity: 0; } 50% { opacity: 1; } 100% { transform: translateY(100%); opacity: 0; } } @keyframes glitch { 0% { transform: translate(0); } 20% { transform: translate(-2px, 2px); } 40% { transform: translate(-2px, -2px); } 60% { transform: translate(2px, 2px); } 80% { transform: translate(2px, -2px); } 100% { transform: translate(0); } } @keyframes neonPulse { 0%, 100% { box-shadow: 0 0 8px var(--primary), 0 0 16px var(--accent); } 50% { box-shadow: 0 0 16px var(--primary), 0 0 32px var(--accent); } } @keyframes scanline { 0% { top: -10%; } 100% { top: 110%; } } @keyframes dataStream { 0% { background-position: 0 0; } 100% { background-position: 0 100%; } }"),
    }
}

/// The Vintage Pro style (retro HiFi).
pub open spec fn vintage_pro_sheet() -> StyleSheetView {
    StyleSheetView {
        primary: "#d4a574"@,
        secondary: "#8b5a2b"@,
        accent: "#ffcc7a"@,
        bg_start: "linear-gradient(135deg, #1a1510 0%, #2c2416 40%, #1e1a12 100%)"@,
        bg_end: "linear-gradient(135deg, #1a1510 0%, #2c2416 40%, #1e1a12 100%)"@,
        glass_bg: "rgba(212,165,116,0.08)"@,
        text_primary: "#f5f1e6"@,
        text_secondary: "rgba(245,241,230,0.6)"@,
        radius_large: "12px"@,
        radius_medium: "6px"@,
        radius_small: "3px"@,
        glass_blur: "blur(12px)"@,
        neon_glow: "0 0 6px rgba(255,204,122,0.3)"@,
        shadow: "0 4px 16px rgba(0,0,0,0.5), 0 0 10px rgba(212,165,116,0.15)"@,
        title_bar_style: "height: 52px; background: rgba(44,36,22,0.95); border-bottom: 1px solid rgba(212,165,116,0.3); display: flex; justify-content: space-between; align-items: center; padding: 0 16px; box-shadow: 0 2px 10px rgba(0,0,0,0.3);"@,
        button_style: "padding: 8px 16px; background: rgba(212,165,116,0.25); border: 1px solid var(--primary); color: var(--text-primary); border-radius: var(--radius-sm); cursor: pointer; transition: all 0.2s; box-shadow: 0 0 6px rgba(212,165,116,0.2); text-shadow: 0 0 3px var(--accent);"@,
        slider_style: "-webkit-appearance: none; width: 100%; height: 6px; border-radius: 3px; background: rgba(212,165,116,0.25); outline: none; box-shadow: inset 0 1px 3px rgba(0,0,0,0.3);"@,
        vu_style: "display: flex; gap: 2px; align-items: flex-end; filter: drop-shadow(0 0 3px var(--accent));"@,
        font_family: "'Georgia', 'Playfair Display', 'Times New Roman', serif"@,
        animations: "@keyframes warmPulse { 0%, 100% { box-shadow: 0 0 4px var(--accent); } 50% { box-shadow: 0 0 10px var(--accent); } } @keyframes mechanicalTick { 0%, 100% { transform: rotate(0deg); } 25% { transform: rotate(-1deg); } 75% { transform: rotate(1deg); } } @keyframes vinylSpin { from { transform: rotate(0deg); } to { transform: rotate(360deg); } } @keyframes warmGlow { 0%, 100% { opacity: 0.6; } 50% { opacity: 1; } }"@,
    }
}

/// The Vintage Pro style (retro HiFi).
pub fn create_vintage_pro() -> (s: StyleSheet)
    ensures
        s@ == vintage_pro_sheet(),
{
    StyleSheet {
        primary: String::from_str("#d4a574"),
        secondary: String::from_str("#8b5a2b"),
        accent: String::from_str("#ffcc7a"),
        bg_start: String::from_str("linear-gradient(135deg, #1a1510 0%, #2c2416 40%, #1e1a12 100%)"),
        bg_end: String::from_str("linear-gradient(135deg, #1a1510 0%, #2c2416 40%, #1e1a12 100%)"),
        glass_bg: String::from_str("rgba(212,165,116,0.08)"),
        text_primary: String::from_str("#f5f1e6"),
        text_secondary: String::from_str("rgba(245,241,230,0.6)"),
        radius_large: String::from_str("12px"),
        radius_medium: String::from_str("6px"),
        radius_small: String::from_str("3px"),
        glass_blur: String::from_str("blur(12px)"),
        neon_glow: String::from_str("0 0 6px rgba(255,204,122,0.3)"),
        shadow: String::from_str("0 4px 16px rgba(0,0,0,0.5), 0 0 10px rgba(212,165,116,0.15)"),
        title_bar_style: String::from_str("height: 52px; background: rgba(44,36,22,0.95); border-bottom: 1px solid rgba(212,165,116,0.3); display: flex; justify-content: space-between; align-items: center; padding: 0 16px; box-shadow: 0 2px 10px rgba(0,0,0,0.3);"),
        button_style: String::from_str("padding: 8px 16px; background: rgba(212,165,116,0.25); border: 1px solid var(--primary); color: var(--text-primary); border-radius: var(--radius-sm); cursor: pointer; transition: all 0.2s; box-shadow: 0 0 6px rgba(212,165,116,0.2); text-shadow: 0 0 3px var(--accent);"),
        slider_style: String::from_str("-webkit-appearance: none; width: 100%; height: 6px; border-radius: 3px; background: rgba(212,165,116,0.25); outline: none; box-shadow: inset 0 1px 3px rgba(0,0,0,0.3);"),
        vu_style: String::from_str("display: flex; gap: 2px; align-items: flex-end; filter: drop-shadow(0 0 3px var(--accent));"),
        font_family: String::from_str("'Georgia', 'Playfair Display', 'Times New Roman', serif"),
        animations: String::from_str("@keyframes warmPulse { 0%, 100% { box-shadow: 0 0 4px var(--accent); } 50% { box-shadow: 0 0 10px var(--accent); } } @keyframes mechanicalTick { 0%, 100% { transform: rotate(0deg); } 25% { transform: rotate(-1deg); } 75% { transform: rotate(1deg); } } @keyframes vinylSpin { from { transform: rotate(0deg); } to { transform: rotate(360deg); } } @keyframes warmGlow { 0%, 100% { opacity: 0.6; } 50% { opacity: 1; } }"),
    }
}


/// The three UI styles.
#[derive(Clone, Copy, Debug, PartialEq, Eq, Structural)]
pub enum UiStyle {
    AquaGlass,
    SonicFlux,
    VintagePro,
}

/// The style selected by a shortcut number.
pub open spec fn style_of_index(idx: u8) -> Option<UiStyle> {
    if idx == 1 {
        Some(UiStyle::AquaGlass)
    } else if idx == 2 {
        Some(UiStyle::SonicFlux)
    } else if idx == 3 {
        Some(UiStyle::VintagePro)
    } else {
        None
    }
}

/// The shortcut number of a style.
pub open spec fn shortcut_of(s: UiStyle) -> u8 {
    match s {
        UiStyle::AquaGlass => 1,
        UiStyle::SonicFlux => 2,
        UiStyle::VintagePro => 3,
    }
}

/// The name shown for a style.
pub open spec fn display_name_of(s: UiStyle) -> Seq<char> {
    match s {
        UiStyle::AquaGlass => "AQUA GLASS"@,
        UiStyle::SonicFlux => "SONIC FLUX"@,
        UiStyle::VintagePro => "VINTAGE PRO"@,
    }
}

/// The style sheet of a style.
pub open spec fn sheet_of(s: UiStyle) -> StyleSheetView {
    match s {
        UiStyle::AquaGlass => aqua_glass_sheet(),
        UiStyle::SonicFlux => sonic_flux_sheet(),
        UiStyle::VintagePro => vintage_pro_sheet(),
    }
}

impl UiStyle {
    /// All styles, in shortcut order.
    pub fn all() -> (v: Vec<UiStyle>)
        ensures
            v@ == seq![UiStyle::AquaGlass, UiStyle::SonicFlux, UiStyle::VintagePro],
    {
        let v = vec![UiStyle::AquaGlass, UiStyle::SonicFlux, UiStyle::VintagePro];
        proof {
            assert(v@ =~= seq![UiStyle::AquaGlass, UiStyle::SonicFlux, UiStyle::VintagePro]);
        }
        v
    }

    /// The style for shortcut number `idx` (1 to 3).
    pub fn from_index(idx: u8) -> (r: Option<UiStyle>)
        ensures
            r == style_of_index(idx),
    {
        match idx {
            1 => Some(UiStyle::AquaGlass),
            2 => Some(UiStyle::SonicFlux),
            3 => Some(UiStyle::VintagePro),
            _ => None,
        }
    }

    /// The name shown for the style.
    pub fn display_name(&self) -> (r: &'static str)
        ensures
            r@ == display_name_of(*self),
    {
        match self {
            UiStyle::AquaGlass => "AQUA GLASS",
            UiStyle::SonicFlux => "SONIC FLUX",
            UiStyle::VintagePro => "VINTAGE PRO",
        }
    }

    /// The shortcut number of the style.
    pub fn shortcut(&self) -> (r: u8)
        ensures
            r == shortcut_of(*self),
    {
        match self {
            UiStyle::AquaGlass => 1,
            UiStyle::SonicFlux => 2,
            UiStyle::VintagePro => 3,
        }
    }
}

/// The current style and its style sheet.
#[derive(Clone)]
pub struct ThemeManager {
    pub current: UiStyle,
    pub style_sheet: StyleSheet,
}

impl ThemeManager {
    /// A manager showing `initial_style`.
    pub fn new(initial_style: UiStyle) -> (m: Self)
        ensures
            m.current == initial_style,
            m.style_sheet@ == sheet_of(initial_style),
    {
        ThemeManager { current: initial_style, style_sheet: get_stylesheet(initial_style) }
    }

    /// Switches to `new_style`; switching to the current style changes nothing.
    /// A manager whose sheet is that of its style keeps it so.
    pub fn switch(&mut self, new_style: UiStyle)
        ensures
            final(self).current == new_style,
            old(self).current == new_style ==> final(self).style_sheet@ == old(self).style_sheet@,
            old(self).current != new_style ==> final(self).style_sheet@ == sheet_of(new_style),
            old(self).style_sheet@ == sheet_of(old(self).current) ==> final(self).style_sheet@
                == sheet_of(final(self).current),
    {
        if self.current != new_style {
            self.current = new_style;
            self.style_sheet = get_stylesheet(new_style);
            save_style_preference(new_style);
        }
    }
}

/// Key under which the chosen style would be stored.
#[allow(dead_code)]
const STYLE_PREF_KEY: &'static str = "ui_style";

/// Persisting the chosen style: nothing is stored yet.
fn save_style_preference(style: UiStyle) {
}

/// The style to start with: nothing is stored yet, so Aqua Glass.
#[allow(dead_code)]
fn load_saved_style() -> (s: UiStyle)
    ensures
        s == UiStyle::AquaGlass,
{
    UiStyle::AquaGlass
}

/// The style sheet of `style`.
pub fn get_stylesheet(style: UiStyle) -> (s: StyleSheet)
    ensures
        s@ == sheet_of(style),
{
    match style {
        UiStyle::AquaGlass => create_aqua_glass(),
        UiStyle::SonicFlux => create_sonic_flux(),
        UiStyle::VintagePro => create_vintage_pro(),
    }
}

/// Each style's shortcut selects it again.
pub proof fn law_shortcut_round_trip(s: UiStyle)
    ensures
        style_of_index(shortcut_of(s)) == Some(s),
{
}

/// Only the three shortcuts select a style, and each selects a different one.
pub proof fn law_shortcut_inverse(idx: u8)
    ensures
        style_of_index(idx) matches Some(s) ==> shortcut_of(s) == idx,
        style_of_index(idx) is Some <==> 1 <= idx <= 3,
{
}

} // verus!
