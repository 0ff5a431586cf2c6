//! Style sheet of the Vintage Pro: retro HiFi design.

use vstd::prelude::*;

use crate::theme::{StyleSheet, StyleSheetView};

verus! {

broadcast use vstd::string::group_string_axioms;

/// The Vintage Pro design sheet.
pub open spec fn vintage_pro_design() -> StyleSheetView {
    StyleSheetView {
        primary: "#b8860b"@,
        secondary: "#cd7f32"@,
        accent: "#ffbf00"@,
        bg_start: "#1a0f0a"@,
        bg_end: "#2d1f15"@,
        glass_bg: "rgba(0,0,0,0.4)"@,
        text_primary: "#e0d0c0"@,
        text_secondary: "#8b7355"@,
        radius_large: "4px"@,
        radius_medium: "4px"@,
        radius_small: "2px"@,
        glass_blur: "none"@,
        neon_glow: "none"@,
        shadow: "inset 0 0 8px rgba(0,0,0,0.5)"@,
        title_bar_style: "
            height: 40px;
            background: linear-gradient(180deg, #4a3a2a 0%, #2d1f15 100%);
            border-bottom: 2px solid var(--secondary);
            display: flex;
            justify-content: space-between;
            align-items: center;
            padding: 0 16px;
        "@,
        button_style: "
            padding: 10px 16px;
            background: linear-gradient(180deg, #8b6914 0%, #5a4510 100%);
            border: 1px solid var(--secondary);
            border-radius: var(--radius-sm);
            color: var(--text-primary);
            cursor: pointer;
            font-family: var(--font-family);
            box-shadow: inset 0 1px 0 rgba(255,255,255,0.2);
        "@,
        slider_style: "
            -webkit-appearance: none;
            width: 100%;
            height: 12px;
            border-radius: 6px;
            background: #1a0f0a;
            outline: none;
            border: 1px solid var(--secondary);
        "@,
        vu_style: "
            display: flex;
            gap: 2px;
            align-items: flex-end;
            height: 30px;
            padding: 4px;
            background: #0a0705;
            border: 1px solid var(--secondary);
            border-radius: var(--radius-small);
        "@,
        font_family: "'DIN Alternate', 'Franklin Gothic', sans-serif"@,
        animations: "
            @keyframes led-glow {{
                0%, 100% {{ box-shadow: 0 0 5px #39ff14; }}
                50% {{ box-shadow: 0 0 10px #39ff14; }}
            }}
        "@,
    }
}

/// The Vintage Pro design sheet.
pub fn create() -> (s: StyleSheet)
    ensures
        s@ == vintage_pro_design(),
{
    StyleSheet {
        primary: String::from_str("#b8860b"),
        secondary: String::from_str("#cd7f32"),
        accent: String::from_str("#ffbf00"),
        bg_start: String::from_str("#1a0f0a"),
        bg_end: String::from_str("#2d1f15"),
        glass_bg: String::from_str("rgba(0,0,0,0.4)"),
        text_primary: String::from_str("#e0d0c0"),
        text_secondary: String::from_str("#8b7355"),
        radius_large: String::from_str("4px"),
        radius_medium: String::from_str("4px"),
        radius_small: String::from_str("2px"),
        glass_blur: String::from_str("none"),
        neon_glow: String::from_str("none"),
        shadow: String::from_str("inset 0 0 8px rgba(0,0,0,0.5)"),
        title_bar_style: String::from_str("
            height: 40px;
            background: linear-gradient(180deg, #4a3a2a 0%, #2d1f15 100%);
            border-bottom: 2px solid var(--secondary);
            display: flex;
            justify-content: space-between;
            align-items: center;
            padding: 0 16px;
        "),
        button_style: String::from_str("
            padding: 10px 16px;
            background: linear-gradient(180deg, #8b6914 0%, #5a4510 100%);
            border: 1px solid var(--secondary);
            border-radius: var(--radius-sm);
            color: var(--text-primary);
            cursor: pointer;
            font-family: var(--font-family);
            box-shadow: inset 0 1px 0 rgba(255,255,255,0.2);
        "),
        slider_style: String::from_str("
            -webkit-appearance: none;
            width: 100%;
            height: 12px;
            border-radius: 6px;
            background: #1a0f0a;
            outline: none;
            border: 1px solid var(--secondary);
        "),
        vu_style: String::from_str("
            display: flex;
            gap: 2px;
            align-items: flex-end;
            height: 30px;
            padding: 4px;
            background: #0a0705;
            border: 1px solid var(--secondary);
            border-radius: var(--radius-small);
        "),
        font_family: String::from_str("'DIN Alternate', 'Franklin Gothic', sans-serif"),
        animations: String::from_str("
            @keyframes led-glow {{
                0%, 100% {{ box-shadow: 0 0 5px #39ff14; }}
                50% {{ box-shadow: 0 0 10px #39ff14; }}
            }}
        "),
    }
}

} // verus!
