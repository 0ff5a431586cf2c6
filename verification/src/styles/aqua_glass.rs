//! Style sheet of the Aqua Glass: organic fluid design.

use vstd::prelude::*;

use crate::theme::{StyleSheet, StyleSheetView};

verus! {

broadcast use vstd::string::group_string_axioms;

/// The Aqua Glass design sheet.
pub open spec fn aqua_glass_design() -> StyleSheetView {
    StyleSheetView {
        primary: "#667eea"@,
        secondary: "#764ba2"@,
        accent: "#ff6b6b"@,
        bg_start: "linear-gradient(135deg, #667eea 0%, #764ba2 100%)"@,
        bg_end: "linear-gradient(135deg, #667eea 0%, #764ba2 100%)"@,
        glass_bg: "rgba(255,255,255,0.1)"@,
        text_primary: "#ffffff"@,
        text_secondary: "rgba(255,255,255,0.6)"@,
        radius_large: "24px"@,
        radius_medium: "12px"@,
        radius_small: "8px"@,
        glass_blur: "blur(20px)"@,
        neon_glow: "none"@,
        shadow: "0 8px 32px rgba(0,0,0,0.3)"@,
        title_bar_style: "
            height: 40px;
            background: rgba(255,255,255,0.05);
            backdrop-filter: blur(20px);
            border-bottom: 1px solid rgba(255,255,255,0.1);
            display: flex;
            justify-content: space-between;
            align-items: center;
            padding: 0 16px;
        "@,
        button_style: "
            padding: 10px 20px;
            background: rgba(255,255,255,0.15);
            border: 1px solid rgba(255,255,255,0.2);
            border-radius: var(--radius-md);
            color: var(--text-primary);
            cursor: pointer;
            backdrop-filter: blur(10px);
            transition: all 0.2s ease;
        "@,
        slider_style: "
            -webkit-appearance: none;
            width: 100%;
            height: 6px;
            border-radius: 3px;
            background: rgba(255,255,255,0.2);
            outline: none;
        "@,
        vu_style: "
            display: flex;
            gap: 4px;
            align-items: flex-end;
        "@,
        font_family: "'Segoe UI', -apple-system, BlinkMacSystemFont, sans-serif"@,
        animations: "
            @keyframes spin {{
                from {{ transform: rotate(0deg); }}
                to {{ transform: rotate(360deg); }}
            }}
            @keyframes pulse {{
                0%, 100% {{ opacity: 0.6; }}
                50% {{ opacity: 1; }}
            }}
        "@,
    }
}

/// The Aqua Glass design sheet.
pub fn create() -> (s: StyleSheet)
    ensures
        s@ == aqua_glass_design(),
{
    StyleSheet {
        primary: String::from_str("#667eea"),
        secondary: String::from_str("#764ba2"),
        accent: String::from_str("#ff6b6b"),
        bg_start: String::from_str("linear-gradient(135deg, #667eea 0%, #764ba2 100%)"),
        bg_end: String::from_str("linear-gradient(135deg, #667eea 0%, #764ba2 100%)"),
        glass_bg: String::from_str("rgba(255,255,255,0.1)"),
        text_primary: String::from_str("#ffffff"),
        text_secondary: String::from_str("rgba(255,255,255,0.6)"),
        radius_large: String::from_str("24px"),
        radius_medium: String::from_str("12px"),
        radius_small: String::from_str("8px"),
        glass_blur: String::from_str("blur(20px)"),
        neon_glow: String::from_str("none"),
        shadow: String::from_str("0 8px 32px rgba(0,0,0,0.3)"),
        title_bar_style: String::from_str("
            height: 40px;
            background: rgba(255,255,255,0.05);
            backdrop-filter: blur(20px);
            border-bottom: 1px solid rgba(255,255,255,0.1);
            display: flex;
            justify-content: space-between;
            align-items: center;
            padding: 0 16px;
        "),
        button_style: String::from_str("
            padding: 10px 20px;
            background: rgba(255,255,255,0.15);
            border: 1px solid rgba(255,255,255,0.2);
            border-radius: var(--radius-md);
            color: var(--text-primary);
            cursor: pointer;
            backdrop-filter: blur(10px);
            transition: all 0.2s ease;
        "),
        slider_style: String::from_str("
            -webkit-appearance: none;
            width: 100%;
            height: 6px;
            border-radius: 3px;
            background: rgba(255,255,255,0.2);
            outline: none;
        "),
        vu_style: String::from_str("
            display: flex;
            gap: 4px;
            align-items: flex-end;
        "),
        font_family: String::from_str("'Segoe UI', -apple-system, BlinkMacSystemFont, sans-serif"),
        animations: String::from_str("
            @keyframes spin {{
                from {{ transform: rotate(0deg); }}
                to {{ transform: rotate(360deg); }}
            }}
            @keyframes pulse {{
                0%, 100% {{ opacity: 0.6; }}
                50% {{ opacity: 1; }}
            }}
        "),
    }
}

} // verus!
