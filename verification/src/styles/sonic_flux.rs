//! Style sheet of the Sonic Flux: cyberpunk tech design.

use vstd::prelude::*;

use crate::theme::{StyleSheet, StyleSheetView};

verus! {

broadcast use vstd::string::group_string_axioms;

/// The Sonic Flux design sheet.
pub open spec fn sonic_flux_design() -> StyleSheetView {
    StyleSheetView {
        primary: "#00ffff"@,
        secondary: "#ff00ff"@,
        accent: "#ffff00"@,
        bg_start: "#0a0a0f"@,
        bg_end: "#0a0a0f"@,
        glass_bg: "rgba(0,0,0,0.9)"@,
        text_primary: "#ffffff"@,
        text_secondary: "#888888"@,
        radius_large: "0px"@,
        radius_medium: "2px"@,
        radius_small: "2px"@,
        glass_blur: "none"@,
        neon_glow: "0 0 10px var(--primary), inset 0 0 5px var(--primary)"@,
        shadow: "none"@,
        title_bar_style: "
            height: 40px;
            background: var(--bg-start);
            border-bottom: 1px solid var(--primary);
            box-shadow: 0 0 10px var(--primary);
            display: flex;
            justify-content: space-between;
            align-items: center;
            padding: 0 16px;
        "@,
        button_style: "
            padding: 10px 16px;
            background: transparent;
            border: 1px solid var(--primary);
            border-radius: 0;
            color: var(--primary);
            cursor: pointer;
            font-family: var(--font-family);
            text-transform: uppercase;
            letter-spacing: 1px;
            box-shadow: 0 0 5px var(--primary);
        "@,
        slider_style: "
            -webkit-appearance: none;
            width: 100%;
            height: 8px;
            border-radius: 0;
            background: rgba(0,255,255,0.2);
            outline: none;
        "@,
        vu_style: "
            display: flex;
            gap: 2px;
            align-items: flex-end;
            height: 40px;
        "@,
        font_family: "'Orbitron', 'Rajdhani', monospace"@,
        animations: "
             @keyframes scanline {{
                 0% {{ transform: translateY(-100%); }}
                 100% {{ transform: translateY(100%); }}
             }}
             @keyframes flicker {{
                 0%, 100% {{ opacity: 1; }}
                 50% {{ opacity: 0.8; }}
             }}
         "@,
    }
}

/// The Sonic Flux design sheet.
pub fn create() -> (s: StyleSheet)
    ensures
        s@ == sonic_flux_design(),
{
    StyleSheet {
        primary: String::from_str("#00ffff"),
        secondary: String::from_str("#ff00ff"),
        accent: String::from_str("#ffff00"),
        bg_start: String::from_str("#0a0a0f"),
        bg_end: String::from_str("#0a0a0f"),
        glass_bg: String::from_str("rgba(0,0,0,0.9)"),
        text_primary: String::from_str("#ffffff"),
        text_secondary: String::from_str("#888888"),
        radius_large: String::from_str("0px"),
        radius_medium: String::from_str("2px"),
        radius_small: String::from_str("2px"),
        glass_blur: String::from_str("none"),
        neon_glow: String::from_str("0 0 10px var(--primary), inset 0 0 5px var(--primary)"),
        shadow: String::from_str("none"),
        title_bar_style: String::from_str("
            height: 40px;
            background: var(--bg-start);
            border-bottom: 1px solid var(--primary);
            box-shadow: 0 0 10px var(--primary);
            display: flex;
            justify-content: space-between;
            align-items: center;
            padding: 0 16px;
        "),
        button_style: String::from_str("
            padding: 10px 16px;
            background: transparent;
            border: 1px solid var(--primary);
            border-radius: 0;
            color: var(--primary);
            cursor: pointer;
            font-family: var(--font-family);
            text-transform: uppercase;
            letter-spacing: 1px;
            box-shadow: 0 0 5px var(--primary);
        "),
        slider_style: String::from_str("
            -webkit-appearance: none;
            width: 100%;
            height: 8px;
            border-radius: 0;
            background: rgba(0,255,255,0.2);
            outline: none;
        "),
        vu_style: String::from_str("
            display: flex;
            gap: 2px;
            align-items: flex-end;
            height: 40px;
        "),
        font_family: String::from_str("'Orbitron', 'Rajdhani', monospace"),
        animations: String::from_str("
             @keyframes scanline {{
                 0% {{ transform: translateY(-100%); }}
                 100% {{ transform: translateY(100%); }}
             }}
             @keyframes flicker {{
                 0%, 100% {{ opacity: 1; }}
                 50% {{ opacity: 0.8; }}
             }}
         "),
    }
}

} // verus!
