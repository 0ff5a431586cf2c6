//! Verified core of a HiFi desktop music player: playback-queue and
//! transport state machines, lock-free control encodings, track-name and
//! lyrics parsing, error messages and the theme system.

pub mod backend;
pub mod decoder;
pub mod device;
pub mod dropped_files;
pub mod dsd_decoder;
pub mod error;
pub mod filter;
pub mod import;
pub mod lyrics_parser;
pub mod metadata;
pub mod paths;
pub mod pipeline;
pub mod playback;
pub mod spectrum;
pub mod styles;
pub mod symphonia_decoder;
pub mod text;
pub mod theme;
pub mod time_format;
pub mod ui;
pub mod wasapi_backend;
pub mod wasapi_control;
