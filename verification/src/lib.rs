//! Transcoding of Japanese text between script variants: ASCII case,
//! hiragana and katakana, and halfwidth and fullwidth forms.
//!
//! The engine works on buffers of UTF-16 code units. Case and kana
//! conversion map each unit independently; width conversion fuses a
//! halfwidth base with a following voicing mark into one fullwidth kana
//! and splits a voiced fullwidth kana back into two halfwidth units.

pub mod codec;
pub mod engine;
pub mod laws;
pub mod tables;
pub mod ucs_str;
pub mod width;

pub use engine::ConvertType;
pub use ucs_str::UCSStr;
pub use width::WidthUtils;
