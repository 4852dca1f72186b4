//! Text encodings used at the HTTP boundary.

pub mod base64_standard;
pub mod hexadecimal;
pub mod html;
pub mod percent;
pub mod utf8;
