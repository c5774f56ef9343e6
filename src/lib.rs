//! Decision and data logic of a single-frame screen capture tool: output
//! format resolution, GPU frame extraction, image encoder settings, device
//! fallback, capture session lifecycle and window selection.

mod text;
pub mod format;
pub mod extract;
pub mod encode;
pub mod window;
pub mod cli;
pub mod select;
pub mod device;
pub mod session;
