//! Clipboard image-transfer library.
//!
//! Decodes a base64-encoded PNG payload, attempts a primary clipboard
//! write, and falls back to a raw-protocol helper process when the
//! primary path fails.  The orchestration is modelled as an explicit
//! state machine so that every decision is verified; the surrounding
//! process plumbing (scheduling, the helper process, event delivery)
//! lives outside the library and drives it through plain values.

pub mod clipboard;
pub mod decode;
pub mod fallback;
pub mod launch;
pub mod orchestrate;
pub mod pending;
pub mod version;
