//! The primary clipboard writer: placing a decoded RGBA image on the
//! OS clipboard through a cross-platform clipboard capability.
//!
//! Whether a clipboard handle can be acquired, and whether a write
//! succeeds, depends on the running desktop environment, so nothing is
//! promised of the outcome; the orchestrator decides what to do with
//! it.  The primary writer spawns no process.

use vstd::prelude::*;
use crate::decode::DecodedImage;

verus! {

/// Why the primary clipboard path failed.  Neither failure is terminal
/// for a copy request: the orchestrator proceeds to the fallback.
pub enum PrimaryError {
    /// No clipboard handle could be acquired (capability unavailable).
    Unavailable(String),
    /// A handle was acquired but the image write was rejected.
    WriteFailed(String),
}

impl PrimaryError {
    /// The human-readable cause carried by the error.
    pub open spec fn detail_view(&self) -> Seq<char> {
        match self {
            PrimaryError::Unavailable(s) => s@,
            PrimaryError::WriteFailed(s) => s@,
        }
    }

    /// Hand out the human-readable cause.
    pub fn into_detail(self) -> (r: String)
        ensures
            r@ == self.detail_view(),
    {
        match self {
            PrimaryError::Unavailable(s) => s,
            PrimaryError::WriteFailed(s) => s,
        }
    }
}

/// Relies on `arboard::Clipboard` being an ordinary owned handle to
/// the OS clipboard; the library only carries values of it between the
/// two calls below and never looks inside.
#[verifier::external_type_specification]
#[verifier::external_body]
pub struct ExClipboard(arboard::Clipboard);

/// Relies on `arboard::Clipboard::new`: acquires a handle to the OS
/// clipboard; fails when no clipboard capability is available in the
/// running environment, so nothing is promised of the outcome.
#[verifier::external_body]
fn clipboard_new() -> (r: Result<arboard::Clipboard, String>)
{
    arboard::Clipboard::new().map_err(|e| format!("Failed to create clipboard: {}", e))
}

/// Relies on `arboard::Clipboard::set_image`: places an RGBA buffer of
/// the given dimensions on the OS clipboard.  The platform clipboard
/// may reject the write, so nothing is promised of the outcome.  The
/// buffer must hold exactly four bytes per pixel, the layout
/// `arboard::ImageData` documents.
#[verifier::external_body]
fn clipboard_set_image(
    clipboard: &mut arboard::Clipboard,
    width: usize,
    height: usize,
    rgba: Vec<u8>,
) -> (r: Result<(), String>)
    requires
        rgba@.len() == width * height * 4,
{
    let data = arboard::ImageData {
        width,
        height,
        bytes: std::borrow::Cow::Owned(rgba),
    };
    clipboard.set_image(data).map_err(|e| format!("Clipboard write failed: {}", e))
}

/// Attempt to place a decoded image on the OS clipboard through the
/// cross-platform clipboard capability.  The error says whether the
/// capability was unavailable or the write itself was rejected; the
/// outcome depends on the running environment.
pub fn write_image_to_clipboard(image: &DecodedImage) -> (r: Result<(), PrimaryError>)
    requires
        image.wf(),
{
    let mut clipboard = match clipboard_new() {
        Ok(c) => c,
        Err(e) => {
            return Err(PrimaryError::Unavailable(e));
        },
    };
    let width = image.width as usize;
    let height = image.height as usize;
    match clipboard_set_image(&mut clipboard, width, height, image.pixels.clone()) {
        Ok(()) => Ok(()),
        Err(e) => Err(PrimaryError::WriteFailed(e)),
    }
}

} // verus!
