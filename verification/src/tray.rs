use vstd::prelude::*;

use image::ImageError;

verus! {

/// What a tray menu event means to the application.
#[derive(PartialEq, Eq, Structural, Debug, Clone, Copy)]
pub enum TrayAction {
    /// The Pause/Resume item was clicked.
    TogglePause,
    /// The Quit item was clicked.
    Quit,
    /// Some other menu event.
    Other,
}

} // verus!

verus! {

/// Label of the pause item for the given pause state: `Resume` while paused,
/// `Pause` otherwise.
pub fn pause_label(paused: bool) -> (label: &'static str)
    ensures
        label@ == (if paused {
            "Resume"@
        } else {
            "Pause"@
        }),
{
    if paused {
        "Resume"
    } else {
        "Pause"
    }
}

/// The ids of the tray menu items, as the menu reports them in its events.
pub struct Tray {
    /// Id of the Pause/Resume item.
    pub pause_id: String,
    /// Id of the Quit item.
    pub quit_id: String,
}

/// Whether two strings hold the same characters.
fn same_text(a: &str, b: &String) -> (r: bool)
    ensures
        r == (a@ == b@),
{
    let owned = a.to_owned();
    owned == *b
}

impl Tray {
    /// Classifies a menu event by the id of the item it came from. The
    /// Pause/Resume item is checked first.
    pub fn classify(&self, event_id: &str) -> (action: TrayAction)
        ensures
            action == (if event_id@ == self.pause_id@ {
                TrayAction::TogglePause
            } else if event_id@ == self.quit_id@ {
                TrayAction::Quit
            } else {
                TrayAction::Other
            }),
    {
        if same_text(event_id, &self.pause_id) {
            TrayAction::TogglePause
        } else if same_text(event_id, &self.quit_id) {
            TrayAction::Quit
        } else {
            TrayAction::Other
        }
    }
}

} // verus!

verus! {

/// The error type of the `image` crate.
#[verifier::external_type_specification]
#[verifier::external_body]
pub struct ExImageError(ImageError);

/// Calls `image::load_from_memory` on `bytes` and converts the decoded image
/// with `DynamicImage::to_rgba8`, handing out its raw pixel buffer and its
/// dimensions. Claimed: a successful decode holds four bytes per pixel, as
/// `ImageDecoder::total_bytes` documents for the decoders the crate uses.
/// Whether decoding succeeds, and which pixels come out, is left unstated:
/// besides the bytes it depends on the format and decoding hooks that any code
/// in the process may register with `image::hooks`.
#[verifier::external_body]
fn decode_rgba8(bytes: &[u8]) -> (r: Result<(Vec<u8>, u32, u32), ImageError>)
    ensures
        r matches Ok((pixels, width, height)) ==> pixels@.len() == 4 * width * height,
{
    match image::load_from_memory(bytes) {
        Ok(img) => {
            let rgba = img.to_rgba8();
            let (width, height) = rgba.dimensions();
            Ok((rgba.into_raw(), width, height))
        },
        Err(e) => Err(e),
    }
}

/// A decoded tray icon: 8-bit RGBA pixels, row by row.
pub struct IconImage {
    /// The pixels, four bytes each.
    pub rgba: Vec<u8>,
    /// Width in pixels.
    pub width: u32,
    /// Height in pixels.
    pub height: u32,
}

/// Why the tray icon could not be loaded.
#[derive(PartialEq, Eq, Structural, Debug, Clone, Copy)]
pub enum IconError {
    /// The icon bytes are not an image the decoder understands.
    Decode,
}

/// Turns what the decoder returned into the tray icon: on success the icon is
/// exactly the decoder's pixel buffer, width and height, unchanged; a failure
/// becomes `Decode`.
pub fn icon_from_decoded(decoded: Result<(Vec<u8>, u32, u32), ImageError>) -> (r: Result<
    IconImage,
    IconError,
>)
    ensures
        match decoded {
            Ok((pixels, width, height)) => {
                &&& r is Ok
                &&& r->Ok_0.rgba@ == pixels@
                &&& r->Ok_0.width == width
                &&& r->Ok_0.height == height
            },
            Err(_) => r == Err::<IconImage, IconError>(IconError::Decode),
        },
{
    match decoded {
        Ok((rgba, width, height)) => Ok(IconImage { rgba, width, height }),
        Err(_) => Err(IconError::Decode),
    }
}

/// Decodes the tray icon from its encoded bytes (PNG) into RGBA pixels, and
/// hands the decoder's result on as `icon_from_decoded` says. The decoder
/// alone decides whether the bytes decode and to which pixels; a decoded icon
/// holds four bytes per pixel, and a failure is `Decode`.
pub fn load_icon(bytes: &[u8]) -> (r: Result<IconImage, IconError>)
    ensures
        match r {
            Ok(icon) => icon.rgba@.len() == 4 * icon.width * icon.height,
            Err(e) => e == IconError::Decode,
        },
{
    icon_from_decoded(decode_rgba8(bytes))
}

} // verus!
