//! Decoding the tray icon from raw bytes into RGBA pixel data.
//!
//! The decoding itself is the `image` crate's work; the library keeps the
//! decoded pixels together with their dimensions and guarantees the size
//! relation the platform icon constructor demands, so turning an
//! [`RgbaIcon`] into a platform icon can never fail.
use vstd::prelude::*;

verus! {

/// What `image::load_from_memory` decodes `bytes` to, converted to RGBA:
/// the raw pixel buffer with its width and height, or `None` when the bytes
/// are not a supported image.  Decoding depends on the bytes alone.
pub uninterp spec fn decoded_icon(bytes: Seq<u8>) -> Option<(Seq<u8>, u32, u32)>;

/// Relies on `image::load_from_memory` and `DynamicImage::into_rgba8`: the
/// result depends on the bytes alone, and the buffer of a decoded image
/// holds exactly four bytes per pixel (`ImageBuffer` enforces
/// `len == width * height * 4` on construction).
#[verifier::external_body]
fn decode_rgba(bytes: &[u8]) -> (decoded: Option<(Vec<u8>, u32, u32)>)
    ensures
        decoded is Some <==> decoded_icon(bytes@) is Some,
        decoded matches Some(p) ==> decoded_icon(bytes@) == Some((p.0@, p.1, p.2)),
        decoded matches Some(p) ==> p.0@.len() == 4 * (p.1 as int) * (p.2 as int),
{
    match image::load_from_memory(bytes) {
        Ok(decoded_image) => {
            let buffer = decoded_image.into_rgba8();
            let (width, height) = buffer.dimensions();
            Some((buffer.into_raw(), width, height))
        },
        Err(_) => None,
    }
}

/// A decoded tray icon: RGBA pixel data whose buffer length always matches
/// its dimensions, which is exactly what the platform icon constructor
/// requires.
pub struct RgbaIcon {
    rgba: Vec<u8>,
    width: u32,
    height: u32,
}

impl RgbaIcon {
    /// The raw pixel buffer.
    pub closed spec fn rgba(self) -> Seq<u8> {
        self.rgba@
    }

    /// The width in pixels.
    pub closed spec fn width(self) -> u32 {
        self.width
    }

    /// The height in pixels.
    pub closed spec fn height(self) -> u32 {
        self.height
    }

    /// Four bytes per pixel: the well-formedness every `RgbaIcon` keeps.
    pub open spec fn wf(self) -> bool {
        self.rgba().len() == 4 * (self.width() as int) * (self.height() as int)
    }

    /// Decode `bytes` into an icon.  Succeeds exactly when the bytes are a
    /// supported image, and then holds precisely what they decode to.
    pub fn decode(bytes: &[u8]) -> (icon: Option<RgbaIcon>)
        ensures
            icon is Some <==> decoded_icon(bytes@) is Some,
            icon matches Some(i) ==> i.wf() && decoded_icon(bytes@) == Some(
                (i.rgba(), i.width(), i.height()),
            ),
    {
        match decode_rgba(bytes) {
            Some((rgba, width, height)) => Some(RgbaIcon { rgba, width, height }),
            None => None,
        }
    }

    /// The pixel buffer, for the display adapter to feed to the platform
    /// icon constructor: together with [`RgbaIcon::wf`] its length equals
    /// `4 * width * height`, so that constructor is owed success.
    pub fn rgba_bytes(&self) -> (bytes: &Vec<u8>)
        ensures
            bytes@ == self.rgba(),
    {
        &self.rgba
    }

    /// The width in pixels.
    pub fn pixel_width(&self) -> (width: u32)
        ensures
            width == self.width(),
    {
        self.width
    }

    /// The height in pixels.
    pub fn pixel_height(&self) -> (height: u32)
        ensures
            height == self.height(),
    {
        self.height
    }
}

} // verus!
