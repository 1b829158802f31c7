//! Images attached to dialogs, created from raw pixel data.
//!
//! Loading an image from a file needs the filesystem and stays with the
//! binary around the library; the validation of raw data and the handle
//! ownership live here.

use vstd::prelude::*;

use crate::native::{create_step, free_step, layer_unchanged, NativeLayer};

verus! {

/// What can go wrong while creating an image.
#[derive(Clone, Copy, Debug, PartialEq, Eq, Structural)]
pub enum ImageError {
    /// The path does not exist in the filesystem.
    PathNotFound,
    /// The image's contents could not be read: the data is too short to
    /// be any image.
    ReadingError,
    /// The data is not in a readable format: RGBA pixels come in groups
    /// of four bytes, and the data does not divide into them.
    InvalidFormat,
    /// The native layer refused the image for a reason it does not
    /// report.
    UnknownError,
}

impl ImageError {
    /// A short human-readable description, in place of a `Display` impl.
    pub fn message(&self) -> (r: &'static str) {
        match self {
            ImageError::PathNotFound => "Path does not exist in the filesystem",
            ImageError::ReadingError => "Could not read the image's contents",
            ImageError::InvalidFormat => "Image is in invalid format and cannot be read",
            ImageError::UnknownError => "Unknown error while reading an image",
        }
    }
}

/// An image owning one native handle.
#[derive(Debug)]
pub struct Image {
    /// The id of the owned native handle in the modelled layer; the
    /// stand-in for the opaque native pointer.
    pub raw: u64,
    /// Whether the handle is still owned; cleared by the one release.
    pub live: bool,
    /// The width in pixels the image was created with.
    pub width: u32,
    /// The height in pixels the image was created with.
    pub height: u32,
}

impl Image {
    /// Creates an image from raw RGBA data.
    ///
    /// Data of at most one byte cannot be an image and is refused with
    /// `ReadingError`; data that does not divide into four-byte pixels is
    /// refused with `InvalidFormat`.  When the native layer refuses —
    /// before initialization, or by script — only a null handle comes
    /// back, reported as `UnknownError`.  On every failure the layer is
    /// untouched; otherwise exactly one fresh handle is created and owned
    /// by the returned image.
    pub fn from_data(host: &mut NativeLayer, data: &Vec<u8>, width: u32, height: u32) -> (r:
        Result<Image, ImageError>)
        requires
            old(host).wf(),
            old(host).can_allocate(),
        ensures
            final(host).wf(),
            data@.len() <= 1 ==> (r == Err::<Image, ImageError>(ImageError::ReadingError)
                && layer_unchanged(*old(host), *final(host))),
            (data@.len() > 1 && data@.len() % 4 != 0) ==> (r == Err::<Image, ImageError>(
                ImageError::InvalidFormat,
            ) && layer_unchanged(*old(host), *final(host))),
            (data@.len() > 1 && data@.len() % 4 == 0 && (!old(host).initialized || old(
                host,
            ).create_failure is Some)) ==> (r == Err::<Image, ImageError>(ImageError::UnknownError)
                && layer_unchanged(*old(host), *final(host))),
            (data@.len() > 1 && data@.len() % 4 == 0 && old(host).initialized && old(
                host,
            ).create_failure is None) ==> (r matches Ok(img) && create_step(
                *old(host),
                *final(host),
                img.raw,
            ) && img.live && img.width == width && img.height == height),
    {
        if data.len() <= 1 {
            return Err(ImageError::ReadingError);
        }
        if data.len() % 4 != 0 {
            return Err(ImageError::InvalidFormat);
        }
        if !host.initialized || host.create_failure.is_some() {
            return Err(ImageError::UnknownError);
        }
        let raw = host.allocate();
        Ok(Image { raw, live: true, width, height })
    }

    /// The id of the owned native handle.
    pub(crate) fn get_raw(&self) -> (r: u64)
        ensures
            r == self.raw,
    {
        self.raw
    }

    /// Releases the owned native handle.  Callable only while the image
    /// is live, and leaves it released, so the handle is freed exactly
    /// once.
    pub fn release(&mut self, host: &mut NativeLayer)
        requires
            old(self).live,
            old(host).wf(),
            old(host).live@.contains(old(self).raw),
        ensures
            !final(self).live,
            final(self).raw == old(self).raw,
            final(host).wf(),
            free_step(*old(host), *final(host), old(self).raw),
    {
        host.release_handle(self.raw);
        self.live = false;
    }
}

} // verus!
