//! High-level, ownership-aware bindings around a native, OS-level dialog
//! toolkit (message boxes, question boxes, file choosers, notifications,
//! input boxes, about dialogs).
//!
//! The native toolkit renders the dialogs; this crate owns everything that
//! can be stated and checked on the host side: the one-time initialization
//! gate, the translation of native error codes, the bridge between host
//! text and null-terminated C buffers, and a single-release ownership
//! discipline for every native handle.  That logic is verified against an
//! explicit, deterministic model of the native layer ([`NativeLayer`]): a
//! value that stands in for the process-wide native state and whose
//! alloc/free accounting makes leak- and double-free-freedom provable.
//! The companion crate that links the real native toolkit drives the same
//! verified conversion functions and performs the foreign calls itself.

pub mod about_dialog;
pub mod dialog_box;
pub mod error;
pub mod file_dialog;
pub mod image;
pub mod input_box;
pub mod native;
pub mod notification;
pub mod object;
pub mod question_dialog;
pub mod string;
pub mod util;

pub use about_dialog::AboutDialog;
pub use dialog_box::{DialogBox, DialogType};
pub use error::Error;
pub use file_dialog::{FileDialog, FileDialogType};
pub use image::{Image, ImageError};
pub use input_box::InputBox;
pub use native::NativeLayer;
pub use notification::{Notification, NotificationKind};
pub use object::Object;
pub use question_dialog::{QuestionDialog, QuestionDialogButtons, Reply};
pub use string::DynamicString;

use vstd::prelude::*;

use crate::native::layer_unchanged;
use crate::util::contains_nul;

verus! {

/// Initializes the native layer once for the process.
///
/// The first call flips the layer to initialized and succeeds; every call
/// after that leaves the layer untouched and reports `AlreadyInitialized`.
/// Dialog creation before the first successful call is refused with
/// `NotYetInitialized`.  Initialization takes no further arguments; the
/// native toolkit's optional security-sandboxing fork step is out of
/// scope for this layer.
pub fn init(host: &mut NativeLayer) -> (r: Result<(), Error>)
    requires
        old(host).wf(),
    ensures
        final(host).wf(),
        old(host).initialized ==> r == Err::<(), Error>(Error::AlreadyInitialized)
            && layer_unchanged(*old(host), *final(host)),
        !old(host).initialized ==> r == Ok::<(), Error>(()) && final(host).initialized
            && final(host).app_name == old(host).app_name
            && native::same_handles(*old(host), *final(host))
            && native::same_script(*old(host), *final(host)),
{
    if host.initialized {
        Err(Error::AlreadyInitialized)
    } else {
        host.initialized = true;
        Ok(())
    }
}

/// Sets the application name the native layer uses for notifications and
/// system integration.  Fire-and-forget: no result, no failure; the name
/// defaults to a non-empty placeholder when never set, since the native
/// layer documents trouble with empty names.  The name must be free of
/// interior nul bytes, or it could not cross the C boundary.
pub fn set_app_name(host: &mut NativeLayer, name: Vec<u8>)
    requires
        old(host).wf(),
        !contains_nul(name@),
    ensures
        final(host).wf(),
        final(host).app_name == name,
        final(host).initialized == old(host).initialized,
        native::same_handles(*old(host), *final(host)),
        native::same_script(*old(host), *final(host)),
{
    host.app_name = name;
}

} // verus!
