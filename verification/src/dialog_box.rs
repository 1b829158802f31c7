//! Plain message boxes: a title, a message, and a severity styling.

use vstd::prelude::*;

use crate::error::Error;
use crate::native::{create_step, display_step, free_step, layer_unchanged, NativeLayer};
use crate::util::{contains_nul, has_nul_byte};

verus! {

/// The kind of message box to present.
#[derive(Clone, Copy, Debug, PartialEq, Eq, Structural)]
pub enum DialogType {
    /// A plain dialog box with no specific styling.
    Simple,
    /// A warning dialog box, for actions that call for caution.
    Warning,
    /// An error dialog box, for failures the user should act on.
    Error,
}

/// The native code of each dialog kind, as the C header assigns them.
pub open spec fn spec_dialog_type_code(t: DialogType) -> int {
    match t {
        DialogType::Simple => 0xff,
        DialogType::Warning => 0x100,
        DialogType::Error => 0x101,
    }
}

impl DialogType {
    /// The integer the native layer expects for this dialog kind.
    pub fn code(&self) -> (r: u32)
        ensures
            r == spec_dialog_type_code(*self),
    {
        match self {
            DialogType::Simple => 0xff,
            DialogType::Warning => 0x100,
            DialogType::Error => 0x101,
        }
    }
}

/// A message box owning one native handle.
///
/// Created through [`DialogBox::new`], presented with [`DialogBox::show`],
/// and released exactly once with [`DialogBox::release`].
#[derive(Debug)]
pub struct DialogBox {
    /// The id of the owned native handle in the modelled layer; the
    /// stand-in for the opaque native pointer.
    pub raw: u64,
    /// Whether the handle is still owned; cleared by the one release.
    pub live: bool,
    /// The cached title text.
    pub title: Vec<u8>,
    /// The cached message text.
    pub msg: Vec<u8>,
    /// The styling the box was created with.
    pub dialog_type: DialogType,
    /// The label of the accept button, when one was set.
    pub accept_label: Option<Vec<u8>>,
}

impl DialogBox {
    /// Creates a message box with the given title, message and styling.
    ///
    /// Title or message with an interior nul byte is refused with
    /// `EmbeddedNull`; before initialization the native layer refuses with
    /// `NotYetInitialized`; a scripted creation failure surfaces its
    /// error.  On every failure the layer is untouched; otherwise exactly
    /// one fresh handle is created and owned by the returned box.
    pub fn new(
        host: &mut NativeLayer,
        title: Vec<u8>,
        msg: Vec<u8>,
        dialog_type: DialogType,
    ) -> (r: Result<DialogBox, Error>)
        requires
            old(host).wf(),
            old(host).can_allocate(),
        ensures
            final(host).wf(),
            (contains_nul(title@) || contains_nul(msg@)) ==> (r == Err::<DialogBox, Error>(
                Error::EmbeddedNull,
            ) && layer_unchanged(*old(host), *final(host))),
            (!contains_nul(title@) && !contains_nul(msg@) && !old(host).initialized) ==> (r
                == Err::<DialogBox, Error>(Error::NotYetInitialized) && layer_unchanged(
                *old(host),
                *final(host),
            )),
            old(host).create_failure matches Some(e) ==> (!contains_nul(title@) && !contains_nul(
                msg@,
            ) && old(host).initialized ==> (r == Err::<DialogBox, Error>(e) && layer_unchanged(
                *old(host),
                *final(host),
            ))),
            (!contains_nul(title@) && !contains_nul(msg@) && old(host).initialized && old(
                host,
            ).create_failure is None) ==> (r matches Ok(d) && create_step(
                *old(host),
                *final(host),
                d.raw,
            ) && d.live && d.title@ == title@ && d.msg@ == msg@ && d.dialog_type == dialog_type
                && d.accept_label is None),
    {
        if has_nul_byte(&title) || has_nul_byte(&msg) {
            return Err(Error::EmbeddedNull);
        }
        if !host.initialized {
            return Err(Error::NotYetInitialized);
        }
        if let Some(e) = host.create_failure {
            return Err(e);
        }
        let raw = host.allocate();
        Ok(DialogBox { raw, live: true, title, msg, dialog_type, accept_label: None })
    }

    /// Replaces the label of the accept button.
    pub fn set_accept_label(&mut self, label: Vec<u8>)
        requires
            old(self).live,
            !contains_nul(label@),
        ensures
            final(self).accept_label == Some(label),
            final(self).raw == old(self).raw,
            final(self).live == old(self).live,
            final(self).title == old(self).title,
            final(self).msg == old(self).msg,
            final(self).dialog_type == old(self).dialog_type,
    {
        self.accept_label = Some(label);
    }

    /// Presents the box and waits for the user to dismiss it.
    pub fn show(&mut self, host: &mut NativeLayer)
        requires
            old(self).live,
            old(host).wf(),
            old(host).displays < u64::MAX,
        ensures
            *final(self) == *old(self),
            final(host).wf(),
            display_step(*old(host), *final(host)),
    {
        host.record_display();
    }

    /// Releases the owned native handle.  Callable only while the box is
    /// live, and leaves it released, so the handle is freed exactly once.
    pub fn release(&mut self, host: &mut NativeLayer)
        requires
            old(self).live,
            old(host).wf(),
            old(host).live@.contains(old(self).raw),
        ensures
            !final(self).live,
            final(self).raw == old(self).raw,
            final(host).wf(),
            free_step(*old(host), *final(host), old(self).raw),
    {
        host.release_handle(self.raw);
        self.live = false;
    }
}

} // verus!
