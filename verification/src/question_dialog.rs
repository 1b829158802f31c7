//! Question boxes: a yes/no/cancel prompt whose answer the caller reads
//! back as a typed reply.

use vstd::prelude::*;

use crate::error::Error;
use crate::native::{create_step, free_step, layer_unchanged, NativeLayer};
use crate::object::Object;
use crate::util::{contains_nul, has_nul_byte};

verus! {

/// The buttons a question dialog presents.
#[derive(Clone, Copy, Debug, PartialEq, Eq, PartialOrd, Ord, Structural)]
pub enum QuestionDialogButtons {
    /// An affirmative button alone.
    Yes,
    /// Affirmative and negative buttons.
    YesNo,
    /// Affirmative, negative and cancel buttons.
    YesNoCancel,
}

/// The native code of each button set, as the binding assigns them.
pub open spec fn spec_buttons_code(b: QuestionDialogButtons) -> int {
    match b {
        QuestionDialogButtons::Yes => 0x04,
        QuestionDialogButtons::YesNo => 0x05,
        QuestionDialogButtons::YesNoCancel => 0x06,
    }
}

impl QuestionDialogButtons {
    /// The integer the native layer expects for this button set.
    pub fn code(&self) -> (r: u32)
        ensures
            r == spec_buttons_code(*self),
    {
        match self {
            QuestionDialogButtons::Yes => 0x04,
            QuestionDialogButtons::YesNo => 0x05,
            QuestionDialogButtons::YesNoCancel => 0x06,
        }
    }
}

/// The user's answer to a question dialog.
#[derive(Clone, Copy, Debug, PartialEq, Eq, Structural)]
pub enum Reply {
    /// The user pressed the affirmative button (native code `0x04`).
    Accepted,
    /// The user cancelled, or the native layer reported a code outside
    /// the known set; cancellation is the defensive fallback
    /// (native code `0x05`).
    Cancelled,
    /// The user pressed the negative button (native code `0x06`).
    Rejected,
}

/// The reply a raw native code stands for: the three known codes map to
/// their variants and everything else falls back to `Cancelled`.
pub open spec fn spec_reply_from_code(code: int) -> Reply {
    if code == 0x04 {
        Reply::Accepted
    } else if code == 0x05 {
        Reply::Cancelled
    } else if code == 0x06 {
        Reply::Rejected
    } else {
        Reply::Cancelled
    }
}

impl From<u32> for Reply {
    /// Translates a raw native reply code, falling back to `Cancelled`
    /// for anything outside the known set.
    fn from(value: u32) -> (r: Reply) {
        if value == 0x04 {
            Reply::Accepted
        } else if value == 0x05 {
            Reply::Cancelled
        } else if value == 0x06 {
            Reply::Rejected
        } else {
            Reply::Cancelled
        }
    }
}

impl vstd::std_specs::convert::FromSpecImpl<u32> for Reply {
    open spec fn obeys_from_spec() -> bool {
        true
    }

    open spec fn from_spec(v: u32) -> Reply {
        spec_reply_from_code(v as int)
    }
}

/// A question dialog owning one native handle, with its prompt cached on
/// the host side.
#[derive(Debug)]
pub struct QuestionDialog {
    /// The id of the owned native handle in the modelled layer; the
    /// stand-in for the opaque native pointer.
    pub raw: u64,
    /// Whether the handle is still owned; cleared by the one release.
    pub live: bool,
    /// The cached title text.
    pub title: Vec<u8>,
    /// The cached question text.
    pub msg: Vec<u8>,
    /// The button set the dialog was created with.
    pub buttons: QuestionDialogButtons,
}

impl QuestionDialog {
    /// Creates a question dialog with the given title, question and
    /// buttons.
    ///
    /// Title or question with an interior nul byte is refused with
    /// `EmbeddedNull`; before initialization the native layer refuses
    /// with `NotYetInitialized`; a scripted creation failure surfaces its
    /// error.  On every failure the layer is untouched; otherwise exactly
    /// one fresh handle is created and owned by the returned dialog.
    pub fn new(
        host: &mut NativeLayer,
        title: Vec<u8>,
        msg: Vec<u8>,
        buttons: QuestionDialogButtons,
    ) -> (r: Result<QuestionDialog, Error>)
        requires
            old(host).wf(),
            old(host).can_allocate(),
        ensures
            final(host).wf(),
            (contains_nul(title@) || contains_nul(msg@)) ==> (r == Err::<QuestionDialog, Error>(
                Error::EmbeddedNull,
            ) && layer_unchanged(*old(host), *final(host))),
            (!contains_nul(title@) && !contains_nul(msg@) && !old(host).initialized) ==> (r
                == Err::<QuestionDialog, Error>(Error::NotYetInitialized) && layer_unchanged(
                *old(host),
                *final(host),
            )),
            old(host).create_failure matches Some(e) ==> (!contains_nul(title@) && !contains_nul(
                msg@,
            ) && old(host).initialized ==> (r == Err::<QuestionDialog, Error>(e)
                && layer_unchanged(*old(host), *final(host)))),
            (!contains_nul(title@) && !contains_nul(msg@) && old(host).initialized && old(
                host,
            ).create_failure is None) ==> (r matches Ok(d) && create_step(
                *old(host),
                *final(host),
                d.raw,
            ) && d.live && d.title@ == title@ && d.msg@ == msg@ && d.buttons == buttons),
    {
        if has_nul_byte(&title) || has_nul_byte(&msg) {
            return Err(Error::EmbeddedNull);
        }
        if !host.initialized {
            return Err(Error::NotYetInitialized);
        }
        if let Some(e) = host.create_failure {
            return Err(e);
        }
        let raw = host.allocate();
        Ok(QuestionDialog { raw, live: true, title, msg, buttons })
    }

    /// Reads back the user's answer: the native layer's raw reply code,
    /// translated with the defensive fallback to `Cancelled`.
    pub fn get_reply(&self, host: &NativeLayer) -> (r: Reply)
        requires
            self.live,
        ensures
            r == spec_reply_from_code(host.reply_code as int),
    {
        Reply::from(host.reply_code)
    }

    /// Releases the owned native handle.  Callable only while the dialog
    /// is live, and leaves it released, so the handle is freed exactly
    /// once.
    pub fn release(&mut self, host: &mut NativeLayer)
        requires
            old(self).live,
            old(host).wf(),
            old(host).live@.contains(old(self).raw),
        ensures
            !final(self).live,
            final(self).raw == old(self).raw,
            final(host).wf(),
            free_step(*old(host), *final(host), old(self).raw),
    {
        host.release_handle(self.raw);
        self.live = false;
    }
}

impl Object for QuestionDialog {
    type ReturnValue = Reply;

    open spec fn is_live(&self) -> bool {
        self.live
    }

    open spec fn raw_id(&self) -> u64 {
        self.raw
    }

    fn get_raw(&self) -> (r: u64) {
        self.raw
    }

    fn show(&mut self, host: &mut NativeLayer) -> (r: Reply) {
        Reply::from(host.reply_code)
    }

    fn free(&mut self, host: &mut NativeLayer) {
        host.release_handle(self.raw);
        self.live = false;
    }
}

} // verus!
