//! Input boxes: a single-line text prompt whose typed text the caller
//! reads back as a dynamic string.

use vstd::prelude::*;

use crate::error::Error;
use crate::native::{create_step, display_step, free_step, layer_unchanged, NativeLayer};
use crate::object::Object;
use crate::string::DynamicString;
use crate::util::{clone_bytes, contains_nul, has_nul_byte};

verus! {

/// An input box owning one native handle, holding the text typed at the
/// last presentation.
#[derive(Debug)]
pub struct InputBox {
    /// The id of the owned native handle in the modelled layer; the
    /// stand-in for the opaque native pointer.
    pub raw: u64,
    /// Whether the handle is still owned; cleared by the one release.
    pub live: bool,
    /// The cached title text.
    pub title: Vec<u8>,
    /// The cached prompt text.
    pub prompt: Vec<u8>,
    /// The text the user typed at the last presentation, if any yet.
    pub user_input: Option<DynamicString>,
}

impl InputBox {
    /// Any held input is a well-formed dynamic string.
    pub open spec fn input_wf(self) -> bool {
        self.user_input matches Some(d) ==> d.wf()
    }

    /// Creates an input box with the given title and prompt.
    ///
    /// Title or prompt with an interior nul byte is refused with
    /// `EmbeddedNull`; before initialization the native layer refuses
    /// with `NotYetInitialized`; a scripted creation failure surfaces its
    /// error.  On every failure the layer is untouched; otherwise exactly
    /// one fresh handle is created and owned by the returned box.
    pub fn new(host: &mut NativeLayer, title: Vec<u8>, prompt: Vec<u8>) -> (r: Result<
        InputBox,
        Error,
    >)
        requires
            old(host).wf(),
            old(host).can_allocate(),
        ensures
            final(host).wf(),
            (contains_nul(title@) || contains_nul(prompt@)) ==> (r == Err::<InputBox, Error>(
                Error::EmbeddedNull,
            ) && layer_unchanged(*old(host), *final(host))),
            (!contains_nul(title@) && !contains_nul(prompt@) && !old(host).initialized) ==> (r
                == Err::<InputBox, Error>(Error::NotYetInitialized) && layer_unchanged(
                *old(host),
                *final(host),
            )),
            old(host).create_failure matches Some(e) ==> (!contains_nul(title@) && !contains_nul(
                prompt@,
            ) && old(host).initialized ==> (r == Err::<InputBox, Error>(e) && layer_unchanged(
                *old(host),
                *final(host),
            ))),
            (!contains_nul(title@) && !contains_nul(prompt@) && old(host).initialized && old(
                host,
            ).create_failure is None) ==> (r matches Ok(b) && create_step(
                *old(host),
                *final(host),
                b.raw,
            ) && b.live && b.title@ == title@ && b.prompt@ == prompt@ && b.user_input is None
                && b.input_wf()),
    {
        if has_nul_byte(&title) || has_nul_byte(&prompt) {
            return Err(Error::EmbeddedNull);
        }
        if !host.initialized {
            return Err(Error::NotYetInitialized);
        }
        if let Some(e) = host.create_failure {
            return Err(e);
        }
        let raw = host.allocate();
        Ok(InputBox { raw, live: true, title, prompt, user_input: None })
    }

    /// Presents the box, waits for the user, and stores the typed text.
    pub fn display(&mut self, host: &mut NativeLayer)
        requires
            old(self).live,
            old(host).wf(),
            old(host).displays < u64::MAX,
        ensures
            final(self).live,
            final(self).raw == old(self).raw,
            final(self).title == old(self).title,
            final(self).prompt == old(self).prompt,
            final(self).input_wf(),
            (final(self).user_input matches Some(d) && d@ == old(host).input_text@),
            final(host).wf(),
            display_step(*old(host), *final(host)),
    {
        host.record_display();
        let typed = clone_bytes(&host.input_text);
        match DynamicString::new(Some(typed)) {
            Ok(d) => {
                self.user_input = Some(d);
            },
            Err(_) => {
                proof {
                    assert(false);
                }
            },
        }
    }

    /// Hands back a deep copy of the text typed at the last presentation,
    /// or `None` when the box was never presented.
    pub fn get_input(&self) -> (r: Option<DynamicString>)
        requires
            self.input_wf(),
        ensures
            self.user_input is None ==> r is None,
            self.user_input matches Some(d) ==> (r matches Some(c) && c.wf() && c@ == d@),
    {
        match &self.user_input {
            None => None,
            Some(d) => Some(d.duplicate()),
        }
    }

    /// Releases the owned native handle.  Callable only while the box is
    /// live, and leaves it released, so the handle is freed exactly once.
    pub fn release(&mut self, host: &mut NativeLayer)
        requires
            old(self).live,
            old(host).wf(),
            old(host).live@.contains(old(self).raw),
        ensures
            !final(self).live,
            final(self).raw == old(self).raw,
            final(host).wf(),
            free_step(*old(host), *final(host), old(self).raw),
    {
        host.release_handle(self.raw);
        self.live = false;
    }
}

impl Object for InputBox {
    type ReturnValue = ();

    open spec fn is_live(&self) -> bool {
        self.live
    }

    open spec fn raw_id(&self) -> u64 {
        self.raw
    }

    fn get_raw(&self) -> (r: u64) {
        self.raw
    }

    fn show(&mut self, host: &mut NativeLayer) -> (r: ()) {
        self.display(host);
    }

    fn free(&mut self, host: &mut NativeLayer) {
        host.release_handle(self.raw);
        self.live = false;
    }
}

} // verus!
