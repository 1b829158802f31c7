//! About dialogs: the traditional Help → About presentation, configured
//! fluently and then built against the native layer.

use vstd::prelude::*;

use crate::error::Error;
use crate::image::Image;
use crate::native::{create_step, display_step, free_step, layer_unchanged, NativeLayer};
use crate::util::{contains_nul, has_nul_byte};

verus! {

/// An about dialog: first a plain configuration value filled by the
/// fluent methods, then — after [`AboutDialog::build`] — the owner of one
/// native handle.
#[derive(Debug)]
pub struct AboutDialog {
    /// The application name shown in the dialog.
    pub app_name: Vec<u8>,
    /// The short description shown under the name.
    pub details: Vec<u8>,
    /// The version text shown in the dialog.
    pub version: Vec<u8>,
    /// The icon shown beside the name, when one was attached.
    pub icon: Option<Image>,
    /// The id of the owned native handle once built; the stand-in for
    /// the opaque native pointer.
    pub raw: u64,
    /// Whether a native handle is owned: set by `build`, cleared by the
    /// one release.
    pub live: bool,
}

impl AboutDialog {
    /// An empty configuration: no text, no icon, no native handle yet.
    pub fn new() -> (r: AboutDialog)
        ensures
            r.app_name@.len() == 0,
            r.details@.len() == 0,
            r.version@.len() == 0,
            r.icon is None,
            !r.live,
    {
        AboutDialog {
            app_name: Vec::new(),
            details: Vec::new(),
            version: Vec::new(),
            icon: None,
            raw: 0,
            live: false,
        }
    }

    /// Sets the application name.
    pub fn name(self, name: Vec<u8>) -> (r: AboutDialog)
        ensures
            r.app_name == name,
            r.details == self.details,
            r.version == self.version,
            r.icon == self.icon,
            r.raw == self.raw,
            r.live == self.live,
    {
        AboutDialog { app_name: name, ..self }
    }

    /// Sets the short description.
    pub fn description(self, description: Vec<u8>) -> (r: AboutDialog)
        ensures
            r.details == description,
            r.app_name == self.app_name,
            r.version == self.version,
            r.icon == self.icon,
            r.raw == self.raw,
            r.live == self.live,
    {
        AboutDialog { details: description, ..self }
    }

    /// Sets the version text.
    pub fn version(self, version: Vec<u8>) -> (r: AboutDialog)
        ensures
            r.version == version,
            r.app_name == self.app_name,
            r.details == self.details,
            r.icon == self.icon,
            r.raw == self.raw,
            r.live == self.live,
    {
        AboutDialog { version, ..self }
    }

    /// Attaches an icon.
    pub fn icon(self, icon: Image) -> (r: AboutDialog)
        ensures
            r.icon == Some(icon),
            r.app_name == self.app_name,
            r.details == self.details,
            r.version == self.version,
            r.raw == self.raw,
            r.live == self.live,
    {
        AboutDialog { icon: Some(icon), ..self }
    }

    /// Builds the native dialog from the configured texts.
    ///
    /// Configured text with an interior nul byte is refused with
    /// `EmbeddedNull`; before initialization the native layer refuses
    /// with `NotYetInitialized`; a scripted creation failure surfaces its
    /// error.  On every failure both the configuration and the layer are
    /// untouched; otherwise exactly one fresh handle is created and the
    /// dialog becomes live.
    pub fn build(&mut self, host: &mut NativeLayer) -> (r: Result<(), Error>)
        requires
            !old(self).live,
            old(host).wf(),
            old(host).can_allocate(),
        ensures
            final(host).wf(),
            final(self).app_name == old(self).app_name,
            final(self).details == old(self).details,
            final(self).version == old(self).version,
            final(self).icon == old(self).icon,
            (contains_nul(old(self).app_name@) || contains_nul(old(self).details@) || contains_nul(
                old(self).version@,
            )) ==> (r == Err::<(), Error>(Error::EmbeddedNull) && layer_unchanged(
                *old(host),
                *final(host),
            ) && *final(self) == *old(self)),
            (!contains_nul(old(self).app_name@) && !contains_nul(old(self).details@)
                && !contains_nul(old(self).version@) && !old(host).initialized) ==> (r == Err::<
                (),
                Error,
            >(Error::NotYetInitialized) && layer_unchanged(*old(host), *final(host))
                && *final(self) == *old(self)),
            old(host).create_failure matches Some(e) ==> (!contains_nul(old(self).app_name@)
                && !contains_nul(old(self).details@) && !contains_nul(old(self).version@) && old(
                host,
            ).initialized ==> (r == Err::<(), Error>(e) && layer_unchanged(*old(host), *final(host))
                && *final(self) == *old(self))),
            (!contains_nul(old(self).app_name@) && !contains_nul(old(self).details@)
                && !contains_nul(old(self).version@) && old(host).initialized && old(
                host,
            ).create_failure is None) ==> (r == Ok::<(), Error>(()) && final(self).live
                && create_step(*old(host), *final(host), final(self).raw)),
    {
        if has_nul_byte(&self.app_name) || has_nul_byte(&self.details) || has_nul_byte(
            &self.version,
        ) {
            return Err(Error::EmbeddedNull);
        }
        if !host.initialized {
            return Err(Error::NotYetInitialized);
        }
        if let Some(e) = host.create_failure {
            return Err(e);
        }
        let raw = host.allocate();
        self.raw = raw;
        self.live = true;
        Ok(())
    }

    /// Presents the dialog and waits for the user to dismiss it.
    pub fn show(&mut self, host: &mut NativeLayer)
        requires
            old(self).live,
            old(host).wf(),
            old(host).displays < u64::MAX,
        ensures
            *final(self) == *old(self),
            final(host).wf(),
            display_step(*old(host), *final(host)),
    {
        host.record_display();
    }

    /// Releases the owned native handle.  Callable only while the dialog
    /// is live, and leaves it released, so the handle is freed exactly
    /// once.  An attached icon owns its own handle and is released
    /// through its own wrapper.
    pub fn release(&mut self, host: &mut NativeLayer)
        requires
            old(self).live,
            old(host).wf(),
            old(host).live@.contains(old(self).raw),
        ensures
            !final(self).live,
            final(self).raw == old(self).raw,
            final(host).wf(),
            free_step(*old(host), *final(host), old(self).raw),
    {
        host.release_handle(self.raw);
        self.live = false;
    }
}

} // verus!
