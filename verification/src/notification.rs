//! Desktop notifications: a title, a body, a severity kind, and optional
//! named actions bound to caller-supplied integer values.

use vstd::prelude::*;

use crate::error::Error;
use crate::native::{create_step, display_step, free_step, layer_unchanged, NativeLayer};
use crate::util::{contains_nul, has_nul_byte};

verus! {

/// The kind of notification to send.
#[derive(Clone, Copy, Debug, PartialEq, Eq, PartialOrd, Ord, Structural)]
pub enum NotificationKind {
    /// A plain informational notification.
    Simple,
    /// A warning notification.
    Warning,
    /// An error notification.
    Error,
}

/// The native code of each notification kind.
pub open spec fn spec_notification_kind_code(k: NotificationKind) -> int {
    match k {
        NotificationKind::Simple => 0,
        NotificationKind::Warning => 1,
        NotificationKind::Error => 2,
    }
}

impl NotificationKind {
    /// The integer the native layer expects for this notification kind.
    pub fn code(&self) -> (r: u32)
        ensures
            r == spec_notification_kind_code(*self),
    {
        match self {
            NotificationKind::Simple => 0,
            NotificationKind::Warning => 1,
            NotificationKind::Error => 2,
        }
    }
}

/// A notification owning one native handle.
///
/// Actions added before sending bind a name to a caller-supplied integer
/// value; when the user picks the action, the native layer reports that
/// value back.
#[derive(Debug)]
pub struct Notification {
    /// The id of the owned native handle in the modelled layer; the
    /// stand-in for the opaque native pointer.
    pub raw: u64,
    /// Whether the handle is still owned; cleared by the one release.
    pub live: bool,
    /// The cached title text.
    pub title: Vec<u8>,
    /// The cached body text.
    pub msg: Vec<u8>,
    /// The kind the notification was created with.
    pub kind: NotificationKind,
    /// The added actions: each a name bound to the value reported when
    /// the action fires.
    pub actions: Vec<(Vec<u8>, i32)>,
}

impl Notification {
    /// Creates a notification with the given title, body and kind.
    ///
    /// Title or body with an interior nul byte is refused with
    /// `EmbeddedNull`; before initialization the native layer refuses
    /// with `NotYetInitialized`.  A failing native allocation is reported
    /// as `OutOfMemory` whatever its scripted cause, since the native
    /// constructor hands back only a null pointer.  On every failure the
    /// layer is untouched; otherwise exactly one fresh handle is created
    /// and owned by the returned notification.
    pub fn new(
        host: &mut NativeLayer,
        title: Vec<u8>,
        msg: Vec<u8>,
        kind: NotificationKind,
    ) -> (r: Result<Notification, Error>)
        requires
            old(host).wf(),
            old(host).can_allocate(),
        ensures
            final(host).wf(),
            (contains_nul(title@) || contains_nul(msg@)) ==> (r == Err::<Notification, Error>(
                Error::EmbeddedNull,
            ) && layer_unchanged(*old(host), *final(host))),
            (!contains_nul(title@) && !contains_nul(msg@) && !old(host).initialized) ==> (r
                == Err::<Notification, Error>(Error::NotYetInitialized) && layer_unchanged(
                *old(host),
                *final(host),
            )),
            (!contains_nul(title@) && !contains_nul(msg@) && old(host).initialized && old(
                host,
            ).create_failure is Some) ==> (r == Err::<Notification, Error>(Error::OutOfMemory)
                && layer_unchanged(*old(host), *final(host))),
            (!contains_nul(title@) && !contains_nul(msg@) && old(host).initialized && old(
                host,
            ).create_failure is None) ==> (r matches Ok(n) && create_step(
                *old(host),
                *final(host),
                n.raw,
            ) && n.live && n.title@ == title@ && n.msg@ == msg@ && n.kind == kind
                && n.actions@.len() == 0),
    {
        if has_nul_byte(&title) || has_nul_byte(&msg) {
            return Err(Error::EmbeddedNull);
        }
        if !host.initialized {
            return Err(Error::NotYetInitialized);
        }
        if host.create_failure.is_some() {
            return Err(Error::OutOfMemory);
        }
        let raw = host.allocate();
        Ok(Notification { raw, live: true, title, msg, kind, actions: Vec::new() })
    }

    /// Binds an action name to the value written back when the user picks
    /// it.  The name must be free of interior nul bytes, or it could not
    /// cross the C boundary.
    pub fn add_action(&mut self, name: Vec<u8>, val: i32)
        requires
            old(self).live,
            !contains_nul(name@),
        ensures
            final(self).actions@ == old(self).actions@.push((name, val)),
            final(self).raw == old(self).raw,
            final(self).live == old(self).live,
            final(self).title == old(self).title,
            final(self).msg == old(self).msg,
            final(self).kind == old(self).kind,
    {
        self.actions.push((name, val));
    }

    /// Sends the notification to the desktop notification system.  Each
    /// call presents it once more.
    pub fn send(&mut self, host: &mut NativeLayer)
        requires
            old(self).live,
            old(host).wf(),
            old(host).displays < u64::MAX,
        ensures
            *final(self) == *old(self),
            final(host).wf(),
            display_step(*old(host), *final(host)),
    {
        host.record_display();
    }

    /// Releases the owned native handle.  Callable only while the
    /// notification is live, and leaves it released, so the handle is
    /// freed exactly once.
    pub fn release(&mut self, host: &mut NativeLayer)
        requires
            old(self).live,
            old(host).wf(),
            old(host).live@.contains(old(self).raw),
        ensures
            !final(self).live,
            final(self).raw == old(self).raw,
            final(host).wf(),
            free_step(*old(host), *final(host), old(self).raw),
    {
        host.release_handle(self.raw);
        self.live = false;
    }
}

} // verus!
