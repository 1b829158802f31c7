//! File choosers: open- and save-dialogs, and the wire format of their
//! extension filters.

use vstd::prelude::*;

use crate::error::Error;
use crate::native::{create_step, free_step, layer_unchanged, NativeLayer};
use crate::util::{clone_bytes, contains_nul, has_nul_byte};

verus! {

/// Whether a file dialog picks an existing file or names a new one.
#[derive(Clone, Copy, Debug, PartialEq, Eq, Structural)]
pub enum FileDialogType {
    /// Pick an existing file to open.
    OpenFile,
    /// Name a file to save to.
    SaveFile,
}

/// The wire format of an extension filter list: each extension followed
/// by a semicolon and a nul byte, all run together.
pub open spec fn spec_filter_encoding(exts: Seq<Seq<u8>>) -> Seq<u8>
    decreases exts.len(),
{
    if exts.len() == 0 {
        Seq::empty()
    } else {
        spec_filter_encoding(exts.drop_last()) + exts.last() + seq![59u8, 0u8]
    }
}

/// Whether some extension in the list holds an interior nul byte.
pub open spec fn some_ext_has_nul(exts: Seq<Seq<u8>>) -> bool {
    exists|i: int| 0 <= i < exts.len() && contains_nul(exts[i])
}

/// Builds the filter wire format from a list of extensions.
pub fn build_filter(extensions: &Vec<Vec<u8>>) -> (r: Vec<u8>)
    ensures
        r@ == spec_filter_encoding(extensions.deep_view()),
{
    let n: usize = extensions.len();
    let mut r: Vec<u8> = Vec::new();
    let mut i: usize = 0;
    proof {
        assert(extensions.deep_view().take(0) =~= Seq::<Seq<u8>>::empty());
    }
    while i < n
        invariant
            i <= n,
            n == extensions@.len(),
            extensions.deep_view().len() == n,
            r@ == spec_filter_encoding(extensions.deep_view().take(i as int)),
        decreases n - i,
    {
        let ext = &extensions[i];
        let m: usize = ext.len();
        let ghost base = r@;
        let mut j: usize = 0;
        while j < m
            invariant
                j <= m,
                m == ext@.len(),
                r@ == base + ext@.take(j as int),
            decreases m - j,
        {
            r.push(ext[j]);
            j = j + 1;
            proof {
                assert(base + ext@.take(j - 1) + seq![ext@[j - 1]] =~= base + ext@.take(j as int));
            }
        }
        r.push(59);
        r.push(0);
        i = i + 1;
        proof {
            let evs = extensions.deep_view();
            assert(ext@ == evs[i - 1]);
            assert(evs.take(i as int).drop_last() =~= evs.take(i - 1));
            assert(evs.take(i as int).last() == evs[i - 1]);
            assert(ext@.take(m as int) =~= ext@);
            assert(r@ =~= spec_filter_encoding(evs.take(i - 1)) + evs[i - 1] + seq![59u8, 0u8]);
        }
    }
    proof {
        assert(extensions.deep_view().take(n as int) =~= extensions.deep_view());
    }
    r
}

/// A file dialog owning one native handle, with the built filter and the
/// last retrieved location cached on the host side.
#[derive(Debug)]
pub struct FileDialog {
    /// The id of the owned native handle in the modelled layer; the
    /// stand-in for the opaque native pointer.
    pub raw: u64,
    /// Whether the handle is still owned; cleared by the one release.
    pub live: bool,
    /// The cached title text.
    pub title: Vec<u8>,
    /// Whether the dialog opens or saves.
    pub dialog_type: FileDialogType,
    /// The filter wire format handed to the native layer; empty for a
    /// save dialog, which takes a suggested filename instead.
    pub filter: Vec<u8>,
    /// The location retrieved last, if any.
    pub location_chosen: Option<Vec<u8>>,
}

impl FileDialog {
    /// Creates a file dialog with the given title, direction and
    /// extension filters.
    ///
    /// A title or an extension with an interior nul byte is refused with
    /// `EmbeddedNull`; before initialization the native layer refuses
    /// with `NotYetInitialized`; a scripted creation failure surfaces its
    /// error.  On every failure the layer is untouched.  Otherwise
    /// exactly one fresh handle is created; an open dialog carries the
    /// encoded filter, a save dialog carries none.
    pub fn new(
        host: &mut NativeLayer,
        title: Vec<u8>,
        type_of_dialog: FileDialogType,
        file_extensions: Vec<Vec<u8>>,
    ) -> (r: Result<FileDialog, Error>)
        requires
            old(host).wf(),
            old(host).can_allocate(),
        ensures
            final(host).wf(),
            (contains_nul(title@) || some_ext_has_nul(file_extensions.deep_view())) ==> (r
                == Err::<FileDialog, Error>(Error::EmbeddedNull) && layer_unchanged(
                *old(host),
                *final(host),
            )),
            (!contains_nul(title@) && !some_ext_has_nul(file_extensions.deep_view()) && !old(
                host,
            ).initialized) ==> (r == Err::<FileDialog, Error>(Error::NotYetInitialized)
                && layer_unchanged(*old(host), *final(host))),
            old(host).create_failure matches Some(e) ==> (!contains_nul(title@)
                && !some_ext_has_nul(file_extensions.deep_view()) && old(host).initialized ==> (r
                == Err::<FileDialog, Error>(e) && layer_unchanged(*old(host), *final(host)))),
            (!contains_nul(title@) && !some_ext_has_nul(file_extensions.deep_view()) && old(
                host,
            ).initialized && old(host).create_failure is None) ==> (r matches Ok(d)
                && create_step(*old(host), *final(host), d.raw) && d.live && d.title@ == title@
                && d.dialog_type == type_of_dialog && d.location_chosen is None && (
            match type_of_dialog {
                FileDialogType::OpenFile => d.filter@ == spec_filter_encoding(
                    file_extensions.deep_view(),
                ),
                FileDialogType::SaveFile => d.filter@.len() == 0,
            })),
    {
        if has_nul_byte(&title) || any_extension_has_nul(&file_extensions) {
            return Err(Error::EmbeddedNull);
        }
        if !host.initialized {
            return Err(Error::NotYetInitialized);
        }
        if let Some(e) = host.create_failure {
            return Err(e);
        }
        let filter = match type_of_dialog {
            FileDialogType::OpenFile => build_filter(&file_extensions),
            FileDialogType::SaveFile => Vec::new(),
        };
        let raw = host.allocate();
        Ok(FileDialog { raw, live: true, title, dialog_type: type_of_dialog, filter,
            location_chosen: None })
    }

    /// Reads back what the user chose.  A null selection from the native
    /// layer means "nothing was selected" and yields `None` — an ordinary
    /// outcome, not an error.  A chosen path is cached and handed back.
    pub fn retrieve_filename(&mut self, host: &NativeLayer) -> (r: Option<Vec<u8>>)
        requires
            old(self).live,
            host.wf(),
        ensures
            host.file_selection is None ==> (r is None && *final(self) == *old(self)),
            host.file_selection matches Some(sel) ==> (r matches Some(p) && p@ == sel@),
            host.file_selection matches Some(sel) ==> (final(self).location_chosen matches Some(q)
                && q@ == sel@),
            host.file_selection is Some ==> (final(self).raw == old(self).raw && final(self).live
                && final(self).title == old(self).title
                && final(self).dialog_type == old(self).dialog_type
                && final(self).filter == old(self).filter),
    {
        match &host.file_selection {
            None => None,
            Some(sel) => {
                let chosen = clone_bytes(sel);
                self.location_chosen = Some(chosen);
                Some(clone_bytes(sel))
            },
        }
    }

    /// Releases the owned native handle.  Callable only while the dialog
    /// is live, and leaves it released, so the handle is freed exactly
    /// once.
    pub fn release(&mut self, host: &mut NativeLayer)
        requires
            old(self).live,
            old(host).wf(),
            old(host).live@.contains(old(self).raw),
        ensures
            !final(self).live,
            final(self).raw == old(self).raw,
            final(host).wf(),
            free_step(*old(host), *final(host), old(self).raw),
    {
        host.release_handle(self.raw);
        self.live = false;
    }
}

/// Whether any extension in the list holds an interior nul byte.
fn any_extension_has_nul(extensions: &Vec<Vec<u8>>) -> (r: bool)
    ensures
        r == some_ext_has_nul(extensions.deep_view()),
{
    let n: usize = extensions.len();
    let mut i: usize = 0;
    while i < n
        invariant
            i <= n,
            n == extensions@.len(),
            extensions.deep_view().len() == n,
            forall|j: int| 0 <= j < i ==> !contains_nul(extensions.deep_view()[j]),
        decreases n - i,
    {
        if has_nul_byte(&extensions[i]) {
            proof {
                assert(extensions.deep_view()[i as int] == extensions@[i as int]@);
            }
            return true;
        }
        proof {
            assert(extensions.deep_view()[i as int] == extensions@[i as int]@);
        }
        i = i + 1;
    }
    false
}

} // verus!
