//! A deterministic model of the native dialog layer.
//!
//! The real toolkit keeps process-wide state behind the C ABI: whether the
//! library was initialized, which handles are alive, what the user chose.
//! [`NativeLayer`] is that state as an explicit host value.  The handle
//! wrappers are verified against it: every native handle they create is
//! recorded, every release is counted, and the pair of counters makes
//! leak-freedom and single-release provable.  What only the user at the
//! screen could decide — a failing allocation, the chosen file, the typed
//! text, the pressed button — is configured ahead of time through the
//! `set_*` methods, so every run of the model is reproducible.

use vstd::prelude::*;

use crate::error::Error;
use crate::util::contains_nul;

verus! {

/// The modelled process-wide state of the native layer.
pub struct NativeLayer {
    /// Whether the one-time initialization has run.
    pub initialized: bool,
    /// The configured application name; never empty by default, since the
    /// native layer documents trouble with empty names.
    pub app_name: Vec<u8>,
    /// The id the next created handle will get.
    pub next_id: u64,
    /// The ids of all currently live handles.
    pub live: Vec<u64>,
    /// How many handles were ever allocated.
    pub allocs: u64,
    /// How many handles were ever released.
    pub frees: u64,
    /// How many dialogs or notifications were presented.
    pub displays: u64,
    /// When set, every creation call fails as the native layer would:
    /// a null handle whose cause this error reports.
    pub create_failure: Option<Error>,
    /// What a file dialog reports as the chosen path; `None` models the
    /// native null pointer for "nothing was selected".
    pub file_selection: Option<Vec<u8>>,
    /// What an input box reports as the typed text.
    pub input_text: Vec<u8>,
    /// The raw code a question dialog reports as the pressed button.
    pub reply_code: u32,
}

/// The bytes of the default application name, `NvDialog Application`.
pub open spec fn spec_default_app_name() -> Seq<u8> {
    seq![
        0x4eu8, 0x76u8, 0x44u8, 0x69u8, 0x61u8, 0x6cu8, 0x6fu8, 0x67u8, 0x20u8, 0x41u8, 0x70u8,
        0x70u8, 0x6cu8, 0x69u8, 0x63u8, 0x61u8, 0x74u8, 0x69u8, 0x6fu8, 0x6eu8,
    ]
}

/// Both layers hold the same scripted choices.
pub open spec fn same_script(pre: NativeLayer, post: NativeLayer) -> bool {
    &&& post.create_failure == pre.create_failure
    &&& post.file_selection == pre.file_selection
    &&& post.input_text == pre.input_text
    &&& post.reply_code == pre.reply_code
}

/// Both layers hold the same handle bookkeeping.
pub open spec fn same_handles(pre: NativeLayer, post: NativeLayer) -> bool {
    &&& post.next_id == pre.next_id
    &&& post.live == pre.live
    &&& post.allocs == pre.allocs
    &&& post.frees == pre.frees
    &&& post.displays == pre.displays
}

/// Nothing at all changed.
pub open spec fn layer_unchanged(pre: NativeLayer, post: NativeLayer) -> bool {
    &&& post.initialized == pre.initialized
    &&& post.app_name == pre.app_name
    &&& same_handles(pre, post)
    &&& same_script(pre, post)
}

/// One handle was created: `h` is fresh, becomes live, and the allocation
/// count grows by one.  Nothing else moves.
pub open spec fn create_step(pre: NativeLayer, post: NativeLayer, h: u64) -> bool {
    &&& pre.initialized
    &&& pre.create_failure is None
    &&& h == pre.next_id
    &&& !pre.live@.contains(h)
    &&& post.live@ == pre.live@.push(h)
    &&& post.live@.len() == pre.live@.len() + 1
    &&& post.live@[pre.live@.len() as int] == h
    &&& post.live@.contains(h)
    &&& post.next_id == pre.next_id + 1
    &&& post.allocs == pre.allocs + 1
    &&& post.frees == pre.frees
    &&& post.displays == pre.displays
    &&& post.initialized == pre.initialized
    &&& post.app_name == pre.app_name
    &&& same_script(pre, post)
}

/// One handle was released: `h` leaves the live set and the release count
/// grows by one.  Nothing else moves.
pub open spec fn free_step(pre: NativeLayer, post: NativeLayer, h: u64) -> bool {
    &&& (exists|i: int|
        0 <= i < pre.live@.len() && pre.live@[i] == h && post.live@ == pre.live@.remove(i))
    &&& post.frees == pre.frees + 1
    &&& post.allocs == pre.allocs
    &&& post.next_id == pre.next_id
    &&& post.displays == pre.displays
    &&& post.initialized == pre.initialized
    &&& post.app_name == pre.app_name
    &&& same_script(pre, post)
}

/// One dialog or notification was presented.  Nothing else moves.
pub open spec fn display_step(pre: NativeLayer, post: NativeLayer) -> bool {
    &&& post.displays == pre.displays + 1
    &&& post.next_id == pre.next_id
    &&& post.live == pre.live
    &&& post.allocs == pre.allocs
    &&& post.frees == pre.frees
    &&& post.initialized == pre.initialized
    &&& post.app_name == pre.app_name
    &&& same_script(pre, post)
}

impl NativeLayer {
    /// The bookkeeping invariant: live ids are distinct and below the next
    /// id, the counters and the live set agree, and every scripted string
    /// is a possible C string (no interior nul).
    pub open spec fn wf(self) -> bool {
        &&& forall|i: int, j: int|
            0 <= i < j < self.live@.len() ==> self.live@[i] != self.live@[j]
        &&& forall|i: int| 0 <= i < self.live@.len() ==> self.live@[i] < self.next_id
        &&& self.live@.len() == self.allocs - self.frees
        &&& self.frees <= self.allocs
        &&& !contains_nul(self.app_name@)
        &&& !contains_nul(self.input_text@)
        &&& (self.file_selection matches Some(sel) ==> !contains_nul(sel@))
    }

    /// Room for one more handle in the model's counters.
    pub open spec fn can_allocate(self) -> bool {
        self.next_id < u64::MAX && self.allocs < u64::MAX
    }

    /// A fresh, uninitialized native layer: no handles, balanced counters,
    /// creations succeeding, nothing selected, nothing typed, and the
    /// application name at its non-empty default.
    pub fn new() -> (r: NativeLayer)
        ensures
            r.wf(),
            !r.initialized,
            r.app_name@ == spec_default_app_name(),
            r.next_id == 1,
            r.live@.len() == 0,
            r.allocs == 0,
            r.frees == 0,
            r.displays == 0,
            r.create_failure is None,
            r.file_selection is None,
            r.input_text@.len() == 0,
            r.reply_code == 0,
    {
        let app_name: Vec<u8> = vec![
            0x4e, 0x76, 0x44, 0x69, 0x61, 0x6c, 0x6f, 0x67, 0x20, 0x41, 0x70, 0x70, 0x6c, 0x69,
            0x63, 0x61, 0x74, 0x69, 0x6f, 0x6e,
        ];
        proof {
            assert(app_name@ =~= spec_default_app_name());
        }
        NativeLayer {
            initialized: false,
            app_name,
            next_id: 1,
            live: Vec::new(),
            allocs: 0,
            frees: 0,
            displays: 0,
            create_failure: None,
            file_selection: None,
            input_text: Vec::new(),
            reply_code: 0,
        }
    }

    /// Creates one native handle and records it.
    pub(crate) fn allocate(&mut self) -> (h: u64)
        requires
            old(self).wf(),
            old(self).can_allocate(),
            old(self).initialized,
            old(self).create_failure is None,
        ensures
            final(self).wf(),
            create_step(*old(self), *final(self), h),
    {
        let h = self.next_id;
        self.next_id = self.next_id + 1;
        self.allocs = self.allocs + 1;
        self.live.push(h);
        h
    }

    /// Releases the live handle `h`: removes it from the live set and
    /// counts the release.
    pub(crate) fn release_handle(&mut self, h: u64)
        requires
            old(self).wf(),
            old(self).live@.contains(h),
        ensures
            final(self).wf(),
            free_step(*old(self), *final(self), h),
    {
        let i = index_of_handle(&self.live, h);
        self.live.remove(i);
        self.frees = self.frees + 1;
    }

    /// Counts one presentation of a dialog or notification.
    pub(crate) fn record_display(&mut self)
        requires
            old(self).wf(),
            old(self).displays < u64::MAX,
        ensures
            final(self).wf(),
            display_step(*old(self), *final(self)),
    {
        self.displays = self.displays + 1;
    }

    /// Scripts whether creation calls fail, and with which error.
    pub fn set_create_failure(&mut self, failure: Option<Error>)
        requires
            old(self).wf(),
        ensures
            final(self).wf(),
            final(self).create_failure == failure,
            final(self).initialized == old(self).initialized,
            final(self).app_name == old(self).app_name,
            same_handles(*old(self), *final(self)),
            final(self).file_selection == old(self).file_selection,
            final(self).input_text == old(self).input_text,
            final(self).reply_code == old(self).reply_code,
    {
        self.create_failure = failure;
    }

    /// Scripts what a file dialog reports as the chosen path; `None`
    /// models the native null pointer for "nothing was selected".
    pub fn set_file_selection(&mut self, selection: Option<Vec<u8>>)
        requires
            old(self).wf(),
            selection matches Some(sel) ==> !contains_nul(sel@),
        ensures
            final(self).wf(),
            final(self).file_selection == selection,
            final(self).initialized == old(self).initialized,
            final(self).app_name == old(self).app_name,
            same_handles(*old(self), *final(self)),
            final(self).create_failure == old(self).create_failure,
            final(self).input_text == old(self).input_text,
            final(self).reply_code == old(self).reply_code,
    {
        self.file_selection = selection;
    }

    /// Scripts what an input box reports as the typed text.
    pub fn set_input_text(&mut self, text: Vec<u8>)
        requires
            old(self).wf(),
            !contains_nul(text@),
        ensures
            final(self).wf(),
            final(self).input_text == text,
            final(self).initialized == old(self).initialized,
            final(self).app_name == old(self).app_name,
            same_handles(*old(self), *final(self)),
            final(self).create_failure == old(self).create_failure,
            final(self).file_selection == old(self).file_selection,
            final(self).reply_code == old(self).reply_code,
    {
        self.input_text = text;
    }

    /// Scripts the raw code a question dialog reports for the pressed
    /// button.
    pub fn set_reply_code(&mut self, code: u32)
        requires
            old(self).wf(),
        ensures
            final(self).wf(),
            final(self).reply_code == code,
            final(self).initialized == old(self).initialized,
            final(self).app_name == old(self).app_name,
            same_handles(*old(self), *final(self)),
            final(self).create_failure == old(self).create_failure,
            final(self).file_selection == old(self).file_selection,
            final(self).input_text == old(self).input_text,
    {
        self.reply_code = code;
    }
}

/// The position of `h` in `v`, which must hold it.
fn index_of_handle(v: &Vec<u64>, h: u64) -> (i: usize)
    requires
        v@.contains(h),
    ensures
        i < v@.len(),
        v@[i as int] == h,
{
    let n: usize = v.len();
    let mut i: usize = 0;
    while i < n
        invariant
            i <= n,
            n == v@.len(),
            forall|j: int| 0 <= j < i ==> v@[j] != h,
            v@.contains(h),
        decreases n - i,
    {
        if v[i] == h {
            return i;
        }
        i = i + 1;
    }
    proof {
        let k = choose|k: int| 0 <= k < v@.len() && v@[k] == h;
        assert(v@[k] != h);
    }
    0
}

/// Law: creating a handle and then releasing that same handle restores
/// both the live set and the alloc/free balance, whatever else already
/// lived in the layer.  Paired with `free_step`'s one-per-call counting,
/// this is the model's statement that a construct-then-release pair
/// neither leaks nor double-frees.
pub proof fn lemma_create_then_free_balanced(
    pre: NativeLayer,
    mid: NativeLayer,
    post: NativeLayer,
    h: u64,
)
    requires
        create_step(pre, mid, h),
        free_step(mid, post, h),
    ensures
        post.allocs - post.frees == pre.allocs - pre.frees,
        post.live@ == pre.live@,
{
    let i = choose|i: int|
        0 <= i < mid.live@.len() && mid.live@[i] == h && post.live@ == mid.live@.remove(i);
    if i < pre.live@.len() {
        assert(mid.live@[i] == pre.live@[i]);
        assert(pre.live@.contains(h));
    }
    assert(i == pre.live@.len());
    assert(post.live@ =~= pre.live@);
}

/// Law: a release removes the handle from the live set entirely, so no
/// second release of the same handle can ever satisfy the release
/// precondition again.
pub proof fn lemma_no_second_release(pre: NativeLayer, post: NativeLayer, h: u64)
    requires
        pre.wf(),
        free_step(pre, post, h),
    ensures
        !post.live@.contains(h),
{
    let i = choose|i: int|
        0 <= i < pre.live@.len() && pre.live@[i] == h && post.live@ == pre.live@.remove(i);
    assert forall|k: int| 0 <= k < post.live@.len() implies post.live@[k] != h by {
        if k < i {
            assert(post.live@[k] == pre.live@[k]);
        } else {
            assert(post.live@[k] == pre.live@[k + 1]);
        }
    }
}

} // verus!
