//! The string bridge between host text and the native layer's
//! null-terminated heap strings.
//!
//! A [`DynamicString`] models the native dynamic string type: a
//! heap-allocated, null-terminated buffer owned by the native layer,
//! mirrored by a host copy so that reads need no further native calls.
//! Host text is handled as its UTF-8 bytes; text with an interior nul
//! byte can never cross to the native side and is rejected with a typed
//! error instead of being truncated.

use vstd::prelude::*;

use crate::error::Error;
use crate::util::{
    clone_bytes, contains_nul, first_nul_index, has_nul_byte, lemma_first_nul_index, strlen,
};

verus! {

/// A host-side string paired with the null-terminated buffer the native
/// side reads.  The two always agree: the buffer is the host text followed
/// by exactly one nul byte.
#[derive(Debug)]
pub struct DynamicString {
    native: Vec<u8>,
    this: Vec<u8>,
}

impl View for DynamicString {
    type V = Seq<u8>;

    closed spec fn view(&self) -> Seq<u8> {
        self.this@
    }
}

impl DynamicString {
    /// The native buffer mirrors the host copy, terminated by one nul.
    pub closed spec fn wf(self) -> bool {
        &&& !contains_nul(self.this@)
        &&& self.native@ == self.this@.push(0u8)
    }

    /// Create a new string from optional UTF-8 data.
    ///
    /// `None` stands for handing the native side a null pointer, which it
    /// documents as producing an empty string.  Data with an interior nul
    /// byte cannot become a C string and is rejected.
    pub fn new(data: Option<Vec<u8>>) -> (r: Result<DynamicString, Error>)
        ensures
            match data {
                Some(bytes) => {
                    if contains_nul(bytes@) {
                        r == Err::<DynamicString, Error>(Error::EmbeddedNull)
                    } else {
                        r matches Ok(s) && s.wf() && s@ == bytes@
                    }
                },
                None => r matches Ok(s) && s.wf() && s@ == Seq::<u8>::empty(),
            },
    {
        match data {
            Some(bytes) => {
                if has_nul_byte(&bytes) {
                    Err(Error::EmbeddedNull)
                } else {
                    let mut native = clone_bytes(&bytes);
                    native.push(0);
                    Ok(DynamicString { native, this: bytes })
                }
            },
            None => {
                let mut native: Vec<u8> = Vec::new();
                native.push(0);
                Ok(DynamicString { native, this: Vec::new() })
            },
        }
    }

    /// Borrow of the buffer the native side would read: the text followed
    /// by its terminating nul.
    pub fn as_ptr(&self) -> (r: &Vec<u8>)
        requires
            self.wf(),
        ensures
            r@ == self@.push(0u8),
            contains_nul(r@),
    {
        proof {
            assert(self.native@[self.this@.len() as int] == 0);
        }
        &self.native
    }

    /// A deep copy: a fresh native buffer with the same text.
    pub fn duplicate(&self) -> (r: DynamicString)
        requires
            self.wf(),
        ensures
            r.wf(),
            r@ == self@,
    {
        DynamicString { native: clone_bytes(&self.native), this: clone_bytes(&self.this) }
    }

    /// The host mirror of the text, with no further native call.
    pub fn as_str(&self) -> (r: &Vec<u8>)
        ensures
            r@ == self@,
    {
        &self.this
    }

    /// Reads a native C buffer back into a string: the text is everything
    /// before the first nul byte, located with `strlen`.
    pub fn from_native(buf: &Vec<u8>) -> (r: DynamicString)
        requires
            contains_nul(buf@),
        ensures
            r.wf(),
            r@ == buf@.take(first_nul_index(buf@)),
    {
        let len = strlen(buf);
        let mut this: Vec<u8> = Vec::new();
        let mut i: usize = 0;
        while i < len
            invariant
                i <= len,
                len < buf@.len(),
                this@ == buf@.take(i as int),
            decreases len - i,
        {
            this.push(buf[i]);
            i = i + 1;
            proof {
                assert(this@ =~= buf@.take(i as int));
            }
        }
        let mut native = clone_bytes(&this);
        native.push(0);
        proof {
            assert(!contains_nul(this@));
        }
        DynamicString { native, this }
    }
}

impl Clone for DynamicString {
    /// A deep copy, exactly as `duplicate` makes one.
    fn clone(&self) -> (r: Self)
        ensures
            r@ == self@,
            self.wf() ==> r.wf(),
    {
        DynamicString { native: clone_bytes(&self.native), this: clone_bytes(&self.this) }
    }
}

/// Law: host text free of interior nul bytes survives the round trip into
/// a null-terminated C buffer and back.  Encoding appends one nul; decoding
/// takes everything before the first nul; the result is the original text.
pub proof fn lemma_c_string_round_trip(s: Seq<u8>)
    requires
        !contains_nul(s),
    ensures
        contains_nul(s.push(0u8)),
        first_nul_index(s.push(0u8)) == s.len(),
        s.push(0u8).take(first_nul_index(s.push(0u8))) == s,
{
    let b = s.push(0u8);
    assert(b[s.len() as int] == 0);
    lemma_first_nul_index(b);
    let f = first_nul_index(b);
    if f < s.len() {
        assert(b[f] == s[f]);
    }
    assert(f == s.len());
    assert(b.take(f) =~= s);
}

} // verus!
