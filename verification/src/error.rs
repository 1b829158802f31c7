//! The error taxonomy of the dialog layer.
//!
//! The native layer reports failures through a small closed set of integer
//! codes; [`Error::from`] translates such a code into a host-level variant
//! with a linear match and a defensive fallback.  Two further variants
//! ([`Error::EmbeddedNull`] and [`Error::InvalidEncoding`]) have no native
//! code: they describe host-side conversion failures found before a string
//! ever crosses to the native side.

use vstd::prelude::*;

verus! {

/// The main error type of the crate.
///
/// The first eleven variants mirror the native layer's error codes one for
/// one; the last two arise on the host side while converting text.
#[derive(Clone, Copy, Debug, PartialEq, Eq, Structural)]
pub enum Error {
    /// The native layer reported no error (code `0x0`).
    NoError,
    /// No display was found (code `0xff`).
    NoDisplay,
    /// A backend failure occurred (code `0x100`).
    BackendFailed,
    /// An invalid parameter was passed (code `0x101`).
    ParametersError,
    /// The library has not been initialized yet (code `0x102`).
    NotYetInitialized,
    /// An invalid backend was chosen (code `0x103`).
    InvalidBackend,
    /// A file was inaccessible (code `0x104`).
    InaccessibleFile,
    /// An empty string was passed (code `0x105`).
    EmptyString,
    /// The host has run out of memory (code `0x106`).
    OutOfMemory,
    /// An internal error of the native layer (code `0x107`).
    InternalError,
    /// The library was already initialized (code `0x108`).
    AlreadyInitialized,
    /// A supplied string holds an interior nul byte and cannot become a
    /// C string.  Host-side; no native code.
    EmbeddedNull,
    /// Bytes received from the native side are not valid UTF-8.
    /// Host-side; no native code.
    InvalidEncoding,
}

/// The native code of each error, as the C header assigns them.
/// The two host-side variants have no native code and map to `-1`.
pub open spec fn spec_error_code(e: Error) -> int {
    match e {
        Error::NoError => 0x0,
        Error::NoDisplay => 0xff,
        Error::BackendFailed => 0x100,
        Error::ParametersError => 0x101,
        Error::NotYetInitialized => 0x102,
        Error::InvalidBackend => 0x103,
        Error::InaccessibleFile => 0x104,
        Error::EmptyString => 0x105,
        Error::OutOfMemory => 0x106,
        Error::InternalError => 0x107,
        Error::AlreadyInitialized => 0x108,
        Error::EmbeddedNull => -1,
        Error::InvalidEncoding => -1,
    }
}

/// The variant a native code stands for.  A code outside the closed set
/// falls back to `NoError`: a match-or-default mapping whose default is
/// defensive, not a meaningful state.
pub open spec fn spec_error_from_code(code: int) -> Error {
    if code == 0x0 {
        Error::NoError
    } else if code == 0xff {
        Error::NoDisplay
    } else if code == 0x100 {
        Error::BackendFailed
    } else if code == 0x101 {
        Error::ParametersError
    } else if code == 0x102 {
        Error::NotYetInitialized
    } else if code == 0x103 {
        Error::InvalidBackend
    } else if code == 0x104 {
        Error::InaccessibleFile
    } else if code == 0x105 {
        Error::EmptyString
    } else if code == 0x106 {
        Error::OutOfMemory
    } else if code == 0x107 {
        Error::InternalError
    } else if code == 0x108 {
        Error::AlreadyInitialized
    } else {
        Error::NoError
    }
}

impl Error {
    /// The integer code of this error as the native layer assigns it,
    /// or `-1` for the host-side variants that have no native code.
    pub fn code(&self) -> (r: i32)
        ensures
            r == spec_error_code(*self),
    {
        match self {
            Error::NoError => 0x0,
            Error::NoDisplay => 0xff,
            Error::BackendFailed => 0x100,
            Error::ParametersError => 0x101,
            Error::NotYetInitialized => 0x102,
            Error::InvalidBackend => 0x103,
            Error::InaccessibleFile => 0x104,
            Error::EmptyString => 0x105,
            Error::OutOfMemory => 0x106,
            Error::InternalError => 0x107,
            Error::AlreadyInitialized => 0x108,
            Error::EmbeddedNull => -1,
            Error::InvalidEncoding => -1,
        }
    }

    /// A short human-readable description, in place of a `Display` impl.
    pub fn message(&self) -> (r: &'static str)
        ensures
            r@ == spec_error_message(*self),
    {
        match self {
            Error::NoError => "No error",
            Error::NoDisplay => "No display found",
            Error::BackendFailed => "Backend failure occured",
            Error::ParametersError => "Invalid parameter passed",
            Error::NotYetInitialized => "Library has not been initialized yet",
            Error::InvalidBackend => "Invalid backend chosen",
            Error::InaccessibleFile => "Inaccessible file",
            Error::EmptyString => "Empty string passed",
            Error::OutOfMemory => "Host has ran out of memory",
            Error::InternalError => "Internal NvDialog error",
            Error::AlreadyInitialized => "Already initialized NvDialog",
            Error::EmbeddedNull => "Embedded null byte in a supplied string",
            Error::InvalidEncoding => "Text is not valid UTF-8",
        }
    }
}

/// The description each variant prints.
pub open spec fn spec_error_message(e: Error) -> Seq<char> {
    match e {
        Error::NoError => "No error"@,
        Error::NoDisplay => "No display found"@,
        Error::BackendFailed => "Backend failure occured"@,
        Error::ParametersError => "Invalid parameter passed"@,
        Error::NotYetInitialized => "Library has not been initialized yet"@,
        Error::InvalidBackend => "Invalid backend chosen"@,
        Error::InaccessibleFile => "Inaccessible file"@,
        Error::EmptyString => "Empty string passed"@,
        Error::OutOfMemory => "Host has ran out of memory"@,
        Error::InternalError => "Internal NvDialog error"@,
        Error::AlreadyInitialized => "Already initialized NvDialog"@,
        Error::EmbeddedNull => "Embedded null byte in a supplied string"@,
        Error::InvalidEncoding => "Text is not valid UTF-8"@,
    }
}

impl From<i32> for Error {
    /// Translates a native error code; codes outside the closed set fall
    /// back to `NoError`.
    fn from(value: i32) -> (r: Error) {
        if value == 0x0 {
            Error::NoError
        } else if value == 0xff {
            Error::NoDisplay
        } else if value == 0x100 {
            Error::BackendFailed
        } else if value == 0x101 {
            Error::ParametersError
        } else if value == 0x102 {
            Error::NotYetInitialized
        } else if value == 0x103 {
            Error::InvalidBackend
        } else if value == 0x104 {
            Error::InaccessibleFile
        } else if value == 0x105 {
            Error::EmptyString
        } else if value == 0x106 {
            Error::OutOfMemory
        } else if value == 0x107 {
            Error::InternalError
        } else if value == 0x108 {
            Error::AlreadyInitialized
        } else {
            Error::NoError
        }
    }
}

impl vstd::std_specs::convert::FromSpecImpl<i32> for Error {
    open spec fn obeys_from_spec() -> bool {
        true
    }

    open spec fn from_spec(v: i32) -> Error {
        spec_error_from_code(v as int)
    }
}

/// Translating any error's own code back recovers the error itself, for
/// every variant that the native layer can actually report.
pub proof fn lemma_error_code_round_trip(e: Error)
    requires
        e != Error::EmbeddedNull,
        e != Error::InvalidEncoding,
    ensures
        spec_error_from_code(spec_error_code(e)) == e,
{
}

} // verus!
