//! The library's error type, native status checks and C-string preparation.

use vstd::prelude::*;
use crate::strings::{hex, push_hex};
use crate::sys::HIK_OK;
use vstd::string::StringSliceAdditionalSpecFns;

verus! {

/// Error produced by the safe layer before or during an MVS operation.
#[derive(Debug, Clone)]
pub enum Error {
    /// An error code returned by the native wrapper or the MVS SDK.
    Sdk {
        /// Raw signed wrapper or MVS status code.
        code: i32,
        /// Operation-specific diagnostic taken from the native thread-local error buffer.
        message: String,
    },
    /// A string could not be passed through the C ABI because it contains a NUL byte.
    InteriorNul {
        /// Logical argument name containing the invalid byte.
        field: &'static str,
    },
}

/// Result type returned by the fallible operations of this library.
pub type Result<T> = core::result::Result<T, Error>;

/// The message used when the native layer reports a failure without a diagnostic.
pub open spec fn unknown_error_text() -> Seq<char> {
    "unknown error"@
}

/// The human-readable text of an error.
pub open spec fn error_text(e: Error) -> Seq<char> {
    match e {
        Error::Sdk { code, message } =>
            message@ + " (MVS/wrapper code 0x"@ + hex((code as u32) as nat, 8) + ")"@,
        Error::InteriorNul { field } => field@ + " contains an interior NUL byte"@,
    }
}

impl Error {
    /// Renders the error as text, for example `device busy (MVS/wrapper code 0x80000003)`.
    ///
    /// The status code is shown as its 32-bit two's-complement pattern in eight upper-case
    /// hexadecimal digits.
    pub fn to_string(&self) -> (s: String)
        ensures
            s@ == error_text(*self),
    {
        let mut s = String::new();
        match self {
            Error::Sdk { code, message } => {
                s.append(message.as_str());
                s.append(" (MVS/wrapper code 0x");
                push_hex(&mut s, *code as u32, 8);
                s.append(")");
            },
            Error::InteriorNul { field } => {
                s.append(*field);
                s.append(" contains an interior NUL byte");
            },
        }
        s
    }
}

/// Turns a native status code into a result.
///
/// `HIK_OK` is success. Any other code is an [`Error::Sdk`] carrying that code and the
/// native diagnostic `last_error`, or `"unknown error"` when the native layer had none.
pub fn check(code: i32, last_error: Option<String>) -> (r: Result<()>)
    ensures
        r is Ok <==> code == HIK_OK,
        r matches Err(e) ==> (e matches Error::Sdk { code: c, message } && c == code
            && message@ == match last_error {
                Some(m) => m@,
                None => unknown_error_text(),
            }),
{
    if code == HIK_OK {
        return Ok(());
    }
    let message = match last_error {
        Some(m) => m,
        None => {
            let mut m = String::new();
            m.append("unknown error");
            m
        },
    };
    Err(Error::Sdk { code, message })
}

/// Prepares `value` for the C ABI: its UTF-8 bytes followed by a NUL terminator.
///
/// Fails with [`Error::InteriorNul`] naming `field` exactly when the text holds a NUL byte.
pub fn cstring(value: &str, field: &'static str) -> (r: Result<Vec<u8>>)
    ensures
        r is Err <==> value.spec_bytes().contains(0u8),
        r matches Ok(v) ==> v@ == value.spec_bytes().push(0u8),
        r matches Err(e) ==> e == (Error::InteriorNul { field }),
{
    let bytes = value.as_bytes();
    let mut out: Vec<u8> = Vec::new();
    let mut i: usize = 0;
    while i < bytes.len()
        invariant
            i <= bytes.len(),
            bytes@ == value.spec_bytes(),
            out@ == bytes@.take(i as int),
            forall|k: int| 0 <= k < i ==> bytes@[k] != 0,
        decreases bytes.len() - i,
    {
        if bytes[i] == 0 {
            assert(bytes@[i as int] == 0u8);
            return Err(Error::InteriorNul { field });
        }
        out.push(bytes[i]);
        i = i + 1;
        assert(out@ =~= bytes@.take(i as int));
    }
    assert(out@ =~= bytes@);
    out.push(0u8);
    Ok(out)
}

} // verus!
