//! Error taxonomy of the broker core.  Every failure is routed through the
//! single response constructor, which stamps a numeric code, a UTF-8 error
//! body, the kind, and the originating site name.

use vstd::prelude::*;

verus! {

/// Numeric code stamped on broker or cache transport failures.
pub const STORAGE_IO_ERROR_CODE: u16 = 0xFF4;

/// Numeric code stamped on JSON or hex codec failures.
pub const CODEC_ERROR_CODE: u16 = 0xFF5;

/// Numeric code stamped on secure-cell cipher failures.
pub const CRYPTER_ERROR_CODE: u16 = 0xFF6;

/// Numeric code stamped on downstream mailbox failures.
pub const MAILBOX_CHANNEL_ERROR_CODE: u16 = 0xFF7;

/// What went wrong, by kind.
#[derive(Clone, Copy, Debug, PartialEq, Eq, Structural)]
pub enum ErrorKind {
    /// Broker or cache connection/operation failure; terminal for the task.
    Transport,
    /// JSON or hex decode failure; terminal for the task.
    Codec,
    /// Encrypt/decrypt failure; producer falls back to plaintext, consumer
    /// terminates.
    Cipher,
    /// Delivered ciphertext does not match the cached ciphertext; terminal.
    Protocol,
    /// Downstream actor send failure; logged, non-terminal.
    Mailbox,
    /// Cached cipher config disagrees with the caller's keys; terminal
    /// before any broker interaction.
    ConfigMismatch,
}

/// The single error record every failure is routed through.
#[derive(Clone, Debug, PartialEq)]
pub struct HoopoeErrorResponse {
    pub code: u16,
    pub content: Vec<u8>,
    pub kind: ErrorKind,
    pub method: String,
}

impl HoopoeErrorResponse {
    /// Builds the error record; nothing is discarded silently.
    pub fn new(code: u16, content: Vec<u8>, kind: ErrorKind, method: String) -> (r: Self)
        ensures
            r.code == code,
            r.content@ == content@,
            r.kind == kind,
            r.method@ == method@,
    {
        HoopoeErrorResponse { code, content, kind, method }
    }
}

} // verus!
