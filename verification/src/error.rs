//! The failures that end an acquisition.

use vstd::prelude::*;

verus! {

/// Why an acquisition was given up. Each kind is fatal: nothing is retried
/// and no partial result is kept.
#[derive(Clone, Copy, Debug, PartialEq, Eq, Structural)]
pub enum AcquisitionError {
    /// Neither the track nor any of its alternatives is available.
    TrackUnavailable,
    /// The working track has no variant in a format of the preference order.
    FormatUnsupported,
    /// The decryption key could not be had.
    KeyRequestFailed,
    /// The encoded stream could not be opened.
    StreamOpenFailed,
    /// The encoded stream broke off before it was read to its end.
    DecryptionFailed,
    /// The transcoder could not be started or did not exit cleanly.
    TranscodeProcessFailed,
}

} // verus!
