//! From what was fetched to the media payload: the stream is decrypted with
//! the key of the chosen file, and the container header in front of the
//! media content is dropped.

use crate::error::AcquisitionError;
use librespot::audio::AudioDecrypt;
use vstd::prelude::*;

verus! {

/// Length in bytes of the container header that precedes the media content
/// in every decrypted stream.
pub const HEADER_LEN: usize = 0xA7;

/// The plain bytes that `AudioDecrypt` yields when the whole of `encrypted`
/// is read through it under `key`.
pub uninterp spec fn audio_decrypted(key: Seq<u8>, encrypted: Seq<u8>) -> Seq<u8>;

/// Reads `encrypted` to its end through a `librespot::audio::AudioDecrypt`
/// made with `key`. The reader deciphers in place what the source hands it,
/// so the result is as long as the input; the source is in memory, so the
/// read does not fail.
#[verifier::external_body]
fn decrypt_stream(key: &[u8; 16], encrypted: Vec<u8>) -> (decrypted: Vec<u8>)
    ensures
        decrypted@ == audio_decrypted(key@, encrypted@),
        decrypted@.len() == encrypted@.len(),
{
    let key = librespot::core::audio_key::AudioKey(*key);
    let mut reader = AudioDecrypt::new(key, std::io::Cursor::new(encrypted));
    let mut decrypted = Vec::new();
    std::io::Read::read_to_end(&mut reader, &mut decrypted).unwrap();
    decrypted
}

/// The media content of a decrypted stream: all that follows the header.
/// A stream that ends within the header has no content.
pub open spec fn media_content(decrypted: Seq<u8>) -> Seq<u8> {
    if decrypted.len() <= HEADER_LEN {
        Seq::empty()
    } else {
        decrypted.skip(HEADER_LEN as int)
    }
}

/// Drops the container header from a decrypted stream.
pub fn strip_header(decrypted: Vec<u8>) -> (payload: Vec<u8>)
    ensures
        payload@ == media_content(decrypted@),
{
    let mut decrypted = decrypted;
    if decrypted.len() <= HEADER_LEN {
        Vec::new()
    } else {
        decrypted.split_off(HEADER_LEN)
    }
}

/// Decrypts a fetched stream and drops its header. The header is dropped
/// from the decrypted bytes, not from the encrypted ones: each byte is
/// deciphered at the position that it has in the stream.
pub fn decrypt_payload(key: &[u8; 16], encrypted: Vec<u8>) -> (payload: Vec<u8>)
    ensures
        payload@ == media_content(audio_decrypted(key@, encrypted@)),
        payload@.len() == if encrypted@.len() <= HEADER_LEN {
            0
        } else {
            encrypted@.len() - HEADER_LEN
        },
{
    strip_header(decrypt_stream(key, encrypted))
}

/// What the fetch of the chosen file brought. The stream is opened, the
/// key is requested, and the stream is read to its end; the first of these
/// to fail ends the fetch.
#[derive(Clone, Debug, PartialEq, Eq)]
pub enum Fetched {
    /// The stream could not be opened.
    StreamOpenFailed,
    /// The key could not be had.
    KeyRequestFailed,
    /// The stream broke off before its end.
    ReadFailed,
    /// The key, and the stream read to its end.
    Complete { key: [u8; 16], encrypted: Vec<u8> },
}

/// The payload that a fetch yields, or the failure that it amounts to.
pub open spec fn outcome(fetched: Fetched) -> Result<Seq<u8>, AcquisitionError> {
    match fetched {
        Fetched::StreamOpenFailed => Err(AcquisitionError::StreamOpenFailed),
        Fetched::KeyRequestFailed => Err(AcquisitionError::KeyRequestFailed),
        Fetched::ReadFailed => Err(AcquisitionError::DecryptionFailed),
        Fetched::Complete { key, encrypted } => Ok(
            media_content(audio_decrypted(key@, encrypted@)),
        ),
    }
}

/// The media content is the decrypted stream less its first `HEADER_LEN`
/// bytes: nothing else is dropped, and nothing is changed.
pub proof fn content_follows_header(decrypted: Seq<u8>)
    requires
        decrypted.len() >= HEADER_LEN,
    ensures
        decrypted.take(HEADER_LEN as int) + media_content(decrypted) == decrypted,
        media_content(decrypted).len() == decrypted.len() - HEADER_LEN,
        forall|i: int|
            0 <= i < media_content(decrypted).len() ==> media_content(decrypted)[i]
                == decrypted[HEADER_LEN + i],
{
    assert(decrypted.take(HEADER_LEN as int) + media_content(decrypted) =~= decrypted);
}

} // verus!
