//! From the descriptor of the selected track to the tag container: what is
//! written of the track, whether a cover is fetched, and what becomes of the
//! fetch.

use crate::tag::{
    frames_of, id3_bytes, tag_len, write_tag, CoverArt, CoverArtView, TrackMetadata,
    TrackMetadataView, SIZE_LIMIT,
};
use vstd::prelude::*;
use vstd::string::StringExecFns;

verus! {

/// What the catalog says of the selected track, as far as the tag needs it.
#[derive(Clone, Debug, PartialEq, Eq)]
pub struct TrackDescriptor {
    pub title: String,
    /// Names of the artists, in the order of the catalog.
    pub artists: Vec<String>,
    pub album: String,
    /// Addresses of the cover images, the preferred one first.
    pub images: Vec<String>,
}

/// The texts that a list of strings holds.
pub open spec fn texts(strings: Seq<String>) -> Seq<Seq<char>> {
    strings.map_values(|s: String| s@)
}

/// The parts in order, with the separator between each two of them.
pub open spec fn joined(parts: Seq<Seq<char>>, separator: Seq<char>) -> Seq<char>
    decreases parts.len(),
{
    if parts.len() == 0 {
        Seq::empty()
    } else if parts.len() == 1 {
        parts[0]
    } else {
        joined(parts.drop_last(), separator) + separator + parts.last()
    }
}

/// The artist line of a track: the names, separated by a comma and a space.
pub open spec fn artist_line(artists: Seq<String>) -> Seq<char> {
    joined(texts(artists), ", "@)
}

/// Joins the names of the artists into one line.
pub fn stringify_artists(artists: &Vec<String>) -> (line: String)
    ensures
        line@ == artist_line(artists@),
{
    let mut line = String::new();
    let mut i: usize = 0;
    while i < artists.len()
        invariant
            i <= artists.len(),
            line@ == joined(texts(artists@).take(i as int), ", "@),
        decreases artists.len() - i,
    {
        if i > 0 {
            line.append(", ");
        }
        line.append(artists[i].as_str());
        proof {
            let done = texts(artists@).take(i as int + 1);
            assert(done.drop_last() =~= texts(artists@).take(i as int));
            assert(done.last() == artists@[i as int]@);
        }
        i += 1;
    }
    proof {
        assert(texts(artists@).take(i as int) =~= texts(artists@));
    }
    line
}

/// The address from which the cover is fetched: that of the first image,
/// where the track has any. One fetch is made, of this address alone.
pub fn cover_request(track: &TrackDescriptor) -> (address: Option<&String>)
    ensures
        track.images@.len() == 0 ==> address is None,
        track.images@.len() > 0 ==> address == Some(&track.images@[0]),
{
    if track.images.len() > 0 {
        Some(&track.images[0])
    } else {
        None
    }
}

/// How the one fetch of the cover ended.
#[derive(Clone, Debug, PartialEq, Eq)]
pub enum CoverFetch {
    /// The server answered.
    Response {
        status: u16,
        /// The content type that the answer declares, if it declares one.
        content_type: Option<String>,
        body: Vec<u8>,
    },
    /// No answer came.
    TransportFailed,
}

/// Why the file goes without a cover. Not fatal: the tag is written all the
/// same, and this is handed back for a diagnostic.
#[derive(Clone, Copy, Debug, PartialEq, Eq, Structural)]
pub enum CoverArtFetchFailed {
    /// The server answered with a status other than 200.
    Status(u16),
    /// No answer came.
    Transport,
}

/// The status with which an image is served.
pub const STATUS_OK: u16 = 200;

/// The cover that a fetch yields: the body of an answer with status 200,
/// under the content type that the answer declares, or `image/jpeg` where it
/// declares none.
pub open spec fn cover_of(fetch: CoverFetch) -> Result<CoverArtView, CoverArtFetchFailed> {
    match fetch {
        CoverFetch::Response { status, content_type, body } => if status == STATUS_OK {
            Ok(
                CoverArtView {
                    mime: match content_type {
                        Some(declared) => declared@,
                        None => "image/jpeg"@,
                    },
                    data: body@,
                },
            )
        } else {
            Err(CoverArtFetchFailed::Status(status))
        },
        CoverFetch::TransportFailed => Err(CoverArtFetchFailed::Transport),
    }
}

/// Turns the outcome of the fetch into the cover to embed, or into the
/// reason for which there is none.
pub fn cover_art(fetch: CoverFetch) -> (result: Result<CoverArt, CoverArtFetchFailed>)
    ensures
        match result {
            Ok(cover) => cover_of(fetch) == Ok::<CoverArtView, CoverArtFetchFailed>(cover@),
            Err(reason) => cover_of(fetch) == Err::<CoverArtView, CoverArtFetchFailed>(reason),
        },
{
    match fetch {
        CoverFetch::Response { status, content_type, body } => {
            if status == STATUS_OK {
                let mime = match content_type {
                    Some(declared) => declared,
                    None => "image/jpeg".to_owned(),
                };
                Ok(CoverArt { mime, data: body })
            } else {
                Err(CoverArtFetchFailed::Status(status))
            }
        },
        CoverFetch::TransportFailed => Err(CoverArtFetchFailed::Transport),
    }
}

/// What the fetch comes to for a track: nothing where the track has no
/// image or no fetch was made, else the cover or the reason for its absence.
pub open spec fn fetched_cover(track: TrackDescriptor, fetch: Option<CoverFetch>) -> Option<
    Result<CoverArtView, CoverArtFetchFailed>,
> {
    match fetch {
        Some(outcome) if track.images@.len() > 0 => Some(cover_of(outcome)),
        _ => None,
    }
}

/// The tags of a track: title and album as the catalog has them, letter for
/// letter; the artists in one line; the cover where the fetch yielded one.
pub open spec fn metadata_of(track: TrackDescriptor, fetch: Option<CoverFetch>) -> TrackMetadataView {
    TrackMetadataView {
        title: track.title@,
        artist: artist_line(track.artists@),
        album: track.album@,
        cover: match fetched_cover(track, fetch) {
            Some(Ok(cover)) => Some(cover),
            _ => None,
        },
    }
}

/// The reason, if any, for which a cover that was asked for is missing.
pub open spec fn diagnostic_of(track: TrackDescriptor, fetch: Option<CoverFetch>) -> Option<
    CoverArtFetchFailed,
> {
    match fetched_cover(track, fetch) {
        Some(Err(reason)) => Some(reason),
        _ => None,
    }
}

/// Collects the tags of a track from its descriptor and from the outcome of
/// the fetch of its cover. A failed fetch leaves the tags without a cover
/// and is reported beside them.
pub fn describe(track: &TrackDescriptor, fetch: Option<CoverFetch>) -> (described: (
    TrackMetadata,
    Option<CoverArtFetchFailed>,
))
    ensures
        described.0@ == metadata_of(*track, fetch),
        described.1 == diagnostic_of(*track, fetch),
{
    let mut cover: Option<CoverArt> = None;
    let mut diagnostic: Option<CoverArtFetchFailed> = None;
    if track.images.len() > 0 {
        match fetch {
            Some(outcome) => match cover_art(outcome) {
                Ok(art) => {
                    cover = Some(art);
                },
                Err(reason) => {
                    diagnostic = Some(reason);
                },
            },
            None => {},
        }
    }
    let metadata = TrackMetadata {
        title: track.title.clone(),
        artist: stringify_artists(&track.artists),
        album: track.album.clone(),
        cover,
    };
    (metadata, diagnostic)
}

/// The tag container of a track and, where a cover was asked for and not
/// had, the reason.
#[derive(Debug, PartialEq, Eq)]
pub struct Embedded {
    pub bytes: Vec<u8>,
    pub diagnostic: Option<CoverArtFetchFailed>,
}

/// Builds the tag container of a track from its descriptor and from the
/// outcome of the fetch of its cover.
pub fn get_metadata(track: &TrackDescriptor, fetch: Option<CoverFetch>) -> (embedded: Embedded)
    requires
        tag_len(metadata_of(*track, fetch)) < SIZE_LIMIT,
    ensures
        embedded.bytes@ == id3_bytes(
            frames_of(metadata_of(*track, fetch)),
            id3::Version::Id3v24,
        ),
        embedded.diagnostic == diagnostic_of(*track, fetch),
{
    let (metadata, diagnostic) = describe(track, fetch);
    Embedded { bytes: write_tag(&metadata), diagnostic }
}

/// A track without images gets a tag without a picture, whatever a fetch
/// may have brought; so does a track whose fetch did not end with status
/// 200. Title, artist and album are written in either case.
pub proof fn no_cover_without_image_or_success(track: TrackDescriptor, fetch: Option<CoverFetch>)
    requires
        track.images@.len() == 0 || fetch is None || cover_of(fetch.unwrap()) is Err,
    ensures
        metadata_of(track, fetch).cover is None,
        frames_of(metadata_of(track, fetch)) == seq![
            crate::tag::Frame::Text { id: "TIT2"@, text: track.title@ },
            crate::tag::Frame::Text { id: "TPE1"@, text: artist_line(track.artists@) },
            crate::tag::Frame::Text { id: "TALB"@, text: track.album@ },
        ],
{
}

} // verus!
