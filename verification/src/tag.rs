//! The tag container that precedes the audio in the final file: which
//! frames it holds for a track, and its serialisation by the `id3` crate.

use vstd::prelude::*;
use vstd::utf8::encode_utf8;

verus! {

/// `id3::Tag`, handed on as it is. What a tag holds is told by
/// [`tag_frames`].
#[verifier::external_type_specification]
#[verifier::external_body]
pub struct ExTag(id3::Tag);

/// `id3::frame::Picture`, with its four public fields.
#[verifier::external_type_specification]
pub struct ExPicture(id3::frame::Picture);

/// `id3::frame::PictureType`, with its variants.
#[verifier::external_type_specification]
pub struct ExPictureType(id3::frame::PictureType);

/// `id3::Version`, with its variants.
#[verifier::external_type_specification]
pub struct ExVersion(id3::Version);

/// One frame of a tag. Text and picture frames are what this library
/// writes; of a frame of any other sort it says only that it is there.
pub enum Frame {
    /// A text frame under a four-letter id, without flags.
    Text { id: Seq<char>, text: Seq<char> },
    /// A picture frame under the id `APIC`, without flags.
    Picture {
        mime: Seq<char>,
        kind: id3::frame::PictureType,
        description: Seq<char>,
        data: Seq<u8>,
    },
    /// Any other frame.
    Other,
}

/// The frames that an `id3::Tag` holds, in the order in which it writes them.
pub uninterp spec fn tag_frames(tag: id3::Tag) -> Seq<Frame>;

/// The bytes that `id3::Tag::write_to` writes for a tag of these frames in
/// the given version of the format.
pub uninterp spec fn id3_bytes(frames: Seq<Frame>, version: id3::Version) -> Seq<u8>;

/// Largest size, exclusive, that the size fields of the format can express.
pub const SIZE_LIMIT: usize = 0x1000_0000;

/// Whether no frame is of a sort that this library does not write.
pub open spec fn known(frames: Seq<Frame>) -> bool {
    forall|i: int| 0 <= i < frames.len() ==> !((#[trigger] frames[i]) is Other)
}

/// Whether some frame is a text frame of the given id.
pub open spec fn has_text(frames: Seq<Frame>, id: Seq<char>) -> bool {
    exists|i: int|
        0 <= i < frames.len() && (#[trigger] frames[i]) is Text && frames[i]->Text_id == id
}

/// Whether some frame is a picture of the given kind.
pub open spec fn has_picture(frames: Seq<Frame>, kind: id3::frame::PictureType) -> bool {
    exists|i: int|
        0 <= i < frames.len() && (#[trigger] frames[i]) is Picture && frames[i]->kind == kind
}

/// Bytes that a frame takes in an ID3v2.4 tag: ten of header, one for the
/// text encoding, and the UTF-8 text; for a picture also the terminators of
/// MIME type and description, the kind, and the image.
pub open spec fn frame_len(frame: Frame) -> nat {
    match frame {
        Frame::Text { id, text } => 11 + encode_utf8(text).len(),
        Frame::Picture { mime, kind, description, data } => 14 + encode_utf8(mime).len()
            + encode_utf8(description).len() + data.len(),
        Frame::Other => 0,
    }
}

/// Bytes that the frames take together.
pub open spec fn frames_len(frames: Seq<Frame>) -> nat
    decreases frames.len(),
{
    if frames.len() == 0 {
        0
    } else {
        frames_len(frames.drop_last()) + frame_len(frames.last())
    }
}

/// `id3::Tag::new`: a tag without frames.
pub assume_specification<'a>[ id3::Tag::new ]() -> (tag: id3::Tag)
    ensures
        tag_frames(tag) == Seq::<Frame>::empty(),
;

/// `id3::Tag::set_title`: the title becomes the text frame `TIT2`. On a tag
/// that has no such frame yet, the frame is added behind the others.
#[verifier::external_body]
fn set_title(tag: &mut id3::Tag, title: &str)
    requires
        known(tag_frames(*old(tag))),
        !has_text(tag_frames(*old(tag)), "TIT2"@),
    ensures
        tag_frames(*final(tag)) == tag_frames(*old(tag)).push(
            Frame::Text { id: "TIT2"@, text: title@ },
        ),
{
    tag.set_title(title);
}

/// `id3::Tag::set_artist`: the artist becomes the text frame `TPE1`. On a
/// tag that has no such frame yet, the frame is added behind the others.
#[verifier::external_body]
fn set_artist(tag: &mut id3::Tag, artist: &str)
    requires
        known(tag_frames(*old(tag))),
        !has_text(tag_frames(*old(tag)), "TPE1"@),
    ensures
        tag_frames(*final(tag)) == tag_frames(*old(tag)).push(
            Frame::Text { id: "TPE1"@, text: artist@ },
        ),
{
    tag.set_artist(artist);
}

/// `id3::Tag::set_album`: the album becomes the text frame `TALB`. On a tag
/// that has no such frame yet, the frame is added behind the others.
#[verifier::external_body]
fn set_album(tag: &mut id3::Tag, album: &str)
    requires
        known(tag_frames(*old(tag))),
        !has_text(tag_frames(*old(tag)), "TALB"@),
    ensures
        tag_frames(*final(tag)) == tag_frames(*old(tag)).push(
            Frame::Text { id: "TALB"@, text: album@ },
        ),
{
    tag.set_album(album);
}

/// `id3::Tag::add_picture`: on a tag that has no picture of the same kind
/// and no text frame under the id `APIC`, the picture is added behind the
/// other frames.
pub assume_specification<'a>[ id3::Tag::add_picture ](
    tag: &mut id3::Tag,
    picture: id3::frame::Picture,
)
    requires
        known(tag_frames(*old(tag))),
        !has_text(tag_frames(*old(tag)), "APIC"@),
        !has_picture(tag_frames(*old(tag)), picture.picture_type),
    ensures
        tag_frames(*final(tag)) == tag_frames(*old(tag)).push(
            Frame::Picture {
                mime: picture.mime_type@,
                kind: picture.picture_type,
                description: picture.description@,
                data: picture.data@,
            },
        ),
;

/// `id3::Tag::write_to` into a byte vector, for ID3v2.4. That version has
/// an encoding for every text and picture frame, and a vector takes every
/// write, so the call succeeds where the frames fit the size fields.
#[verifier::external_body]
fn write_to(tag: &id3::Tag, version: id3::Version) -> (bytes: Vec<u8>)
    requires
        version == id3::Version::Id3v24,
        known(tag_frames(*tag)),
        frames_len(tag_frames(*tag)) < SIZE_LIMIT,
    ensures
        bytes@ == id3_bytes(tag_frames(*tag), version),
{
    let mut bytes = Vec::new();
    tag.write_to(&mut bytes, version).unwrap();
    bytes
}

/// An image to embed, with the media type that it was served under.
#[derive(Clone, Debug, PartialEq, Eq)]
pub struct CoverArt {
    pub mime: String,
    pub data: Vec<u8>,
}

/// The descriptive tags of the output file.
#[derive(Clone, Debug, PartialEq, Eq)]
pub struct TrackMetadata {
    pub title: String,
    pub artist: String,
    pub album: String,
    pub cover: Option<CoverArt>,
}

/// What a [`CoverArt`] stands for.
pub struct CoverArtView {
    pub mime: Seq<char>,
    pub data: Seq<u8>,
}

/// What a [`TrackMetadata`] stands for.
pub struct TrackMetadataView {
    pub title: Seq<char>,
    pub artist: Seq<char>,
    pub album: Seq<char>,
    pub cover: Option<CoverArtView>,
}

impl View for CoverArt {
    type V = CoverArtView;

    open spec fn view(&self) -> CoverArtView {
        CoverArtView { mime: self.mime@, data: self.data@ }
    }
}

impl View for TrackMetadata {
    type V = TrackMetadataView;

    open spec fn view(&self) -> TrackMetadataView {
        TrackMetadataView {
            title: self.title@,
            artist: self.artist@,
            album: self.album@,
            cover: match self.cover {
                Some(cover) => Some(cover@),
                None => None,
            },
        }
    }
}

/// Description under which the cover is embedded.
pub open spec fn cover_description() -> Seq<char> {
    "Cover"@
}

/// The frames of the tag of a track: title, artist and album as text, then
/// the cover, where there is one, as a single front cover picture.
pub open spec fn frames_of(metadata: TrackMetadataView) -> Seq<Frame> {
    let texts = seq![
        Frame::Text { id: "TIT2"@, text: metadata.title },
        Frame::Text { id: "TPE1"@, text: metadata.artist },
        Frame::Text { id: "TALB"@, text: metadata.album },
    ];
    match metadata.cover {
        Some(cover) => texts.push(
            Frame::Picture {
                mime: cover.mime,
                kind: id3::frame::PictureType::CoverFront,
                description: cover_description(),
                data: cover.data,
            },
        ),
        None => texts,
    }
}

/// Bytes that the frames of the tag of a track take together.
pub open spec fn tag_len(metadata: TrackMetadataView) -> nat {
    33 + encode_utf8(metadata.title).len() + encode_utf8(metadata.artist).len() + encode_utf8(
        metadata.album,
    ).len() + match metadata.cover {
        Some(cover) => 14 + encode_utf8(cover.mime).len() + encode_utf8(cover_description()).len()
            + cover.data.len(),
        None => 0,
    }
}

/// The length of the frames of a track's tag, summed frame by frame.
pub proof fn tag_len_is_frames_len(metadata: TrackMetadataView)
    ensures
        frames_len(frames_of(metadata)) == tag_len(metadata),
{
    let title = Frame::Text { id: "TIT2"@, text: metadata.title };
    let artist = Frame::Text { id: "TPE1"@, text: metadata.artist };
    let album = Frame::Text { id: "TALB"@, text: metadata.album };
    let none = Seq::<Frame>::empty();
    assert(none.push(title).drop_last() =~= none);
    assert(none.push(title).push(artist).drop_last() =~= none.push(title));
    assert(none.push(title).push(artist).push(album).drop_last() =~= none.push(title).push(artist));
    let texts = none.push(title).push(artist).push(album);
    assert(texts =~= seq![title, artist, album]);
    assert(frames_len(none) == 0);
    assert(frames_len(none.push(title)) == frame_len(title));
    assert(frames_len(none.push(title).push(artist)) == frame_len(title) + frame_len(artist));
    assert(frames_len(texts) == frame_len(title) + frame_len(artist) + frame_len(album));
    match metadata.cover {
        Some(cover) => {
            let picture = Frame::Picture {
                mime: cover.mime,
                kind: id3::frame::PictureType::CoverFront,
                description: cover_description(),
                data: cover.data,
            };
            assert(texts.push(picture).drop_last() =~= texts);
        },
        None => {},
    }
}

/// Whether the tag of a track fits the size fields of the format.
pub fn fits(metadata: &TrackMetadata) -> (fitting: bool)
    ensures
        fitting == (tag_len(metadata@) < SIZE_LIMIT),
{
    let mut total: u128 = 33;
    total = total + metadata.title.as_str().as_bytes().len() as u128;
    total = total + metadata.artist.as_str().as_bytes().len() as u128;
    total = total + metadata.album.as_str().as_bytes().len() as u128;
    match &metadata.cover {
        Some(cover) => {
            total = total + 14;
            total = total + cover.mime.as_str().as_bytes().len() as u128;
            total = total + "Cover".as_bytes().len() as u128;
            total = total + cover.data.len() as u128;
        },
        None => {},
    }
    total < SIZE_LIMIT as u128
}

/// The ids of the frames that are written differ from each other.
proof fn ids_differ()
    ensures
        "TIT2"@ != "TPE1"@,
        "TIT2"@ != "TALB"@,
        "TIT2"@ != "APIC"@,
        "TPE1"@ != "TALB"@,
        "TPE1"@ != "APIC"@,
        "TALB"@ != "APIC"@,
{
    reveal_strlit("TIT2");
    reveal_strlit("TPE1");
    reveal_strlit("TALB");
    reveal_strlit("APIC");
    assert("TIT2"@[0] == 'T' && "TIT2"@[1] == 'I');
    assert("TPE1"@[0] == 'T' && "TPE1"@[1] == 'P');
    assert("TALB"@[0] == 'T' && "TALB"@[1] == 'A');
    assert("APIC"@[0] == 'A');
}

/// Serialises the tag of a track as ID3v2.4.
pub fn write_tag(metadata: &TrackMetadata) -> (bytes: Vec<u8>)
    requires
        tag_len(metadata@) < SIZE_LIMIT,
    ensures
        bytes@ == id3_bytes(frames_of(metadata@), id3::Version::Id3v24),
{
    proof {
        ids_differ();
        tag_len_is_frames_len(metadata@);
    }
    let mut tag = id3::Tag::new();
    set_title(&mut tag, metadata.title.as_str());
    set_artist(&mut tag, metadata.artist.as_str());
    set_album(&mut tag, metadata.album.as_str());
    assert(tag_frames(tag) =~= seq![
        Frame::Text { id: "TIT2"@, text: metadata.title@ },
        Frame::Text { id: "TPE1"@, text: metadata.artist@ },
        Frame::Text { id: "TALB"@, text: metadata.album@ },
    ]);
    match &metadata.cover {
        Some(cover) => {
            let picture = id3::frame::Picture {
                mime_type: cover.mime.clone(),
                picture_type: id3::frame::PictureType::CoverFront,
                description: "Cover".to_owned(),
                data: cover.data.clone(),
            };
            tag.add_picture(picture);
        },
        None => {},
    }
    assert(tag_frames(tag) =~= frames_of(metadata@));
    write_to(&tag, id3::Version::Id3v24)
}

} // verus!
