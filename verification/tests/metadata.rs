use id3::frame::PictureType;
use track_pipeline::metadata::cover_art;
use track_pipeline::metadata::cover_request;
use track_pipeline::metadata::describe;
use track_pipeline::metadata::get_metadata;
use track_pipeline::metadata::stringify_artists;
use track_pipeline::metadata::CoverArtFetchFailed;
use track_pipeline::metadata::CoverFetch;
use track_pipeline::metadata::TrackDescriptor;
use track_pipeline::tag::fits;
use track_pipeline::tag::write_tag;
use track_pipeline::tag::CoverArt;
use track_pipeline::tag::TrackMetadata;

fn names(list: &[&str]) -> Vec<String> {
    list.iter().map(|name| name.to_string()).collect()
}

fn example(images: &[&str]) -> TrackDescriptor {
    TrackDescriptor {
        title: "Example".to_string(),
        artists: names(&["A", "B"]),
        album: "Record".to_string(),
        images: names(images),
    }
}

fn answer(status: u16, content_type: Option<&str>, body: &[u8]) -> CoverFetch {
    CoverFetch::Response {
        status,
        content_type: content_type.map(|declared| declared.to_string()),
        body: body.to_vec(),
    }
}

fn read(bytes: &[u8]) -> id3::Tag {
    id3::Tag::read_from(bytes).unwrap()
}

#[test]
fn artists_are_joined_with_comma_and_space() {
    assert_eq!(stringify_artists(&names(&["A", "B"])), "A, B");
    assert_eq!(stringify_artists(&names(&["A", "B", "C"])), "A, B, C");
}

#[test]
fn single_artist_stands_alone() {
    assert_eq!(stringify_artists(&names(&["Solo"])), "Solo");
}

#[test]
fn no_artists_give_an_empty_line() {
    assert_eq!(stringify_artists(&Vec::new()), "");
}

#[test]
fn empty_names_still_get_their_separator() {
    assert_eq!(stringify_artists(&names(&["", ""])), ", ");
}

#[test]
fn cover_is_asked_for_at_the_first_image() {
    let track = example(&["http://img/large", "http://img/small"]);
    assert_eq!(cover_request(&track), Some(&"http://img/large".to_string()));
}

#[test]
fn no_cover_is_asked_for_without_images() {
    assert_eq!(cover_request(&example(&[])), None);
}

#[test]
fn answer_with_status_200_is_the_cover() {
    let cover = cover_art(answer(200, Some("image/png"), &[1, 2, 3]));
    assert_eq!(cover, Ok(CoverArt { mime: "image/png".to_string(), data: vec![1, 2, 3] }));
}

#[test]
fn cover_without_content_type_counts_as_jpeg() {
    let cover = cover_art(answer(200, None, &[1, 2, 3]));
    assert_eq!(cover, Ok(CoverArt { mime: "image/jpeg".to_string(), data: vec![1, 2, 3] }));
}

#[test]
fn other_status_is_no_cover() {
    assert_eq!(cover_art(answer(404, Some("text/html"), b"gone")), Err(CoverArtFetchFailed::Status(404)));
    assert_eq!(cover_art(answer(201, Some("image/png"), &[1])), Err(CoverArtFetchFailed::Status(201)));
    assert_eq!(cover_art(answer(500, None, &[])), Err(CoverArtFetchFailed::Status(500)));
}

#[test]
fn transport_failure_is_no_cover() {
    assert_eq!(cover_art(CoverFetch::TransportFailed), Err(CoverArtFetchFailed::Transport));
}

#[test]
fn track_without_images_is_tagged_without_picture() {
    let embedded = get_metadata(&example(&[]), None);
    assert_eq!(embedded.diagnostic, None);
    let tag = read(&embedded.bytes);
    assert_eq!(tag.title(), Some("Example"));
    assert_eq!(tag.artist(), Some("A, B"));
    assert_eq!(tag.album(), Some("Record"));
    assert_eq!(tag.pictures().count(), 0);
    assert_eq!(tag.frames().count(), 3);
}

#[test]
fn missing_cover_leaves_the_tag_without_picture() {
    let track = example(&["http://img/large"]);
    let embedded = get_metadata(&track, Some(answer(404, Some("text/plain"), b"not found")));
    assert_eq!(embedded.diagnostic, Some(CoverArtFetchFailed::Status(404)));
    let tag = read(&embedded.bytes);
    assert_eq!(tag.title(), Some("Example"));
    assert_eq!(tag.artist(), Some("A, B"));
    assert_eq!(tag.album(), Some("Record"));
    assert_eq!(tag.pictures().count(), 0);
}

#[test]
fn failed_transport_leaves_the_tag_without_picture() {
    let track = example(&["http://img/large"]);
    let embedded = get_metadata(&track, Some(CoverFetch::TransportFailed));
    assert_eq!(embedded.diagnostic, Some(CoverArtFetchFailed::Transport));
    assert_eq!(embedded.bytes, get_metadata(&example(&[]), None).bytes);
}

#[test]
fn fetched_cover_is_embedded_as_front_cover() {
    let track = example(&["http://img/large"]);
    let embedded = get_metadata(&track, Some(answer(200, Some("image/png"), &[9, 8, 7, 6])));
    assert_eq!(embedded.diagnostic, None);
    let tag = read(&embedded.bytes);
    assert_eq!(tag.title(), Some("Example"));
    assert_eq!(tag.artist(), Some("A, B"));
    assert_eq!(tag.album(), Some("Record"));
    let pictures: Vec<&id3::frame::Picture> = tag.pictures().collect();
    assert_eq!(pictures.len(), 1);
    assert_eq!(pictures[0].mime_type, "image/png");
    assert_eq!(pictures[0].picture_type, PictureType::CoverFront);
    assert_eq!(pictures[0].description, "Cover");
    assert_eq!(pictures[0].data, vec![9, 8, 7, 6]);
}

#[test]
fn cover_served_without_content_type_is_embedded_as_jpeg() {
    let track = example(&["http://img/large"]);
    let embedded = get_metadata(&track, Some(answer(200, None, &[1])));
    let tag = read(&embedded.bytes);
    let pictures: Vec<&id3::frame::Picture> = tag.pictures().collect();
    assert_eq!(pictures.len(), 1);
    assert_eq!(pictures[0].mime_type, "image/jpeg");
}

#[test]
fn fetch_for_a_track_without_images_is_not_embedded() {
    let (metadata, diagnostic) = describe(&example(&[]), Some(answer(200, None, &[1, 2])));
    assert_eq!(metadata.cover, None);
    assert_eq!(diagnostic, None);
    let (metadata, diagnostic) = describe(&example(&[]), Some(answer(404, None, &[])));
    assert_eq!(metadata.cover, None);
    assert_eq!(diagnostic, None);
}

#[test]
fn track_with_images_and_no_fetch_has_no_cover() {
    let (metadata, diagnostic) = describe(&example(&["http://img/large"]), None);
    assert_eq!(metadata.cover, None);
    assert_eq!(diagnostic, None);
}

#[test]
fn descriptor_is_taken_over_letter_for_letter() {
    let (metadata, _) = describe(&example(&[]), None);
    assert_eq!(
        metadata,
        TrackMetadata {
            title: "Example".to_string(),
            artist: "A, B".to_string(),
            album: "Record".to_string(),
            cover: None,
        }
    );
}

#[test]
fn title_with_slash_is_not_sanitised() {
    let mut track = example(&[]);
    track.title = "A/B".to_string();
    let embedded = get_metadata(&track, None);
    assert_eq!(read(&embedded.bytes).title(), Some("A/B"));
}

#[test]
fn title_beyond_ascii_is_kept() {
    let mut track = example(&[]);
    track.title = "Déjà vu \u{1F3B5}".to_string();
    let embedded = get_metadata(&track, None);
    assert_eq!(read(&embedded.bytes).title(), Some("Déjà vu \u{1F3B5}"));
}

#[test]
fn smallest_tag_is_written_byte_for_byte() {
    let metadata = TrackMetadata {
        title: "T".to_string(),
        artist: "A".to_string(),
        album: "B".to_string(),
        cover: None,
    };
    let mut expected = vec![b'I', b'D', b'3', 4, 0, 0, 0, 0, 0, 36];
    expected.extend_from_slice(&[b'T', b'I', b'T', b'2', 0, 0, 0, 2, 0, 0, 3, b'T']);
    expected.extend_from_slice(&[b'T', b'P', b'E', b'1', 0, 0, 0, 2, 0, 0, 3, b'A']);
    expected.extend_from_slice(&[b'T', b'A', b'L', b'B', 0, 0, 0, 2, 0, 0, 3, b'B']);
    assert_eq!(write_tag(&metadata), expected);
}

#[test]
fn tag_with_cover_has_the_length_that_is_counted() {
    let metadata = TrackMetadata {
        title: "Té".to_string(),
        artist: "A".to_string(),
        album: "".to_string(),
        cover: Some(CoverArt { mime: "image/png".to_string(), data: vec![1, 2, 3] }),
    };
    let counted = 33 + 3 + 1 + 0 + 14 + 9 + 5 + 3;
    assert_eq!(write_tag(&metadata).len(), 10 + counted);
}

#[test]
fn ordinary_tag_fits() {
    let (metadata, _) = describe(&example(&[]), None);
    assert!(fits(&metadata));
}

#[test]
fn tag_fits_up_to_the_limit_of_the_size_fields() {
    let rest = 33 + 1 + 1 + 1 + 14 + 9 + 5;
    let mut metadata = TrackMetadata {
        title: "T".to_string(),
        artist: "A".to_string(),
        album: "B".to_string(),
        cover: Some(CoverArt { mime: "image/png".to_string(), data: vec![0; 0x1000_0000 - rest - 1] }),
    };
    assert!(fits(&metadata));
    metadata.cover = Some(CoverArt { mime: "image/png".to_string(), data: vec![0; 0x1000_0000 - rest] });
    assert!(!fits(&metadata));
}
