use track_pipeline::acquire::Downloader;
use track_pipeline::acquire::FetchRequest;
use track_pipeline::acquire::Negotiated;
use track_pipeline::acquire::Resolution;
use track_pipeline::acquire::TrackId;
use track_pipeline::decrypt::Fetched;
use track_pipeline::error::AcquisitionError;
use track_pipeline::format::AudioFormat;
use track_pipeline::format::EncodingVariant;
use track_pipeline::format::FileId;

fn variant(format: AudioFormat, tag: u8) -> EncodingVariant {
    EncodingVariant { format, file: FileId([tag; 20]) }
}

fn available(variants: Vec<EncodingVariant>) -> Resolution {
    Resolution { available: true, alternatives: Vec::new(), variants }
}

fn unavailable(alternatives: Vec<TrackId>) -> Resolution {
    Resolution { available: false, alternatives, variants: Vec::new() }
}

fn probe(negotiated: Negotiated) -> Downloader {
    match negotiated {
        Negotiated::Probe(downloader) => downloader,
        Negotiated::Chosen(request) => panic!("settled on {:?}", request),
        Negotiated::Failed(error) => panic!("failed with {:?}", error),
    }
}

fn chosen(negotiated: Negotiated) -> FetchRequest {
    match negotiated {
        Negotiated::Chosen(request) => request,
        Negotiated::Probe(downloader) => panic!("asks for {:?}", downloader.pending()),
        Negotiated::Failed(error) => panic!("failed with {:?}", error),
    }
}

fn failed(negotiated: Negotiated) -> AcquisitionError {
    match negotiated {
        Negotiated::Failed(error) => error,
        Negotiated::Chosen(request) => panic!("settled on {:?}", request),
        Negotiated::Probe(downloader) => panic!("asks for {:?}", downloader.pending()),
    }
}

#[test]
fn download_begins_with_the_track_itself() {
    assert_eq!(Downloader::new(TrackId(7)).pending(), TrackId(7));
}

#[test]
fn available_track_is_the_working_track() {
    let downloader = Downloader::new(TrackId(7));
    let request = chosen(downloader.resolved(available(vec![
        variant(AudioFormat::OggVorbis160, 1),
        variant(AudioFormat::OggVorbis320, 2),
    ])));
    assert_eq!(
        request,
        FetchRequest { track: TrackId(7), file: FileId([2; 20]), bytes_per_second: 40960 }
    );
}

#[test]
fn alternatives_of_an_available_track_are_not_asked_about() {
    let downloader = Downloader::new(TrackId(7));
    let resolution = Resolution {
        available: true,
        alternatives: vec![TrackId(8)],
        variants: vec![variant(AudioFormat::OggVorbis96, 1)],
    };
    let request = chosen(downloader.resolved(resolution));
    assert_eq!(request.track, TrackId(7));
    assert_eq!(request.bytes_per_second, 12288);
}

#[test]
fn unavailable_track_without_alternatives_is_unavailable() {
    let downloader = Downloader::new(TrackId(7));
    assert_eq!(
        failed(downloader.resolved(unavailable(Vec::new()))),
        AcquisitionError::TrackUnavailable
    );
}

#[test]
fn unavailable_track_with_unavailable_alternatives_is_unavailable() {
    let downloader = Downloader::new(TrackId(7));
    let first = probe(downloader.resolved(unavailable(vec![TrackId(8), TrackId(9), TrackId(10)])));
    assert_eq!(first.pending(), TrackId(8));
    let second = probe(first.resolved(unavailable(Vec::new())));
    assert_eq!(second.pending(), TrackId(9));
    let third = probe(second.resolved(unavailable(Vec::new())));
    assert_eq!(third.pending(), TrackId(10));
    assert_eq!(
        failed(third.resolved(unavailable(Vec::new()))),
        AcquisitionError::TrackUnavailable
    );
}

#[test]
fn first_available_alternative_is_the_working_track() {
    let downloader = Downloader::new(TrackId(7));
    let first = probe(downloader.resolved(unavailable(vec![TrackId(8), TrackId(9)])));
    assert_eq!(first.pending(), TrackId(8));
    let request = chosen(first.resolved(available(vec![variant(AudioFormat::OggVorbis160, 5)])));
    assert_eq!(
        request,
        FetchRequest { track: TrackId(8), file: FileId([5; 20]), bytes_per_second: 20480 }
    );
}

#[test]
fn later_alternative_is_taken_when_the_earlier_ones_are_unavailable() {
    let downloader = Downloader::new(TrackId(7));
    let first = probe(downloader.resolved(unavailable(vec![TrackId(8), TrackId(9)])));
    let second = probe(first.resolved(unavailable(Vec::new())));
    assert_eq!(second.pending(), TrackId(9));
    let request = chosen(second.resolved(available(vec![variant(AudioFormat::OggVorbis320, 6)])));
    assert_eq!(request.track, TrackId(9));
    assert_eq!(request.file, FileId([6; 20]));
}

#[test]
fn alternatives_of_an_alternative_are_not_followed() {
    let downloader = Downloader::new(TrackId(7));
    let first = probe(downloader.resolved(unavailable(vec![TrackId(8)])));
    assert_eq!(
        failed(first.resolved(unavailable(vec![TrackId(99)]))),
        AcquisitionError::TrackUnavailable
    );
}

#[test]
fn working_track_without_vorbis_is_unsupported() {
    let downloader = Downloader::new(TrackId(7));
    assert_eq!(
        failed(downloader.resolved(available(vec![variant(AudioFormat::Mp3_320, 1)]))),
        AcquisitionError::FormatUnsupported
    );
}

#[test]
fn available_alternative_without_vorbis_is_unsupported() {
    let downloader = Downloader::new(TrackId(7));
    let first = probe(downloader.resolved(unavailable(vec![TrackId(8), TrackId(9)])));
    assert_eq!(
        failed(first.resolved(available(Vec::new()))),
        AcquisitionError::FormatUnsupported
    );
}

#[test]
fn failed_stream_open_ends_the_download() {
    assert_eq!(
        Downloader::get_ogg(Fetched::StreamOpenFailed),
        Err(AcquisitionError::StreamOpenFailed)
    );
}

#[test]
fn missing_key_ends_the_download() {
    assert_eq!(
        Downloader::get_ogg(Fetched::KeyRequestFailed),
        Err(AcquisitionError::KeyRequestFailed)
    );
}

#[test]
fn broken_read_is_a_decryption_failure() {
    assert_eq!(Downloader::get_ogg(Fetched::ReadFailed), Err(AcquisitionError::DecryptionFailed));
}

#[test]
fn complete_fetch_yields_the_payload_behind_the_header() {
    let fetched = Fetched::Complete { key: [9; 16], encrypted: vec![0; 200] };
    let payload = Downloader::get_ogg(fetched).unwrap();
    assert_eq!(payload.len(), 200 - 0xA7);
}

#[test]
fn complete_fetch_is_decrypted_with_its_key() {
    let key = [0, 1, 2, 3, 4, 5, 6, 7, 8, 9, 10, 11, 12, 13, 14, 15];
    let fetched = Fetched::Complete { key, encrypted: vec![0; 183] };
    assert_eq!(
        Downloader::get_ogg(fetched),
        Ok(vec![
            0x84, 0x8b, 0xb2, 0x88, 0x0f, 0xc0, 0xca, 0xa5, 0xf9, 0x31, 0xde, 0xfb, 0x7a, 0x15,
            0x31, 0x4a,
        ])
    );
}
