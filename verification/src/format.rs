//! Encodings in which a track is offered, their nominal data rates, and the
//! choice among the encodings that a track has.

use vstd::prelude::*;

verus! {

/// One codec and bitrate in which the catalog may offer a track.
#[derive(Clone, Copy, Debug, PartialEq, Eq, Structural)]
pub enum AudioFormat {
    OggVorbis96,
    OggVorbis160,
    OggVorbis320,
    Mp3_256,
    Mp3_320,
    Mp3_160,
    Mp3_96,
    Mp3_160Enc,
    Aac24,
    Aac48,
    Aac160,
    Aac320,
    Mp4_128,
    Other5,
    Flac,
    Unknown,
}

/// Bytes in one KiB, the unit of the data rate table.
pub const KIB: usize = 1024;

/// Nominal data rate of a format in KiB per second; `None` where no rate is
/// known for it.
pub open spec fn nominal_kib_per_second(format: AudioFormat) -> Option<int> {
    match format {
        AudioFormat::OggVorbis96 => Some(12),
        AudioFormat::OggVorbis160 => Some(20),
        AudioFormat::OggVorbis320 => Some(40),
        AudioFormat::Mp3_256 => Some(32),
        AudioFormat::Mp3_320 => Some(40),
        AudioFormat::Mp3_160 => Some(20),
        AudioFormat::Mp3_96 => Some(12),
        AudioFormat::Mp3_160Enc => Some(20),
        AudioFormat::Aac24 => Some(3),
        AudioFormat::Aac48 => Some(6),
        AudioFormat::Aac160 => Some(20),
        AudioFormat::Aac320 => Some(40),
        AudioFormat::Mp4_128 => Some(16),
        AudioFormat::Other5 => Some(40),
        AudioFormat::Flac => Some(112),
        AudioFormat::Unknown => None,
    }
}

/// Nominal data rate of `format` in bytes per second, used to size the
/// buffer of the stream that delivers it.
pub fn stream_data_rate(format: AudioFormat) -> (rate: usize)
    requires
        nominal_kib_per_second(format) is Some,
    ensures
        rate == nominal_kib_per_second(format).unwrap() * 1024,
{
    let kib: usize = match format {
        AudioFormat::OggVorbis96 => 12,
        AudioFormat::OggVorbis160 => 20,
        AudioFormat::OggVorbis320 => 40,
        AudioFormat::Mp3_256 => 32,
        AudioFormat::Mp3_320 => 40,
        AudioFormat::Mp3_160 => 20,
        AudioFormat::Mp3_96 => 12,
        AudioFormat::Mp3_160Enc => 20,
        AudioFormat::Aac24 => 3,
        AudioFormat::Aac48 => 6,
        AudioFormat::Aac160 => 20,
        AudioFormat::Aac320 => 40,
        AudioFormat::Mp4_128 => 16,
        AudioFormat::Other5 => 40,
        AudioFormat::Flac => 112,
        AudioFormat::Unknown => 0,
    };
    kib * KIB
}

/// Opaque handle of one deliverable file of a track.
#[derive(Clone, Copy, Debug, PartialEq, Eq)]
pub struct FileId(pub [u8; 20]);

/// One deliverable encoding of a track: its format and the file that holds it.
#[derive(Clone, Copy, Debug, PartialEq, Eq)]
pub struct EncodingVariant {
    pub format: AudioFormat,
    pub file: FileId,
}

/// Place of a format in the order of preference, 0 being the most preferred;
/// `None` for a format that is never selected.
pub open spec fn preference(format: AudioFormat) -> Option<nat> {
    match format {
        AudioFormat::OggVorbis320 => Some(0),
        AudioFormat::OggVorbis160 => Some(1),
        AudioFormat::OggVorbis96 => Some(2),
        _ => None,
    }
}

/// Whether some variant of the set has the given format.
pub open spec fn offers(variants: Seq<EncodingVariant>, format: AudioFormat) -> bool {
    exists|i: int| 0 <= i < variants.len() && (#[trigger] variants[i]).format == format
}

/// Whether `index` is the place of the first variant of the given format.
pub open spec fn is_first_of(
    variants: Seq<EncodingVariant>,
    format: AudioFormat,
    index: int,
) -> bool {
    &&& 0 <= index < variants.len()
    &&& variants[index].format == format
    &&& forall|j: int| 0 <= j < index ==> (#[trigger] variants[j]).format != format
}

/// The most preferred format among those that the set offers.
pub open spec fn preferred_format(variants: Seq<EncodingVariant>) -> Option<AudioFormat> {
    if offers(variants, AudioFormat::OggVorbis320) {
        Some(AudioFormat::OggVorbis320)
    } else if offers(variants, AudioFormat::OggVorbis160) {
        Some(AudioFormat::OggVorbis160)
    } else if offers(variants, AudioFormat::OggVorbis96) {
        Some(AudioFormat::OggVorbis96)
    } else {
        None
    }
}

/// The variant that is selected from a set: the first one in the most
/// preferred format on offer.
pub open spec fn selected(variants: Seq<EncodingVariant>) -> Option<EncodingVariant> {
    match preferred_format(variants) {
        Some(format) => Some(variants[choose|i: int| is_first_of(variants, format, i)]),
        None => None,
    }
}

/// Finds the first variant of the given format.
fn find_format(variants: &Vec<EncodingVariant>, format: AudioFormat) -> (found: Option<usize>)
    ensures
        match found {
            Some(index) => is_first_of(variants@, format, index as int),
            None => !offers(variants@, format),
        },
{
    let mut index: usize = 0;
    while index < variants.len()
        invariant
            index <= variants.len(),
            forall|j: int| 0 <= j < index ==> (#[trigger] variants@[j]).format != format,
        decreases variants.len() - index,
    {
        if variants[index].format == format {
            return Some(index);
        }
        index += 1;
    }
    None
}

/// Two places that are both the first of a format are the same place.
proof fn first_is_unique(variants: Seq<EncodingVariant>, format: AudioFormat, a: int, b: int)
    requires
        is_first_of(variants, format, a),
        is_first_of(variants, format, b),
    ensures
        a == b,
{
    if a < b {
        assert(variants[a].format != format);
    } else if b < a {
        assert(variants[b].format != format);
    }
}

/// Selects the encoding to fetch from the variants that a track has: the most
/// preferred format on offer, and of that format the first variant listed.
/// `None` when the track has no variant in a format of the preference order.
pub fn select_variant(variants: &Vec<EncodingVariant>) -> (chosen: Option<EncodingVariant>)
    ensures
        chosen == selected(variants@),
        chosen matches Some(variant) ==> preferred_format(variants@) == Some(variant.format),
        chosen is Some <==> exists|i: int|
            0 <= i < variants@.len() && preference((#[trigger] variants@[i]).format) is Some,
{
    let order = [AudioFormat::OggVorbis320, AudioFormat::OggVorbis160, AudioFormat::OggVorbis96];
    let mut rank: usize = 0;
    while rank < 3
        invariant
            rank <= 3,
            order@ == seq![
                AudioFormat::OggVorbis320,
                AudioFormat::OggVorbis160,
                AudioFormat::OggVorbis96,
            ],
            forall|r: int| 0 <= r < rank ==> !offers(variants@, #[trigger] order@[r]),
        decreases 3 - rank,
    {
        let format = order[rank];
        match find_format(variants, format) {
            Some(index) => {
                proof {
                    let first = choose|i: int| is_first_of(variants@, format, i);
                    first_is_unique(variants@, format, first, index as int);
                    assert(offers(variants@, format));
                    assert(rank > 0 ==> !offers(variants@, order@[0]));
                    assert(rank > 1 ==> !offers(variants@, order@[1]));
                    assert(preference(variants@[index as int].format) is Some);
                }
                return Some(variants[index]);
            },
            None => {},
        }
        rank += 1;
    }
    proof {
        assert(!offers(variants@, order@[0]));
        assert(!offers(variants@, order@[1]));
        assert(!offers(variants@, order@[2]));
        assert forall|i: int| 0 <= i < variants@.len() implies preference(
            (#[trigger] variants@[i]).format,
        ) is None by {
            let f = variants@[i].format;
            if preference(f) is Some {
                assert(offers(variants@, f));
            }
        }
    }
    None
}

/// The selected variant is on offer, and no variant on offer is in a format
/// that is preferred to it.
pub proof fn selection_is_most_preferred(variants: Seq<EncodingVariant>, other: int)
    requires
        0 <= other < variants.len(),
        preference(variants[other].format) is Some,
    ensures
        selected(variants) is Some,
        variants.contains(selected(variants).unwrap()),
        preference(selected(variants).unwrap().format) is Some,
        preference(selected(variants).unwrap().format).unwrap() <= preference(
            variants[other].format,
        ).unwrap(),
{
    let f = variants[other].format;
    assert(offers(variants, f));
    let best = preferred_format(variants).unwrap();
    offered_has_first(variants, best);
    let first = choose|i: int| is_first_of(variants, best, i);
    assert(variants[first] == selected(variants).unwrap());
}

/// The selected variant is in the most preferred format on offer.
pub proof fn selected_has_preferred_format(variants: Seq<EncodingVariant>)
    requires
        selected(variants) is Some,
    ensures
        preferred_format(variants) == Some(selected(variants).unwrap().format),
        preference(selected(variants).unwrap().format) is Some,
{
    let best = preferred_format(variants).unwrap();
    offered_has_first(variants, best);
}

/// A format on offer has a first variant.
proof fn offered_has_first(variants: Seq<EncodingVariant>, format: AudioFormat)
    requires
        offers(variants, format),
    ensures
        exists|i: int| is_first_of(variants, format, i),
{
    let witness = choose|i: int| 0 <= i < variants.len() && (#[trigger] variants[i]).format == format;
    first_from(variants, format, witness);
}

/// Below any variant of a format lies the first variant of that format.
proof fn first_from(variants: Seq<EncodingVariant>, format: AudioFormat, at: int)
    requires
        0 <= at < variants.len(),
        variants[at].format == format,
    ensures
        exists|i: int| is_first_of(variants, format, i),
    decreases at,
{
    if forall|j: int| 0 <= j < at ==> (#[trigger] variants[j]).format != format {
        assert(is_first_of(variants, format, at));
    } else {
        let j = choose|j: int| 0 <= j < at && (#[trigger] variants[j]).format == format;
        first_from(variants, format, j);
    }
}

} // verus!
