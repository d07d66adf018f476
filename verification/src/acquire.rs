//! Settling which release of a track is downloaded and in which encoding.
//!
//! The catalog is asked about one identifier at a time. A [`Downloader`]
//! holds the identifier whose resolution is awaited; handing it that
//! resolution yields either the next identifier to ask about, the request
//! for the chosen file, or the failure of the acquisition.

use crate::decrypt::{decrypt_payload, outcome, Fetched};
use crate::error::AcquisitionError;
use crate::format::{
    nominal_kib_per_second, select_variant, selected, selected_has_preferred_format,
    stream_data_rate, EncodingVariant, FileId,
};
use vstd::prelude::*;

verus! {

/// Canonical reference to a track of the catalog.
#[derive(Clone, Copy, Debug, PartialEq, Eq, Structural)]
pub struct TrackId(pub u128);

/// What the catalog reports of one track identifier.
#[derive(Clone, Debug, PartialEq, Eq)]
pub struct Resolution {
    /// Whether the track can be delivered to this session.
    pub available: bool,
    /// Other releases offered in its place, in the order in which they are
    /// to be tried.
    pub alternatives: Vec<TrackId>,
    /// The encodings in which the track exists.
    pub variants: Vec<EncodingVariant>,
}

/// The file to fetch once track and encoding are settled. Its stream is read
/// once, from its start to its end.
#[derive(Clone, Copy, Debug, PartialEq, Eq)]
pub struct FetchRequest {
    /// The working track: the key is requested for it.
    pub track: TrackId,
    /// The file of the chosen variant.
    pub file: FileId,
    /// Nominal data rate of the chosen variant, for the stream's buffer.
    pub bytes_per_second: usize,
}

/// The download of one track while its working release is being settled.
pub struct Downloader {
    pending: TrackId,
    primary: bool,
    alternatives: Vec<TrackId>,
    next: usize,
}

/// What a [`Downloader`] stands for.
pub struct DownloaderView {
    /// The identifier whose resolution is awaited.
    pub pending: TrackId,
    /// Whether that identifier is the one the download was started with.
    pub primary: bool,
    /// The alternatives that are tried after it, in order.
    pub untried: Seq<TrackId>,
}

/// The outcome of one resolution.
pub enum Negotiated {
    /// The identifier was unavailable: the next one is to be resolved.
    Probe(Downloader),
    /// The identifier is the working track, and this is the file to fetch.
    Chosen(FetchRequest),
    /// The acquisition ends here.
    Failed(AcquisitionError),
}

/// What a [`Negotiated`] stands for.
pub enum NegotiatedView {
    Probe(DownloaderView),
    Chosen(FetchRequest),
    Failed(AcquisitionError),
}

impl View for Downloader {
    type V = DownloaderView;

    closed spec fn view(&self) -> DownloaderView {
        DownloaderView {
            pending: self.pending,
            primary: self.primary,
            untried: if self.primary {
                Seq::empty()
            } else {
                self.alternatives@.skip(self.next as int + 1)
            },
        }
    }
}

impl View for Negotiated {
    type V = NegotiatedView;

    open spec fn view(&self) -> NegotiatedView {
        match self {
            Negotiated::Probe(downloader) => NegotiatedView::Probe(downloader@),
            Negotiated::Chosen(request) => NegotiatedView::Chosen(*request),
            Negotiated::Failed(error) => NegotiatedView::Failed(*error),
        }
    }
}

/// The state in which the download of `track` begins.
pub open spec fn start(track: TrackId) -> DownloaderView {
    DownloaderView { pending: track, primary: true, untried: Seq::empty() }
}

/// What follows once `track` is known to be available with these variants:
/// the request for the selected one, or `FormatUnsupported`.
pub open spec fn settle(track: TrackId, variants: Seq<EncodingVariant>) -> NegotiatedView {
    match selected(variants) {
        Some(variant) => NegotiatedView::Chosen(
            FetchRequest {
                track,
                file: variant.file,
                bytes_per_second: (nominal_kib_per_second(variant.format).unwrap()
                    * 1024) as usize,
            },
        ),
        None => NegotiatedView::Failed(AcquisitionError::FormatUnsupported),
    }
}

/// What follows from the resolution of the pending identifier. An available
/// track is the working track. An unavailable one passes the turn to the
/// next candidate: the first of its own alternatives if it is the primary
/// track, else the next untried alternative of the primary track.
pub open spec fn step(state: DownloaderView, resolution: Resolution) -> NegotiatedView {
    if resolution.available {
        settle(state.pending, resolution.variants@)
    } else {
        let candidates = if state.primary {
            resolution.alternatives@
        } else {
            state.untried
        };
        if candidates.len() > 0 {
            NegotiatedView::Probe(
                DownloaderView {
                    pending: candidates[0],
                    primary: false,
                    untried: candidates.skip(1),
                },
            )
        } else {
            NegotiatedView::Failed(AcquisitionError::TrackUnavailable)
        }
    }
}

impl Downloader {
    #[verifier::type_invariant]
    spec fn well_formed(self) -> bool {
        !self.primary ==> self.next < self.alternatives@.len() && self.alternatives@[self.next as int]
            == self.pending
    }

    /// Begins the download of `track`: its own resolution is awaited first.
    pub fn new(track: TrackId) -> (downloader: Downloader)
        ensures
            downloader@ == start(track),
    {
        Downloader { pending: track, primary: true, alternatives: Vec::new(), next: 0 }
    }

    /// The identifier that is to be resolved next.
    pub fn pending(&self) -> (track: TrackId)
        ensures
            track == self@.pending,
    {
        self.pending
    }

    /// Takes the resolution of the pending identifier and says what follows.
    pub fn resolved(self, resolution: Resolution) -> (negotiated: Negotiated)
        ensures
            negotiated@ == step(self@, resolution),
    {
        proof {
            use_type_invariant(&self);
        }
        if resolution.available {
            match select_variant(&resolution.variants) {
                Some(variant) => Negotiated::Chosen(
                    FetchRequest {
                        track: self.pending,
                        file: variant.file,
                        bytes_per_second: stream_data_rate(variant.format),
                    },
                ),
                None => Negotiated::Failed(AcquisitionError::FormatUnsupported),
            }
        } else if self.primary {
            let alternatives = resolution.alternatives;
            if alternatives.len() > 0 {
                let pending = alternatives[0];
                Negotiated::Probe(Downloader { pending, primary: false, alternatives, next: 0 })
            } else {
                Negotiated::Failed(AcquisitionError::TrackUnavailable)
            }
        } else {
            let len = self.alternatives.len();
            let next = self.next + 1;
            if next < len {
                let pending = self.alternatives[next];
                assert(self.alternatives@.skip(self.next as int + 1).skip(1)
                    =~= self.alternatives@.skip(next as int + 1));
                Negotiated::Probe(
                    Downloader { pending, primary: false, alternatives: self.alternatives, next },
                )
            } else {
                Negotiated::Failed(AcquisitionError::TrackUnavailable)
            }
        }
    }

    /// The last step of a download: turns what the fetch of the chosen file
    /// brought into the OGG payload, or into the failure that it amounts to.
    pub fn get_ogg(fetched: Fetched) -> (result: Result<Vec<u8>, AcquisitionError>)
        ensures
            match result {
                Ok(payload) => outcome(fetched) == Ok::<Seq<u8>, AcquisitionError>(payload@),
                Err(error) => outcome(fetched) == Err::<Seq<u8>, AcquisitionError>(error),
            },
    {
        match fetched {
            Fetched::StreamOpenFailed => Err(AcquisitionError::StreamOpenFailed),
            Fetched::KeyRequestFailed => Err(AcquisitionError::KeyRequestFailed),
            Fetched::ReadFailed => Err(AcquisitionError::DecryptionFailed),
            Fetched::Complete { key, encrypted } => Ok(decrypt_payload(&key, encrypted)),
        }
    }
}

/// What the download has come to after the given resolutions, the first
/// being that of the state's pending identifier and each later one that of
/// the identifier that the former left pending. Resolutions that arrive
/// after the matter is settled are not looked at.
pub open spec fn run(state: DownloaderView, resolutions: Seq<Resolution>) -> NegotiatedView
    decreases resolutions.len(),
{
    if resolutions.len() == 0 {
        NegotiatedView::Probe(state)
    } else {
        match step(state, resolutions[0]) {
            NegotiatedView::Probe(next) => run(next, resolutions.skip(1)),
            settled => settled,
        }
    }
}

/// The identifier that is asked about at the given turn of a download of
/// `track` whose primary resolution listed `alternatives`.
pub open spec fn candidate(track: TrackId, alternatives: Seq<TrackId>, turn: int) -> TrackId {
    if turn == 0 {
        track
    } else {
        alternatives[turn - 1]
    }
}

/// Among alternatives only: the first available one becomes the working track.
proof fn alternatives_settle_on_first_available(
    state: DownloaderView,
    resolutions: Seq<Resolution>,
    turn: int,
)
    requires
        !state.primary,
        0 <= turn < resolutions.len(),
        turn <= state.untried.len(),
        resolutions[turn].available,
        forall|j: int| 0 <= j < turn ==> !(#[trigger] resolutions[j]).available,
    ensures
        run(state, resolutions) == settle(
            if turn == 0 {
                state.pending
            } else {
                state.untried[turn - 1]
            },
            resolutions[turn].variants@,
        ),
    decreases turn,
{
    if turn > 0 {
        assert(!resolutions[0].available);
        let next = DownloaderView {
            pending: state.untried[0],
            primary: false,
            untried: state.untried.skip(1),
        };
        let rest = resolutions.skip(1);
        assert(rest[turn - 1] == resolutions[turn]);
        assert forall|j: int| 0 <= j < turn - 1 implies !(#[trigger] rest[j]).available by {
            assert(rest[j] == resolutions[j + 1]);
        }
        alternatives_settle_on_first_available(next, rest, turn - 1);
    }
}

/// Among alternatives only: when none is available, the track is unavailable.
proof fn alternatives_exhausted(state: DownloaderView, resolutions: Seq<Resolution>)
    requires
        !state.primary,
        resolutions.len() == 1 + state.untried.len(),
        forall|j: int| 0 <= j < resolutions.len() ==> !(#[trigger] resolutions[j]).available,
    ensures
        run(state, resolutions) == NegotiatedView::Failed(AcquisitionError::TrackUnavailable),
    decreases resolutions.len(),
{
    assert(!resolutions[0].available);
    if state.untried.len() > 0 {
        let next = DownloaderView {
            pending: state.untried[0],
            primary: false,
            untried: state.untried.skip(1),
        };
        let rest = resolutions.skip(1);
        assert forall|j: int| 0 <= j < rest.len() implies !(#[trigger] rest[j]).available by {
            assert(rest[j] == resolutions[j + 1]);
        }
        alternatives_exhausted(next, rest);
    }
}

/// The working track is the first available one in the order of asking:
/// the primary track, then its alternatives as listed. What is reported of
/// later candidates makes no difference.
pub proof fn first_available_is_working_track(
    track: TrackId,
    resolutions: Seq<Resolution>,
    turn: int,
)
    requires
        0 <= turn < resolutions.len(),
        turn <= resolutions[0].alternatives@.len(),
        resolutions[turn].available,
        forall|j: int| 0 <= j < turn ==> !(#[trigger] resolutions[j]).available,
    ensures
        run(start(track), resolutions) == settle(
            candidate(track, resolutions[0].alternatives@, turn),
            resolutions[turn].variants@,
        ),
{
    if turn > 0 {
        assert(!resolutions[0].available);
        let listed = resolutions[0].alternatives@;
        let next = DownloaderView { pending: listed[0], primary: false, untried: listed.skip(1) };
        let rest = resolutions.skip(1);
        assert(rest[turn - 1] == resolutions[turn]);
        assert forall|j: int| 0 <= j < turn - 1 implies !(#[trigger] rest[j]).available by {
            assert(rest[j] == resolutions[j + 1]);
        }
        alternatives_settle_on_first_available(next, rest, turn - 1);
    }
}

/// A primary track that is unavailable and whose first alternative is
/// available is replaced by that first alternative, whatever is reported of
/// the later ones.
pub proof fn first_alternative_is_chosen(track: TrackId, resolutions: Seq<Resolution>)
    requires
        resolutions.len() >= 2,
        !resolutions[0].available,
        resolutions[0].alternatives@.len() >= 1,
        resolutions[1].available,
    ensures
        run(start(track), resolutions) == settle(
            resolutions[0].alternatives@[0],
            resolutions[1].variants@,
        ),
        run(start(track), resolutions) matches NegotiatedView::Chosen(request) ==> request.track
            == resolutions[0].alternatives@[0],
{
    first_available_is_working_track(track, resolutions, 1);
}

/// A track that is unavailable and all of whose alternatives are
/// unavailable ends in `TrackUnavailable`.
pub proof fn unavailable_everywhere_fails(track: TrackId, resolutions: Seq<Resolution>)
    requires
        resolutions.len() >= 1,
        resolutions.len() == 1 + resolutions[0].alternatives@.len(),
        forall|j: int| 0 <= j < resolutions.len() ==> !(#[trigger] resolutions[j]).available,
    ensures
        run(start(track), resolutions) == NegotiatedView::Failed(
            AcquisitionError::TrackUnavailable,
        ),
{
    assert(!resolutions[0].available);
    let listed = resolutions[0].alternatives@;
    if listed.len() > 0 {
        let next = DownloaderView { pending: listed[0], primary: false, untried: listed.skip(1) };
        let rest = resolutions.skip(1);
        assert forall|j: int| 0 <= j < rest.len() implies !(#[trigger] rest[j]).available by {
            assert(rest[j] == resolutions[j + 1]);
        }
        alternatives_exhausted(next, rest);
    }
}

/// A request names the track that was asked about when it was made, the
/// file of the variant selected from that track's variants, and that
/// variant's nominal data rate: never anything of a candidate passed over.
pub proof fn request_is_for_the_chosen_pair(state: DownloaderView, resolution: Resolution)
    requires
        step(state, resolution) is Chosen,
    ensures
        resolution.available,
        selected(resolution.variants@) is Some,
        step(state, resolution)->Chosen_0.track == state.pending,
        step(state, resolution)->Chosen_0.file == selected(resolution.variants@).unwrap().file,
        step(state, resolution)->Chosen_0.bytes_per_second == nominal_kib_per_second(
            selected(resolution.variants@).unwrap().format,
        ).unwrap() * 1024,
{
    selected_has_preferred_format(resolution.variants@);
}

} // verus!
