//! The canonical now-playing snapshot and the update events derived from it.

use vstd::prelude::*;

verus! {

/// Mathematical model of a [`TrackRecord`]: the same fields, with strings
/// abstracted to character sequences and integers to `int`.
pub ghost struct TrackModel {
    pub title: Seq<char>,
    pub artist: Seq<char>,
    pub album: Seq<char>,
    pub art_reference: Seq<char>,
    pub art_is_local: bool,
    pub start: int,
    pub length_ms: int,
    pub paused: bool,
}

/// A canonical now-playing snapshot decoded from one metadata line.
///
/// `art_reference` holds either a remote URL or, when `art_is_local` is true,
/// a local file path with the local-file scheme prefix already stripped.
/// `start` is the moment the record was constructed (milliseconds since the
/// epoch); `length_ms` is the raw track length as reported by the source, in
/// microseconds, converted to a millisecond offset only when the activity
/// window is computed.
pub struct TrackRecord {
    pub title: String,
    pub artist: String,
    pub album: String,
    pub art_reference: String,
    pub art_is_local: bool,
    pub start: i64,
    pub length_ms: i64,
    pub paused: bool,
}

impl View for TrackRecord {
    type V = TrackModel;

    open spec fn view(&self) -> TrackModel {
        TrackModel {
            title: self.title@,
            artist: self.artist@,
            album: self.album@,
            art_reference: self.art_reference@,
            art_is_local: self.art_is_local,
            start: self.start as int,
            length_ms: self.length_ms as int,
            paused: self.paused,
        }
    }
}

/// The "same track" rule: two records describe the same track when title,
/// artist, album, locality of the artwork and length agree. The art reference
/// value and the paused flag are deliberately excluded, so a resolved upload
/// URL or a pause toggle does not register as a new track.
pub open spec fn same_track(a: TrackModel, b: TrackModel) -> bool {
    &&& a.title == b.title
    &&& a.artist == b.artist
    &&& a.album == b.album
    &&& a.art_is_local == b.art_is_local
    &&& a.length_ms == b.length_ms
}

impl PartialEq for TrackRecord {
    fn eq(&self, other: &Self) -> (r: bool) {
        self.title == other.title && self.artist == other.artist && self.album == other.album
            && self.art_is_local == other.art_is_local && self.length_ms == other.length_ms
    }
}

impl vstd::std_specs::cmp::PartialEqSpecImpl for TrackRecord {
    open spec fn obeys_eq_spec() -> bool {
        true
    }

    open spec fn eq_spec(&self, other: &Self) -> bool {
        same_track(self@, other@)
    }
}

impl TrackRecord {
    /// A field-for-field copy with an exact contract, used where verified code
    /// needs a second owned record.
    pub fn duplicate(&self) -> (r: TrackRecord)
        ensures
            r@ == self@,
    {
        TrackRecord {
            title: self.title.clone(),
            artist: self.artist.clone(),
            album: self.album.clone(),
            art_reference: self.art_reference.clone(),
            art_is_local: self.art_is_local,
            start: self.start,
            length_ms: self.length_ms,
            paused: self.paused,
        }
    }
}

/// Model of a [`TrackUpdate`].
pub ghost enum UpdateModel {
    New(TrackModel),
    ArtResolved(Seq<char>),
    Stopped,
}

/// One event on the update channel, consumed by the controller in arrival
/// order: a freshly decoded record, a finished cover-art upload, or the end
/// of playback.
pub enum TrackUpdate {
    New(TrackRecord),
    ArtResolved(String),
    Stopped,
}

impl View for TrackUpdate {
    type V = UpdateModel;

    open spec fn view(&self) -> UpdateModel {
        match self {
            TrackUpdate::New(rec) => UpdateModel::New(rec@),
            TrackUpdate::ArtResolved(url) => UpdateModel::ArtResolved(url@),
            TrackUpdate::Stopped => UpdateModel::Stopped,
        }
    }
}

impl TrackUpdate {
    /// A copy with an exact contract, mirroring [`TrackRecord::duplicate`].
    pub fn duplicate(&self) -> (r: TrackUpdate)
        ensures
            r@ == self@,
    {
        match self {
            TrackUpdate::New(rec) => TrackUpdate::New(rec.duplicate()),
            TrackUpdate::ArtResolved(url) => TrackUpdate::ArtResolved(url.clone()),
            TrackUpdate::Stopped => TrackUpdate::Stopped,
        }
    }
}

} // verus!
