//! The displayed activity: a pure function of the current record and the
//! configuration, computing the status line, the listening window and the
//! action buttons.

use vstd::prelude::*;
use crate::numbers::{div1000_trunc, length_to_offset, sat_add, saturating_add_i64};
use crate::track::TrackModel;
use crate::track::TrackRecord;

verus! {

/// What `urlencoding::encode` returns for a given text. The result depends
/// on the text alone.
pub uninterp spec fn url_encoded(s: Seq<char>) -> Seq<char>;

/// Relies on `urlencoding::encode`: percent-encodes every byte except ASCII
/// alphanumerics and `-`, `_`, `.`, `~`, deterministically in the input.
#[verifier::external_body]
fn encode_query(s: &str) -> (r: String)
    ensures
        r@ == url_encoded(s@),
{
    urlencoding::encode(s).into_owned()
}

/// Model of an [`ActionButton`].
pub ghost struct ButtonModel {
    pub label: Seq<char>,
    pub url: Seq<char>,
}

/// One external action link shown under the activity.
pub struct ActionButton {
    pub label: String,
    pub url: String,
}

impl View for ActionButton {
    type V = ButtonModel;

    open spec fn view(&self) -> ButtonModel {
        ButtonModel { label: self.label@, url: self.url@ }
    }
}

/// Model of an [`ActivityData`].
pub ghost struct ActivityModel {
    pub state: Seq<char>,
    pub details: Seq<char>,
    pub image: Seq<char>,
    pub start: int,
    pub end: int,
    pub buttons: Seq<ButtonModel>,
}

/// The structured payload displayed for the current track: status line,
/// title, image reference, listening window and action buttons.
pub struct ActivityData {
    pub state: String,
    pub details: String,
    pub image: String,
    pub start_ts: i64,
    pub end_ts: i64,
    pub buttons: Vec<ActionButton>,
}

impl View for ActivityData {
    type V = ActivityModel;

    open spec fn view(&self) -> ActivityModel {
        ActivityModel {
            state: self.state@,
            details: self.details@,
            image: self.image@,
            start: self.start_ts as int,
            end: self.end_ts as int,
            buttons: self.buttons@.map_values(|b: ActionButton| b@),
        }
    }
}

/// The status line: "by: {artist}", with ", in: {album}" appended when the
/// album is non-empty.
pub open spec fn state_line(artist: Seq<char>, album: Seq<char>) -> Seq<char> {
    if album.len() == 0 {
        "by: "@ + artist
    } else {
        "by: "@ + artist + ", in: "@ + album
    }
}

/// The query behind the search deep link: "{title} {artist}".
pub open spec fn search_query(title: Seq<char>, artist: Seq<char>) -> Seq<char> {
    title + " "@ + artist
}

/// The search deep link: the query URL-encoded into the templated video
/// search URL.
pub open spec fn search_url(title: Seq<char>, artist: Seq<char>) -> Seq<char> {
    "https://yewtu.be/search?q="@ + url_encoded(search_query(title, artist)) + "&type=video"@
}

/// The always-present search button.
pub open spec fn listen_button(t: TrackModel) -> ButtonModel {
    ButtonModel { label: "Listen along"@, url: search_url(t.title, t.artist) }
}

/// The optional link to this project's repository.
pub open spec fn repo_button() -> ButtonModel {
    ButtonModel { label: "View repository"@, url: "https://github.com/faervan/music_presence"@ }
}

/// The activity displayed for a record: the status line, the track title,
/// the current art reference, the listening window from the record's start
/// to start plus the length converted to milliseconds (clamped to the
/// timestamp type), and one or two buttons.
pub open spec fn activity_of(t: TrackModel, hide_repo: bool) -> ActivityModel {
    ActivityModel {
        state: state_line(t.artist, t.album),
        details: t.title,
        image: t.art_reference,
        start: t.start,
        end: saturating_add_i64(t.start, div1000_trunc(t.length_ms)),
        buttons: if hide_repo {
            seq![listen_button(t)]
        } else {
            seq![listen_button(t), repo_button()]
        },
    }
}

/// For every record whose window end fits the timestamp type, the activity
/// end-timestamp is exactly the start-timestamp plus `length_ms / 1000`
/// under integer truncation.
pub proof fn lemma_activity_window(t: TrackModel, hide_repo: bool)
    requires
        i64::MIN <= t.start + div1000_trunc(t.length_ms) <= i64::MAX,
    ensures
        activity_of(t, hide_repo).end == t.start + div1000_trunc(t.length_ms),
{
}

/// Computes the activity displayed for `rec`.
pub fn build_activity(rec: &TrackRecord, hide_repo: bool) -> (r: ActivityData)
    ensures
        r@ == activity_of(rec@, hide_repo),
{
    let mut state = String::from_str("by: ");
    state.append(rec.artist.as_str());
    if rec.album.as_str().unicode_len() != 0 {
        state.append(", in: ");
        state.append(rec.album.as_str());
    }
    let mut query = rec.title.clone();
    query.append(" ");
    query.append(rec.artist.as_str());
    proof {
        assert(query@ =~= search_query(rec@.title, rec@.artist));
    }
    let encoded = encode_query(query.as_str());
    let mut url = String::from_str("https://yewtu.be/search?q=");
    url.append(encoded.as_str());
    url.append("&type=video");
    let mut buttons: Vec<ActionButton> = Vec::new();
    buttons.push(ActionButton { label: String::from_str("Listen along"), url });
    if !hide_repo {
        buttons.push(
            ActionButton {
                label: String::from_str("View repository"),
                url: String::from_str("https://github.com/faervan/music_presence"),
            },
        );
    }
    let offset = length_to_offset(rec.length_ms);
    let r = ActivityData {
        state,
        details: rec.title.clone(),
        image: rec.art_reference.clone(),
        start_ts: rec.start,
        end_ts: sat_add(rec.start, offset),
        buttons,
    };
    proof {
        assert(r@.state =~= state_line(rec@.artist, rec@.album));
        assert(r@.buttons =~= activity_of(rec@, hide_repo).buttons);
    }
    r
}

} // verus!
