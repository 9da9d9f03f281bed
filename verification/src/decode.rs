//! Turning one line of the metadata stream into an event: a decoded track
//! record, a "nothing playing" blank, or an ignored malformed line.

use vstd::prelude::*;
use crate::json::{str_field, JsonDoc, JsonModel};
use crate::numbers::parse_i64;
use crate::numbers::parse_i64_spec;
use crate::text::has_prefix;
use crate::text::str_eq;
use crate::track::{TrackModel, TrackRecord};

verus! {

/// What `char::is_whitespace` returns: whether the character has the Unicode
/// `White_Space` property. The result depends on the character alone.
pub uninterp spec fn unicode_whitespace(c: char) -> bool;

/// Relies on `char::is_whitespace`: the Unicode `White_Space` property.
#[verifier::external_body]
fn char_is_whitespace(c: char) -> (r: bool)
    ensures
        r == unicode_whitespace(c),
{
    c.is_whitespace()
}

/// Whether the line consists of whitespace alone, as `str::trim` leaving an
/// empty string does. The empty line is blank.
pub open spec fn is_blank_spec(s: Seq<char>) -> bool {
    forall|i: int| 0 <= i < s.len() ==> unicode_whitespace(#[trigger] s[i])
}

/// Whether the line is whitespace alone.
pub fn is_blank(line: &str) -> (r: bool)
    ensures
        r == is_blank_spec(line@),
{
    let len = line.unicode_len();
    let mut i: usize = 0;
    while i < len
        invariant
            0 <= i <= len,
            len == line@.len(),
            forall|k: int| 0 <= k < i ==> unicode_whitespace(#[trigger] line@[k]),
        decreases len - i,
    {
        if !char_is_whitespace(line.get_char(i)) {
            return false;
        }
        i = i + 1;
    }
    true
}

/// The string under `key`, or the empty string where the key is absent or
/// not a string: the default every metadata field falls back to.
pub open spec fn field_or_empty(m: Map<Seq<char>, JsonModel>, key: Seq<char>) -> Seq<char> {
    match str_field(m, key) {
        Some(s) => s,
        None => Seq::empty(),
    }
}

/// The local-file scheme marker stripped from local art references.
pub open spec fn local_scheme() -> Seq<char> {
    "file://"@
}

/// Whether a raw art reference carries the local-file scheme marker.
pub open spec fn art_is_local_spec(raw: Seq<char>) -> bool {
    raw.len() >= 7 && raw.subrange(0, 7) == local_scheme()
}

/// The length field parsed as a signed integer, zero where the field is
/// absent, not a string, or not a well-formed number.
pub open spec fn length_of_fields(m: Map<Seq<char>, JsonModel>) -> int {
    match str_field(m, "length"@) {
        Some(ls) => match parse_i64_spec(ls) {
            Some(v) => v,
            None => 0,
        },
        None => 0,
    }
}

/// Paused unless the status field is exactly the string "Playing": absence
/// of a status reads as paused, the fail-safe direction.
pub open spec fn paused_of_fields(m: Map<Seq<char>, JsonModel>) -> bool {
    str_field(m, "status"@) != Some("Playing"@)
}

/// The record decoded from the fields of one metadata object, stamped with
/// the construction time `now`.
pub open spec fn track_of_fields(m: Map<Seq<char>, JsonModel>, now: int) -> TrackModel {
    let raw = field_or_empty(m, "art_url"@);
    let local = art_is_local_spec(raw);
    TrackModel {
        title: field_or_empty(m, "title"@),
        artist: field_or_empty(m, "artist"@),
        album: field_or_empty(m, "album"@),
        art_reference: if local {
            raw.skip(7)
        } else {
            raw
        },
        art_is_local: local,
        start: now,
        length_ms: length_of_fields(m),
        paused: paused_of_fields(m),
    }
}

/// Model of a [`LineEvent`].
pub ghost enum LineModel {
    Track(TrackModel),
    Blank,
    Ignored,
}

/// What one line of the metadata stream means: a decoded record, a blank
/// "nothing playing" line, or a malformed line to be ignored.
pub enum LineEvent {
    Track(TrackRecord),
    Blank,
    Ignored,
}

impl View for LineEvent {
    type V = LineModel;

    open spec fn view(&self) -> LineModel {
        match self {
            LineEvent::Track(rec) => LineModel::Track(rec@),
            LineEvent::Blank => LineModel::Blank,
            LineEvent::Ignored => LineModel::Ignored,
        }
    }
}

/// The meaning of a line: a record when the line is a JSON object, blank
/// when it is whitespace alone, ignored otherwise.
pub open spec fn classify_spec(s: Seq<char>, now: int) -> LineModel {
    match crate::json::json_of(s) {
        Some(doc) => match doc {
            JsonModel::Obj(m) => LineModel::Track(track_of_fields(m, now)),
            _ => if is_blank_spec(s) {
                LineModel::Blank
            } else {
                LineModel::Ignored
            },
        },
        None => if is_blank_spec(s) {
            LineModel::Blank
        } else {
            LineModel::Ignored
        },
    }
}

/// One string field of the metadata object, or the empty string.
fn entry_or_empty(doc: &JsonDoc, key: &str) -> (r: String)
    requires
        doc@ matches JsonModel::Obj(_),
    ensures
        doc@ matches JsonModel::Obj(m) && r@ == field_or_empty(m, key@),
{
    match doc.str_entry(key) {
        Some(s) => s,
        None => String::new(),
    }
}

/// Decodes the fields of one metadata object into a record stamped with the
/// construction time `now`.
fn track_from_doc(doc: &JsonDoc, now: i64) -> (r: TrackRecord)
    requires
        doc@ matches JsonModel::Obj(_),
    ensures
        doc@ matches JsonModel::Obj(m) && r@ == track_of_fields(m, now as int),
{
    let raw_art = entry_or_empty(doc, "art_url");
    let local = has_prefix(raw_art.as_str(), "file://");
    proof {
        reveal_strlit("file://");
    }
    let art_reference = if local {
        let raw = raw_art.as_str();
        raw.substring_char(7, raw.unicode_len()).to_owned()
    } else {
        raw_art
    };
    let length_ms = match doc.str_entry("length") {
        Some(ls) => match parse_i64(ls.as_str()) {
            Some(v) => v,
            None => 0,
        },
        None => 0,
    };
    let paused = match doc.str_entry("status") {
        Some(st) => !str_eq(st.as_str(), "Playing"),
        None => true,
    };
    proof {
        if doc@ matches JsonModel::Obj(m) {
            if local {
                assert(raw_art@.subrange(7, raw_art@.len() as int) =~= raw_art@.skip(7));
            }
        }
    }
    TrackRecord {
        title: entry_or_empty(doc, "title"),
        artist: entry_or_empty(doc, "artist"),
        album: entry_or_empty(doc, "album"),
        art_reference,
        art_is_local: local,
        start: now,
        length_ms,
        paused,
    }
}

/// Classifies one line of the metadata stream, stamping a decoded record
/// with the construction time `now`.
pub fn classify_line(line: &str, now: i64) -> (r: LineEvent)
    ensures
        r@ == classify_spec(line@, now as int),
{
    match JsonDoc::parse(line) {
        Some(doc) => {
            if doc.is_object() {
                LineEvent::Track(track_from_doc(&doc, now))
            } else if is_blank(line) {
                LineEvent::Blank
            } else {
                LineEvent::Ignored
            }
        },
        None => {
            if is_blank(line) {
                LineEvent::Blank
            } else {
                LineEvent::Ignored
            }
        },
    }
}

} // verus!
