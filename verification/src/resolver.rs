//! Cover-art handling: the single-slot dedup key that suppresses redundant
//! uploads, the resize decision, and the interpretation of the upload
//! endpoint's response.

use vstd::prelude::*;
use crate::json::{str_field, JsonDoc, JsonModel};
use crate::text::{replace_first, replace_first_spec};
use crate::track::TrackModel;
use crate::track::TrackRecord;

verus! {

/// The upload rule: a record's artwork needs uploading iff it is a local
/// file and its path differs from the most recently started upload.
pub open spec fn upload_decision(last: Seq<char>, rec: TrackModel) -> Option<Seq<char>> {
    if rec.art_is_local && rec.art_reference != last {
        Some(rec.art_reference)
    } else {
        None
    }
}

/// The dedup key after a record has been observed: the record's path when an
/// upload was started, the old key otherwise.
pub open spec fn dedup_key_after(last: Seq<char>, rec: TrackModel) -> Seq<char> {
    match upload_decision(last, rec) {
        Some(p) => p,
        None => last,
    }
}

/// An unchanged local art path observed again — in a later tick or
/// back-to-back while the first upload is still in flight — starts no second
/// upload: the key is updated when the upload starts, not when it completes.
pub proof fn lemma_upload_dedup(last: Seq<char>, rec1: TrackModel, rec2: TrackModel)
    requires
        rec1.art_is_local,
        rec2.art_is_local,
        rec2.art_reference == rec1.art_reference,
    ensures
        upload_decision(dedup_key_after(last, rec1), rec2) is None,
{
}

/// The resolver's single-slot state: the path of the most recently started
/// local-art upload.
pub struct ArtResolver {
    last_started: String,
}

impl View for ArtResolver {
    type V = Seq<char>;

    closed spec fn view(&self) -> Seq<char> {
        self.last_started@
    }
}

impl ArtResolver {
    /// A fresh resolver; no upload has been started.
    pub fn new() -> (r: ArtResolver)
        ensures
            r@ == Seq::<char>::empty(),
    {
        ArtResolver { last_started: String::new() }
    }

    /// Applies the upload rule to one decoded record: returns the path to
    /// upload when one is needed, updating the dedup key before the upload
    /// is started so that a rapid second tick for the same path is
    /// suppressed even while the first upload is in flight.
    pub fn observe(&mut self, rec: &TrackRecord) -> (r: Option<String>)
        ensures
            match r {
                Some(p) => upload_decision(old(self)@, rec@) == Some(p@),
                None => upload_decision(old(self)@, rec@) is None,
            },
            final(self)@ == dedup_key_after(old(self)@, rec@),
    {
        if rec.art_is_local && !(self.last_started == rec.art_reference) {
            self.last_started = rec.art_reference.clone();
            Some(rec.art_reference.clone())
        } else {
            None
        }
    }
}

/// The decision whether a cover image of the given dimensions is resized
/// before upload: skipped only where the source is already smaller than the
/// target in both dimensions, so resizing only ever shrinks.
pub fn needs_resize(width: u32, height: u32, target_w: u32, target_h: u32) -> (r: bool)
    ensures
        r == !(width < target_w && height < target_h),
{
    !(width < target_w && height < target_h)
}

/// The upload host's URL prefix as returned by the endpoint.
pub open spec fn hosted_prefix() -> Seq<char> {
    "https://tmpfiles.org/"@
}

/// The same host's direct-download prefix.
pub open spec fn download_prefix() -> Seq<char> {
    "https://tmpfiles.org/dl/"@
}

/// The direct-download URL carried by an upload response body: present when
/// the body is a JSON object with a string `status`, an object `data`, and a
/// string `data.url`; the returned URL has its first host-prefix occurrence
/// substituted with the direct-download form.
pub open spec fn response_url_spec(s: Seq<char>) -> Option<Seq<char>> {
    match crate::json::json_of(s) {
        Some(doc) => match doc {
            JsonModel::Obj(m) => if str_field(m, "status"@) is Some && m.contains_key("data"@) {
                match m["data"@] {
                    JsonModel::Obj(d) => match str_field(d, "url"@) {
                        Some(u) => Some(replace_first_spec(u, hosted_prefix(), download_prefix())),
                        None => None,
                    },
                    _ => None,
                }
            } else {
                None
            },
            _ => None,
        },
        None => None,
    }
}

/// Reads an upload response body and produces the direct-download URL to
/// publish, or `None` on any malformed response.
pub fn extract_upload_url(body: &str) -> (r: Option<String>)
    ensures
        match r {
            Some(u) => response_url_spec(body@) == Some(u@),
            None => response_url_spec(body@) is None,
        },
{
    let doc = match JsonDoc::parse(body) {
        Some(doc) => doc,
        None => {
            return None;
        },
    };
    if !doc.is_object() {
        return None;
    }
    let status = doc.str_entry("status");
    if status.is_none() {
        return None;
    }
    let data = match doc.object_entry("data") {
        Some(d) => d,
        None => {
            return None;
        },
    };
    match data.str_entry("url") {
        Some(u) => Some(replace_first(u.as_str(), "https://tmpfiles.org/", "https://tmpfiles.org/dl/")),
        None => None,
    }
}

} // verus!
