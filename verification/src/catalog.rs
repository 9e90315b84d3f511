//! The catalog client's response handling: mapping a search response of the
//! external music catalog into plain track records.
//!
//! The HTTP round trip is an external collaborator; it hands the status code
//! and body text to [`parse_search_response`].  Items that lack a usable
//! identity are dropped silently — partial results are valid — and the output
//! keeps the input order.

use vstd::prelude::*;

use crate::credential::AuthFailure;
use crate::json::{
    json_of, parse_json, spec_arr_member, spec_member, spec_str_member, JsonValue,
};

verus! {

/// One track of the catalog's search results.
#[derive(Clone, Debug, PartialEq)]
pub struct SpotifyTrack {
    pub id: String,
    pub name: String,
    pub artists: Vec<String>,
    pub preview_url: Option<String>,
    pub album_art: Option<String>,
}

/// The mathematical view of a track: the artist list as a sequence.
pub struct TrackModel {
    pub id: String,
    pub name: String,
    pub artists: Seq<String>,
    pub preview_url: Option<String>,
    pub album_art: Option<String>,
}

impl View for SpotifyTrack {
    type V = TrackModel;

    open spec fn view(&self) -> TrackModel {
        TrackModel {
            id: self.id,
            name: self.name,
            artists: self.artists@,
            preview_url: self.preview_url,
            album_art: self.album_art,
        }
    }
}

/// Why a search failed.
#[derive(Clone, Debug, PartialEq)]
pub enum ApiError {
    /// Credential acquisition failed; the store's failure, propagated as it
    /// was.
    Auth(AuthFailure),
    /// Non-2xx response from the search endpoint.
    HttpStatus { status: u16, body: String },
    /// 2xx response whose body is not JSON or lacks the `tracks.items`
    /// array.
    MalformedResponse,
}

/// The artist names of one item: the string `name` of each entry of its
/// artist array, in order; an entry without one is dropped from the list,
/// not the item.
pub open spec fn spec_artist_names(entries: Seq<JsonValue>) -> Seq<String>
    decreases entries.len(),
{
    if entries.len() == 0 {
        Seq::empty()
    } else {
        let rest = spec_artist_names(entries.drop_last());
        match spec_str_member(entries.last(), "name"@) {
            Some(n) => rest.push(n),
            None => rest,
        }
    }
}

/// The URL of the first image of the item's album art list, if present.
pub open spec fn spec_album_art(item: JsonValue) -> Option<String> {
    match spec_member(item, "album"@) {
        Some(album) => match spec_arr_member(album, "images"@) {
            Some(images) => if images.len() > 0 {
                spec_str_member(images[0], "url"@)
            } else {
                None
            },
            None => None,
        },
        None => None,
    }
}

/// The record one response item yields, or `None` — the item is dropped —
/// where it lacks a string `id` or `name`.  The artist list is empty where
/// the item carries no artist array.
pub open spec fn spec_track_of(item: JsonValue) -> Option<TrackModel> {
    match (spec_str_member(item, "id"@), spec_str_member(item, "name"@)) {
        (Some(id), Some(name)) => Some(
            TrackModel {
                id,
                name,
                artists: match spec_arr_member(item, "artists"@) {
                    Some(entries) => spec_artist_names(entries),
                    None => Seq::empty(),
                },
                preview_url: spec_str_member(item, "preview_url"@),
                album_art: spec_album_art(item),
            },
        ),
        _ => None,
    }
}

/// The records of a list of response items: input order kept, dropped items
/// omitted.
pub open spec fn spec_tracks_of(items: Seq<JsonValue>) -> Seq<TrackModel>
    decreases items.len(),
{
    if items.len() == 0 {
        Seq::empty()
    } else {
        let rest = spec_tracks_of(items.drop_last());
        match spec_track_of(items.last()) {
            Some(t) => rest.push(t),
            None => rest,
        }
    }
}

/// Outcome of one search round trip, as a function of the HTTP status and
/// the body text: the track records of `tracks.items` on a well-formed 2xx
/// response, `MalformedResponse` on a 2xx body outside the search schema,
/// and the raw status and body otherwise.
pub open spec fn spec_search_outcome(status: u16, body: String) -> Result<
    Seq<TrackModel>,
    ApiError,
> {
    if 200 <= status < 300 {
        match json_of(body@) {
            Some(v) => match spec_member(v, "tracks"@) {
                Some(tracks) => match spec_arr_member(tracks, "items"@) {
                    Some(items) => Ok(spec_tracks_of(items)),
                    None => Err(ApiError::MalformedResponse),
                },
                None => Err(ApiError::MalformedResponse),
            },
            None => Err(ApiError::MalformedResponse),
        }
    } else {
        Err(ApiError::HttpStatus { status, body })
    }
}

/// Collects the artist names of one item's artist array.
fn artist_names(entries: &Vec<JsonValue>) -> (r: Vec<String>)
    ensures
        r@ == spec_artist_names(entries@),
{
    let mut out: Vec<String> = Vec::new();
    let n = entries.len();
    let mut i: usize = 0;
    while i < n
        invariant
            n == entries@.len(),
            i <= n,
            out@ == spec_artist_names(entries@.take(i as int)),
        decreases n - i,
    {
        let entry = &entries[i];
        match entry.str_member("name") {
            Some(s) => out.push(s.clone()),
            None => {},
        }
        proof {
            let s = entries@;
            assert(s.take(i + 1).drop_last() =~= s.take(i as int));
            assert(s.take(i + 1).last() == s[i as int]);
        }
        i = i + 1;
    }
    proof {
        assert(entries@.take(n as int) =~= entries@);
    }
    out
}

/// Reads the album-art URL of one item.
fn album_art_of(item: &JsonValue) -> (r: Option<String>)
    ensures
        r == spec_album_art(*item),
{
    match item.member("album") {
        Some(album) => match album.arr_member("images") {
            Some(images) => {
                if images.len() > 0 {
                    let first = &images[0];
                    match first.str_member("url") {
                        Some(s) => Some(s.clone()),
                        None => None,
                    }
                } else {
                    None
                }
            },
            None => None,
        },
        None => None,
    }
}

/// Maps one response item to a track record, or drops it.
fn track_of(item: &JsonValue) -> (r: Option<SpotifyTrack>)
    ensures
        match r {
            Some(t) => spec_track_of(*item) == Some(t@),
            None => spec_track_of(*item) is None,
        },
{
    let id = match item.str_member("id") {
        Some(s) => s.clone(),
        None => { return None },
    };
    let name = match item.str_member("name") {
        Some(s) => s.clone(),
        None => { return None },
    };
    let artists: Vec<String> = match item.arr_member("artists") {
        Some(entries) => artist_names(entries),
        None => Vec::new(),
    };
    let preview_url: Option<String> = match item.str_member("preview_url") {
        Some(s) => Some(s.clone()),
        None => None,
    };
    let album_art = album_art_of(item);
    Some(SpotifyTrack { id, name, artists, preview_url, album_art })
}

/// Classifies one search round trip and maps a well-formed response into
/// track records: input order kept, items without a string `id` or `name`
/// dropped silently.
pub fn parse_search_response(status: u16, body: String) -> (r: Result<Vec<SpotifyTrack>, ApiError>)
    ensures
        r matches Ok(tracks) ==> (spec_search_outcome(status, body) matches Ok(models)
            && tracks@.map_values(|t: SpotifyTrack| t@) == models),
        r matches Err(e) ==> spec_search_outcome(status, body) == Err::<Seq<TrackModel>, ApiError>(
            e,
        ),
{
    if !(200 <= status && status < 300) {
        return Err(ApiError::HttpStatus { status, body });
    }
    let parsed = match parse_json(body.as_str()) {
        Some(v) => v,
        None => { return Err(ApiError::MalformedResponse) },
    };
    let tracks_member = match parsed.member("tracks") {
        Some(t) => t,
        None => { return Err(ApiError::MalformedResponse) },
    };
    let items = match tracks_member.arr_member("items") {
        Some(list) => list,
        None => { return Err(ApiError::MalformedResponse) },
    };
    let mut out: Vec<SpotifyTrack> = Vec::new();
    let n = items.len();
    let mut i: usize = 0;
    while i < n
        invariant
            n == items@.len(),
            i <= n,
            out@.map_values(|t: SpotifyTrack| t@) == spec_tracks_of(items@.take(i as int)),
        decreases n - i,
    {
        let item = &items[i];
        match track_of(item) {
            Some(t) => {
                let ghost prev = out@;
                out.push(t);
                proof {
                    assert(out@.map_values(|t: SpotifyTrack| t@) =~= prev.map_values(
                        |t: SpotifyTrack| t@,
                    ).push(out@.last()@));
                }
            },
            None => {},
        }
        proof {
            let s = items@;
            assert(s.take(i + 1).drop_last() =~= s.take(i as int));
            assert(s.take(i + 1).last() == s[i as int]);
        }
        i = i + 1;
    }
    proof {
        assert(items@.take(n as int) =~= items@);
    }
    Ok(out)
}

} // verus!
